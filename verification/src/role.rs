//! The three-tier role carried by every identity and every session token.

use vstd::prelude::*;
use crate::text::same_text;

verus! {

/// Role assigned to a user account.
#[derive(Debug, Clone, Copy, PartialEq, Eq, Structural)]
pub enum UserRole {
    Admin,
    Winemaker,
    Worker,
}

/// Wire name of a role, as it appears in tokens and in the identity store.
pub open spec fn role_name(role: UserRole) -> Seq<char> {
    match role {
        UserRole::Admin => "admin"@,
        UserRole::Winemaker => "winemaker"@,
        UserRole::Worker => "worker"@,
    }
}

/// The role that a wire name denotes, if any. Names are case-sensitive.
pub open spec fn role_of_name(name: Seq<char>) -> Option<UserRole> {
    if name == "admin"@ {
        Some(UserRole::Admin)
    } else if name == "winemaker"@ {
        Some(UserRole::Winemaker)
    } else if name == "worker"@ {
        Some(UserRole::Worker)
    } else {
        None
    }
}

/// Every role is recovered from its own wire name: naming neither widens nor
/// narrows a role.
pub proof fn lemma_role_name_round_trip(role: UserRole)
    ensures
        role_of_name(role_name(role)) == Some(role),
{
    reveal_strlit("admin");
    reveal_strlit("winemaker");
    reveal_strlit("worker");
    assert("admin"@.len() == 5);
    assert("winemaker"@.len() == 9);
    assert("worker"@.len() == 6);
}

impl UserRole {
    /// The wire name of this role.
    pub fn as_str(&self) -> (name: &'static str)
        ensures
            name@ == role_name(*self),
    {
        match self {
            UserRole::Admin => "admin",
            UserRole::Winemaker => "winemaker",
            UserRole::Worker => "worker",
        }
    }

    /// Reads a role from its wire name; `None` for any other text.
    pub fn parse(name: &str) -> (role: Option<UserRole>)
        ensures
            role == role_of_name(name@),
    {
        if same_text(name, "admin") {
            Some(UserRole::Admin)
        } else if same_text(name, "winemaker") {
            Some(UserRole::Winemaker)
        } else if same_text(name, "worker") {
            Some(UserRole::Worker)
        } else {
            None
        }
    }
}

} // verus!
