//! The request authenticator: from the authorization header of a request to
//! a trusted identity context.

use vstd::prelude::*;
use crate::config::Settings;
use crate::error::{AppError, Failure};
use crate::token::{decode_outcome, renders, Claims, ClaimsView};

verus! {

/// The trusted identity context of one request: the claims of a token whose
/// signature held and whose expiry had not been reached.
#[derive(Debug, Clone)]
pub struct AuthenticatedUser {
    pub claims: Claims,
}

/// A character that a header value may show as text: printable ASCII or a
/// tab.
pub open spec fn is_visible(c: char) -> bool {
    (32 <= c as u32 && (c as u32) < 127) || c == '\t'
}

/// A space or a tab.
pub open spec fn is_blank(c: char) -> bool {
    c == ' ' || c == '\t'
}

/// The text without the blanks it begins with.
pub open spec fn trim_blanks(s: Seq<char>) -> Seq<char>
    decreases s.len(),
{
    if s.len() > 0 && is_blank(s[0]) {
        trim_blanks(s.subrange(1, s.len() as int))
    } else {
        s
    }
}

/// Whether a header value begins with the scheme `Bearer`, in any mix of
/// upper and lower case, and a space, and holds more than that.
pub open spec fn names_bearer(value: Seq<char>) -> bool {
    &&& value.len() > 6
    &&& (value[0] == 'B' || value[0] == 'b')
    &&& (value[1] == 'E' || value[1] == 'e')
    &&& (value[2] == 'A' || value[2] == 'a')
    &&& (value[3] == 'R' || value[3] == 'r')
    &&& (value[4] == 'E' || value[4] == 'e')
    &&& (value[5] == 'R' || value[5] == 'r')
    &&& value[6] == ' '
}

/// Whether every character of a header value is visible.
pub open spec fn all_visible(value: Seq<char>) -> bool {
    forall|i: int| 0 <= i < value.len() ==> is_visible(#[trigger] value[i])
}

/// The bearer token that an authorization header value presents: what
/// follows the scheme and its space, without leading blanks. `None` where
/// the value names another scheme or holds a character that is not visible.
pub open spec fn bearer_token(value: Seq<char>) -> Option<Seq<char>> {
    if names_bearer(value) && all_visible(value) {
        Some(trim_blanks(value.subrange(7, value.len() as int)))
    } else {
        None
    }
}

/// The refusal of a request that presents no bearer token.
pub open spec fn missing_token() -> Failure {
    Failure::Unauthorized("Missing authorization token"@)
}

/// What authenticating a request comes to, given the value of its
/// authorization header if it has one: the claims of its token, or the
/// failure to answer with.
pub open spec fn authentication_outcome(
    authorization: Option<Seq<char>>,
    secret: Seq<char>,
    now: int,
) -> Result<ClaimsView, Failure> {
    if authorization is Some && bearer_token(authorization->0) is Some {
        match decode_outcome(bearer_token(authorization->0)->0, secret, now) {
            Ok(c) => Ok(c),
            Err(fault) => Err(Failure::Token(fault)),
        }
    } else {
        Err(missing_token())
    }
}

/// Whether an executable result is the one that `outcome` describes.
pub open spec fn admits(r: Result<AuthenticatedUser, AppError>, outcome: Result<ClaimsView, Failure>)
    -> bool {
    match r {
        Ok(user) => outcome matches Ok(c) && c == user.claims@,
        Err(e) => outcome matches Err(f) && f == e@,
    }
}

proof fn lemma_trim_step(s: Seq<char>, start: int)
    requires
        0 <= start < s.len(),
        is_blank(s[start]),
    ensures
        trim_blanks(s.subrange(start, s.len() as int)) == trim_blanks(
            s.subrange(start + 1, s.len() as int),
        ),
{
    let tail = s.subrange(start, s.len() as int);
    assert(tail[0] == s[start]);
    assert(tail.subrange(1, tail.len() as int) =~= s.subrange(start + 1, s.len() as int));
}

fn is_visible_char(c: char) -> (visible: bool)
    ensures
        visible == is_visible(c),
{
    let code = c as u32;
    (32 <= code && code < 127) || c == '\t'
}

/// Reads the bearer token out of the value of an authorization header.
pub fn bearer_token_of(value: &str) -> (r: Option<String>)
    ensures
        match r {
            Some(token) => bearer_token(value@) == Some(token@),
            None => bearer_token(value@) is None,
        },
{
    let n = value.unicode_len();
    if n <= 6 {
        return None;
    }
    let c0 = value.get_char(0);
    let c1 = value.get_char(1);
    let c2 = value.get_char(2);
    let c3 = value.get_char(3);
    let c4 = value.get_char(4);
    let c5 = value.get_char(5);
    let c6 = value.get_char(6);
    let scheme = (c0 == 'B' || c0 == 'b') && (c1 == 'E' || c1 == 'e') && (c2 == 'A' || c2 == 'a')
        && (c3 == 'R' || c3 == 'r') && (c4 == 'E' || c4 == 'e') && (c5 == 'R' || c5 == 'r') && c6
        == ' ';
    if !scheme {
        return None;
    }
    let mut i: usize = 0;
    while i < n
        invariant
            n == value@.len(),
            i <= n,
            forall|j: int| 0 <= j < i ==> is_visible(#[trigger] value@[j]),
        decreases n - i,
    {
        if !is_visible_char(value.get_char(i)) {
            return None;
        }
        i += 1;
    }
    let mut start: usize = 7;
    while start < n && (value.get_char(start) == ' ' || value.get_char(start) == '\t')
        invariant
            n == value@.len(),
            7 <= start <= n,
            trim_blanks(value@.subrange(7, n as int)) == trim_blanks(
                value@.subrange(start as int, n as int),
            ),
        decreases n - start,
    {
        proof {
            lemma_trim_step(value@, start as int);
        }
        start += 1;
    }
    let token = value.substring_char(start, n);
    proof {
        let rest = value@.subrange(start as int, n as int);
        assert(rest.len() > 0 ==> rest[0] == value@[start as int]);
        assert(trim_blanks(rest) == rest);
    }
    Some(token.to_owned())
}

impl AuthenticatedUser {
    /// Authenticates a request as of the given instant, from the value of
    /// its authorization header, if it has one.
    ///
    /// A request without a bearer token is unauthorized; a token that does
    /// not decode is a token fault; otherwise the context holds exactly the
    /// claims that the token carries.
    pub fn authenticate_at(authorization: Option<&str>, secret: &str, now: i64) -> (r: Result<
        AuthenticatedUser,
        AppError,
    >)
        ensures
            admits(r, authentication_outcome(view_of(authorization), secret@, now as int)),
    {
        let token = match authorization {
            Some(value) => bearer_token_of(value),
            None => None,
        };
        match token {
            Some(token) => {
                let claims = Claims::decode_at(token.as_str(), secret, now)?;
                Ok(AuthenticatedUser { claims })
            },
            None => Err(AppError::Unauthorized("Missing authorization token".to_owned())),
        }
    }

    /// Authenticates a request at the present instant, from the value of its
    /// authorization header and the settings attached to the request.
    ///
    /// A request without a bearer token is unauthorized, whatever else holds.
    /// Settings that are not attached are an internal fault. Otherwise the
    /// result is that of [`AuthenticatedUser::authenticate_at`] at some
    /// instant, under the configured secret.
    pub fn from_request_parts(authorization: Option<&str>, settings: Option<&Settings>) -> (r:
        Result<AuthenticatedUser, AppError>)
        ensures
            presents_token(view_of(authorization)) ==> match settings {
                Some(s) => exists|now: int|
                    admits(
                        r,
                        #[trigger] authentication_outcome(
                            view_of(authorization),
                            s.jwt_secret@,
                            now,
                        ),
                    ),
                None => r is Err && r->Err_0@ == Failure::Internal("Settings not found"@),
            },
            !presents_token(view_of(authorization)) ==> r is Err && r->Err_0@ == missing_token(),
    {
        let token = match authorization {
            Some(value) => bearer_token_of(value),
            None => None,
        };
        match token {
            None => Err(AppError::Unauthorized("Missing authorization token".to_owned())),
            Some(token) => match settings {
                None => Err(AppError::InternalError("Settings not found".to_owned())),
                Some(settings) => {
                    let decoded = Claims::decode(token.as_str(), settings.jwt_secret.as_str());
                    let ghost now = choose|now: int|
                        renders(
                            decoded,
                            #[trigger] decode_outcome(token@, settings.jwt_secret@, now),
                        );
                    let r = match decoded {
                        Ok(claims) => Ok(AuthenticatedUser { claims }),
                        Err(e) => Err(e),
                    };
                    assert(admits(
                        r,
                        authentication_outcome(view_of(authorization), settings.jwt_secret@, now),
                    ));
                    r
                },
            },
        }
    }
}

/// Whether a request presents a bearer token.
pub open spec fn presents_token(authorization: Option<Seq<char>>) -> bool {
    authorization is Some && bearer_token(authorization->0) is Some
}

/// View of an optional header value.
pub open spec fn view_of(value: Option<&str>) -> Option<Seq<char>> {
    match value {
        Some(v) => Some(v@),
        None => None,
    }
}

} // verus!
