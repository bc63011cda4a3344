//! User identifiers: 128-bit values written as hyphenated lower-case
//! hexadecimal text in tokens.

use vstd::prelude::*;

verus! {

/// Key of an identity in the identity store.
#[derive(Debug, Clone, Copy, PartialEq, Eq, Structural)]
pub struct UserId(pub u128);

/// The character of a hexadecimal digit, lower case.
pub open spec fn hex_char(d: nat) -> char {
    if d == 0 {
        '0'
    } else if d == 1 {
        '1'
    } else if d == 2 {
        '2'
    } else if d == 3 {
        '3'
    } else if d == 4 {
        '4'
    } else if d == 5 {
        '5'
    } else if d == 6 {
        '6'
    } else if d == 7 {
        '7'
    } else if d == 8 {
        '8'
    } else if d == 9 {
        '9'
    } else if d == 10 {
        'a'
    } else if d == 11 {
        'b'
    } else if d == 12 {
        'c'
    } else if d == 13 {
        'd'
    } else if d == 14 {
        'e'
    } else {
        'f'
    }
}

/// The lowest `digits` hexadecimal digits of a number, most significant first.
pub open spec fn hex(value: nat, digits: nat) -> Seq<char>
    decreases digits,
{
    if digits == 0 {
        Seq::empty()
    } else {
        hex(value / 16, (digits - 1) as nat).push(hex_char(value % 16))
    }
}

/// Hyphenated text of an identifier: groups of 8, 4, 4, 4 and 12 hexadecimal
/// digits, most significant first.
pub open spec fn hyphenated(id: u128) -> Seq<char> {
    let v = id as nat;
    hex(v / 0x1_0000_0000_0000_0000_0000_0000, 8) + seq!['-']
        + hex(v / 0x1_0000_0000_0000_0000_0000, 4) + seq!['-']
        + hex(v / 0x1_0000_0000_0000_0000, 4) + seq!['-']
        + hex(v / 0x1_0000_0000_0000, 4) + seq!['-']
        + hex(v, 12)
}

/// The identifier that a text denotes in any of the notations the `uuid`
/// crate reads; `None` where it reads none.
pub uninterp spec fn uuid_value(text: Seq<char>) -> Option<u128>;

/// Calls `Uuid::parse_str` and gives the value by `Uuid::as_u128`. Claimed:
/// the call is a function of the text, named [`uuid_value`]; and, as the
/// crate documents that it reads every notation it writes, the hyphenated
/// lower-case text of an identifier is read back as that identifier.
#[verifier::external_body]
fn parse_uuid(text: &str) -> (r: Option<u128>)
    ensures
        r == uuid_value(text@),
        forall|id: u128| text@ == #[trigger] hyphenated(id) ==> r == Some(id),
{
    match uuid::Uuid::parse_str(text) {
        Ok(u) => Some(u.as_u128()),
        Err(_) => None,
    }
}

fn hex_digit_text(d: u128) -> (text: &'static str)
    requires
        d < 16,
    ensures
        text@ == seq![hex_char(d as nat)],
{
    proof {
        reveal_strlit("0");
        reveal_strlit("1");
        reveal_strlit("2");
        reveal_strlit("3");
        reveal_strlit("4");
        reveal_strlit("5");
        reveal_strlit("6");
        reveal_strlit("7");
        reveal_strlit("8");
        reveal_strlit("9");
        reveal_strlit("a");
        reveal_strlit("b");
        reveal_strlit("c");
        reveal_strlit("d");
        reveal_strlit("e");
        reveal_strlit("f");
    }
    let text = if d == 0 {
        "0"
    } else if d == 1 {
        "1"
    } else if d == 2 {
        "2"
    } else if d == 3 {
        "3"
    } else if d == 4 {
        "4"
    } else if d == 5 {
        "5"
    } else if d == 6 {
        "6"
    } else if d == 7 {
        "7"
    } else if d == 8 {
        "8"
    } else if d == 9 {
        "9"
    } else if d == 10 {
        "a"
    } else if d == 11 {
        "b"
    } else if d == 12 {
        "c"
    } else if d == 13 {
        "d"
    } else if d == 14 {
        "e"
    } else {
        "f"
    };
    assert(text@ =~= seq![hex_char(d as nat)]);
    text
}

fn hex_text(value: u128, digits: u8) -> (text: String)
    ensures
        text@ == hex(value as nat, digits as nat),
    decreases digits,
{
    if digits == 0 {
        let text = String::new();
        assert(text@ =~= hex(value as nat, 0));
        text
    } else {
        let mut text = hex_text(value / 16, digits - 1);
        text.append(hex_digit_text(value % 16));
        assert(text@ =~= hex(value as nat, digits as nat));
        text
    }
}

impl UserId {
    /// Writes the identifier as hyphenated lower-case hexadecimal text.
    pub fn to_text(&self) -> (text: String)
        ensures
            text@ == hyphenated(self.0),
    {
        let v = self.0;
        let mut text = hex_text(v / 0x1_0000_0000_0000_0000_0000_0000, 8);
        text.append("-");
        text.append(hex_text(v / 0x1_0000_0000_0000_0000_0000, 4).as_str());
        text.append("-");
        text.append(hex_text(v / 0x1_0000_0000_0000_0000, 4).as_str());
        text.append("-");
        text.append(hex_text(v / 0x1_0000_0000_0000, 4).as_str());
        text.append("-");
        text.append(hex_text(v, 12).as_str());
        proof {
            reveal_strlit("-");
            assert("-"@ =~= seq!['-']);
        }
        text
    }

    /// Reads an identifier from text, in any notation that the `uuid` crate
    /// reads. The text written by [`UserId::to_text`] is always read back as
    /// the identifier it was written from.
    pub fn parse(text: &str) -> (id: Option<UserId>)
        ensures
            match id {
                Some(found) => uuid_value(text@) == Some(found.0),
                None => uuid_value(text@) is None,
            },
            forall|v: u128| text@ == #[trigger] hyphenated(v) ==> id == Some(UserId(v)),
    {
        match parse_uuid(text) {
            Some(v) => Some(UserId(v)),
            None => None,
        }
    }
}

} // verus!
