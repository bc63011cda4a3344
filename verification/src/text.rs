//! Small text helpers shared by the other modules.

use vstd::prelude::*;

verus! {

/// Whether two string slices hold the same characters.
pub fn same_text(a: &str, b: &str) -> (same: bool)
    ensures
        same == (a@ == b@),
{
    a.to_owned() == b.to_owned()
}

/// The character of a decimal digit.
pub open spec fn digit_char(d: nat) -> char {
    if d == 0 {
        '0'
    } else if d == 1 {
        '1'
    } else if d == 2 {
        '2'
    } else if d == 3 {
        '3'
    } else if d == 4 {
        '4'
    } else if d == 5 {
        '5'
    } else if d == 6 {
        '6'
    } else if d == 7 {
        '7'
    } else if d == 8 {
        '8'
    } else {
        '9'
    }
}

/// Decimal notation of a natural number, without leading zeros.
pub open spec fn decimal(n: nat) -> Seq<char>
    decreases n,
{
    if n < 10 {
        seq![digit_char(n)]
    } else {
        decimal(n / 10).push(digit_char(n % 10))
    }
}

fn digit_text(d: u16) -> (text: &'static str)
    requires
        d < 10,
    ensures
        text@ == seq![digit_char(d as nat)],
{
    proof {
        reveal_strlit("0");
        reveal_strlit("1");
        reveal_strlit("2");
        reveal_strlit("3");
        reveal_strlit("4");
        reveal_strlit("5");
        reveal_strlit("6");
        reveal_strlit("7");
        reveal_strlit("8");
        reveal_strlit("9");
    }
    let text = if d == 0 {
        "0"
    } else if d == 1 {
        "1"
    } else if d == 2 {
        "2"
    } else if d == 3 {
        "3"
    } else if d == 4 {
        "4"
    } else if d == 5 {
        "5"
    } else if d == 6 {
        "6"
    } else if d == 7 {
        "7"
    } else if d == 8 {
        "8"
    } else {
        "9"
    };
    assert(text@ =~= seq![digit_char(d as nat)]);
    text
}

/// Writes a number in decimal notation.
pub fn decimal_text(n: u16) -> (text: String)
    ensures
        text@ == decimal(n as nat),
    decreases n,
{
    if n < 10 {
        digit_text(n).to_owned()
    } else {
        let mut text = decimal_text(n / 10);
        let last = digit_text(n % 10);
        text.append(last);
        assert(text@ =~= decimal(n as nat));
        text
    }
}


/// The value of a decimal digit.
pub open spec fn digit_value(c: char) -> Option<nat> {
    if '0' <= c && c <= '9' {
        Some((c as u32 - '0' as u32) as nat)
    } else {
        None
    }
}

/// The number that a run of decimal digits writes; `None` where a character
/// is no digit. The empty run writes zero.
pub open spec fn number_of(digits: Seq<char>) -> Option<nat>
    decreases digits.len(),
{
    if digits.len() == 0 {
        Some(0)
    } else {
        match (number_of(digits.drop_last()), digit_value(digits.last())) {
            (Some(v), Some(d)) => Some(v * 10 + d),
            _ => None,
        }
    }
}

/// The text after its sign, if it begins with the given sign.
pub open spec fn after_sign(text: Seq<char>, sign: char) -> Seq<char> {
    if text.len() > 0 && text[0] == sign {
        text.subrange(1, text.len() as int)
    } else {
        text
    }
}

/// The natural number that a text writes: an optional plus sign, then at
/// least one decimal digit and nothing else.
pub open spec fn unsigned_of(text: Seq<char>) -> Option<nat> {
    let body = after_sign(text, '+');
    if body.len() == 0 {
        None
    } else {
        number_of(body)
    }
}

/// The integer that a text writes: an optional sign, then at least one
/// decimal digit and nothing else.
pub open spec fn signed_of(text: Seq<char>) -> Option<int> {
    if text.len() > 0 && text[0] == '-' {
        let body = text.subrange(1, text.len() as int);
        if body.len() == 0 {
            None
        } else {
            match number_of(body) {
                Some(v) => Some(-(v as int)),
                None => None,
            }
        }
    } else {
        match unsigned_of(text) {
            Some(v) => Some(v as int),
            None => None,
        }
    }
}

/// White space as Unicode defines it.
pub open spec fn is_space(c: char) -> bool {
    let code = c as u32;
    (0x09 <= code && code <= 0x0d) || code == 0x20 || code == 0x85 || code == 0xa0 || code
        == 0x1680 || (0x2000 <= code && code <= 0x200a) || code == 0x2028 || code == 0x2029
        || code == 0x202f || code == 0x205f || code == 0x3000
}

/// The text without the white space it begins with.
pub open spec fn trim_front(s: Seq<char>) -> Seq<char>
    decreases s.len(),
{
    if s.len() > 0 && is_space(s[0]) {
        trim_front(s.subrange(1, s.len() as int))
    } else {
        s
    }
}

/// The text without the white space it ends with.
pub open spec fn trim_back(s: Seq<char>) -> Seq<char>
    decreases s.len(),
{
    if s.len() > 0 && is_space(s.last()) {
        trim_back(s.drop_last())
    } else {
        s
    }
}

/// The text without the white space around it.
pub open spec fn trimmed(s: Seq<char>) -> Seq<char> {
    trim_back(trim_front(s))
}

/// Position of the first comma of a text, or its length if it has none.
pub open spec fn first_comma(s: Seq<char>) -> int
    decreases s.len(),
{
    if s.len() == 0 || s[0] == ',' {
        0
    } else {
        1 + first_comma(s.subrange(1, s.len() as int))
    }
}

/// The pieces of a text between its commas, each without the white space
/// around it. A text without a comma is one piece.
pub open spec fn comma_list(s: Seq<char>) -> Seq<Seq<char>>
    decreases s.len(),
{
    let i = first_comma(s);
    if 0 <= i < s.len() {
        seq![trimmed(s.subrange(0, i))] + comma_list(s.subrange(i + 1, s.len() as int))
    } else {
        seq![trimmed(s)]
    }
}

/// The texts that a vector of strings holds.
pub open spec fn texts(v: Seq<String>) -> Seq<Seq<char>> {
    Seq::new(v.len(), |i: int| v[i]@)
}

/// A number is read back from its own decimal notation.
pub proof fn lemma_decimal_round_trip(n: nat)
    ensures
        number_of(decimal(n)) == Some(n),
        unsigned_of(decimal(n)) == Some(n),
        signed_of(decimal(n)) == Some(n as int),
    decreases n,
{
    assert(digit_value(digit_char(n % 10)) == Some(n % 10));
    if n < 10 {
        assert(decimal(n).drop_last() =~= Seq::<char>::empty());
        assert(number_of(Seq::<char>::empty()) == Some(0nat));
    } else {
        lemma_decimal_round_trip(n / 10);
        assert(decimal(n).drop_last() =~= decimal(n / 10));
    }
    lemma_decimal_starts_with_digit(n);
}

proof fn lemma_decimal_starts_with_digit(n: nat)
    ensures
        decimal(n).len() > 0,
        digit_value(decimal(n)[0]) is Some,
    decreases n,
{
    assert(digit_value(digit_char(n % 10)) == Some(n % 10));
    if n >= 10 {
        lemma_decimal_starts_with_digit(n / 10);
    }
}

proof fn lemma_number_needs_digits(s: Seq<char>, j: int)
    requires
        0 <= j < s.len(),
        digit_value(s[j]) is None,
    ensures
        number_of(s) is None,
    decreases s.len(),
{
    if j < s.len() - 1 {
        lemma_number_needs_digits(s.drop_last(), j);
    }
}

proof fn lemma_first_comma(s: Seq<char>, i: int)
    requires
        0 <= i <= s.len(),
        forall|j: int| 0 <= j < i ==> s[j] != ',',
        i == s.len() || s[i] == ',',
    ensures
        first_comma(s) == i,
    decreases i,
{
    if i > 0 {
        let rest = s.subrange(1, s.len() as int);
        assert forall|j: int| 0 <= j < i - 1 implies rest[j] != ',' by {
            assert(rest[j] == s[j + 1]);
        }
        lemma_first_comma(rest, i - 1);
    }
}

proof fn lemma_trim_front_step(s: Seq<char>, start: int, end: int)
    requires
        0 <= start < end <= s.len(),
        is_space(s[start]),
    ensures
        trim_front(s.subrange(start, end)) == trim_front(s.subrange(start + 1, end)),
{
    let piece = s.subrange(start, end);
    assert(piece[0] == s[start]);
    assert(piece.subrange(1, piece.len() as int) =~= s.subrange(start + 1, end));
}

proof fn lemma_trim_back_step(s: Seq<char>, start: int, end: int)
    requires
        0 <= start < end <= s.len(),
        is_space(s[end - 1]),
    ensures
        trim_back(s.subrange(start, end)) == trim_back(s.subrange(start, end - 1)),
{
    let piece = s.subrange(start, end);
    assert(piece.last() == s[end - 1]);
    assert(piece.drop_last() =~= s.subrange(start, end - 1));
}

/// Whether a character is white space as Unicode defines it.
pub fn is_space_char(c: char) -> (space: bool)
    ensures
        space == is_space(c),
{
    let code = c as u32;
    (0x09 <= code && code <= 0x0d) || code == 0x20 || code == 0x85 || code == 0xa0 || code
        == 0x1680 || (0x2000 <= code && code <= 0x200a) || code == 0x2028 || code == 0x2029
        || code == 0x202f || code == 0x205f || code == 0x3000
}

/// The piece of a text between two positions, without the white space
/// around it.
fn trimmed_piece(text: &str, from: usize, to: usize) -> (piece: String)
    requires
        from <= to <= text@.len(),
    ensures
        piece@ == trimmed(text@.subrange(from as int, to as int)),
{
    let mut start = from;
    while start < to && is_space_char(text.get_char(start))
        invariant
            from <= start <= to <= text@.len(),
            trim_front(text@.subrange(from as int, to as int)) == trim_front(
                text@.subrange(start as int, to as int),
            ),
        decreases to - start,
    {
        proof {
            lemma_trim_front_step(text@, start as int, to as int);
        }
        start += 1;
    }
    proof {
        let rest = text@.subrange(start as int, to as int);
        assert(rest.len() > 0 ==> rest[0] == text@[start as int]);
        assert(trim_front(rest) == rest);
    }
    let mut end = to;
    while start < end && is_space_char(text.get_char(end - 1))
        invariant
            start <= end <= to <= text@.len(),
            trim_back(text@.subrange(start as int, to as int)) == trim_back(
                text@.subrange(start as int, end as int),
            ),
        decreases end - start,
    {
        proof {
            lemma_trim_back_step(text@, start as int, end as int);
        }
        end -= 1;
    }
    proof {
        let rest = text@.subrange(start as int, end as int);
        assert(rest.len() > 0 ==> rest.last() == text@[end - 1]);
        assert(trim_back(rest) == rest);
    }
    text.substring_char(start, end).to_owned()
}

/// The text without the white space around it.
pub fn trim_text(text: &str) -> (r: String)
    ensures
        r@ == trimmed(text@),
{
    let n = text.unicode_len();
    assert(text@.subrange(0, n as int) =~= text@);
    trimmed_piece(text, 0, n)
}

/// Splits a text at its commas and trims each piece.
pub fn split_comma_list(text: &str) -> (pieces: Vec<String>)
    ensures
        texts(pieces@) == comma_list(text@),
{
    let n = text.unicode_len();
    let mut pieces: Vec<String> = Vec::new();
    let mut start: usize = 0;
    let mut i: usize = 0;
    assert(text@.subrange(0, n as int) =~= text@);
    assert(texts(pieces@) =~= Seq::<Seq<char>>::empty());
    while i < n
        invariant
            n == text@.len(),
            start <= i <= n,
            forall|j: int| start <= j < i ==> text@[j] != ',',
            comma_list(text@) == texts(pieces@) + comma_list(
                text@.subrange(start as int, n as int),
            ),
        decreases n - i,
    {
        if text.get_char(i) == ',' {
            let piece = trimmed_piece(text, start, i);
            proof {
                let rest = text@.subrange(start as int, n as int);
                assert forall|j: int| 0 <= j < i - start implies rest[j] != ',' by {
                    assert(rest[j] == text@[start + j]);
                }
                assert(rest[i - start] == ',');
                lemma_first_comma(rest, i - start);
                assert(rest.subrange(0, i - start) =~= text@.subrange(start as int, i as int));
                assert(rest.subrange(i - start + 1, rest.len() as int) =~= text@.subrange(
                    i + 1,
                    n as int,
                ));
                assert(texts(pieces@.push(piece)) =~= texts(pieces@) + seq![piece@]);
            }
            pieces.push(piece);
            start = i + 1;
        }
        i += 1;
    }
    let piece = trimmed_piece(text, start, n);
    proof {
        let rest = text@.subrange(start as int, n as int);
        assert forall|j: int| 0 <= j < n - start implies rest[j] != ',' by {
            assert(rest[j] == text@[start + j]);
        }
        lemma_first_comma(rest, n - start);
        assert(texts(pieces@.push(piece)) =~= texts(pieces@) + seq![piece@]);
    }
    pieces.push(piece);
    pieces
}

/// Reads a run of decimal digits from a position to the end of a text, up to
/// a bound: the number the digits write, or the bound plus one where they
/// write more.
fn read_digits(text: &str, from: usize, bound: u64) -> (r: Option<u64>)
    requires
        from <= text@.len(),
        bound < u64::MAX,
    ensures
        match number_of(text@.subrange(from as int, text@.len() as int)) {
            Some(v) => r == Some(if v <= bound {
                v as u64
            } else {
                (bound + 1) as u64
            }),
            None => r is None,
        },
{
    let n = text.unicode_len();
    let mut acc: u64 = 0;
    let mut i = from;
    assert(text@.subrange(from as int, from as int) =~= Seq::<char>::empty());
    while i < n
        invariant
            n == text@.len(),
            from <= i <= n,
            bound < u64::MAX,
            acc <= bound + 1,
            number_of(text@.subrange(from as int, i as int)) matches Some(v) && acc == (if v
                <= bound {
                v
            } else {
                (bound + 1) as nat
            }),
        decreases n - i,
    {
        let c = text.get_char(i);
        let ghost body = text@.subrange(from as int, n as int);
        let ghost next = text@.subrange(from as int, i + 1);
        proof {
            assert(next.drop_last() =~= text@.subrange(from as int, i as int));
            assert(next.last() == c);
            assert(body[i - from] == c);
        }
        if !('0' <= c && c <= '9') {
            proof {
                lemma_number_needs_digits(body, i - from);
            }
            return None;
        }
        let d = (c as u32 - '0' as u32) as u128;
        let wide: u128 = acc as u128 * 10 + d;
        acc = if wide <= bound as u128 {
            wide as u64
        } else {
            bound + 1
        };
        i += 1;
    }
    assert(text@.subrange(from as int, n as int) =~= text@.subrange(from as int, i as int));
    Some(acc)
}

/// Reads a 16-bit number: an optional plus sign, then decimal digits that
/// write a number of at most 65535.
pub fn parse_u16(text: &str) -> (r: Option<u16>)
    ensures
        match unsigned_of(text@) {
            Some(v) => if v <= 65535 {
                r == Some(v as u16)
            } else {
                r is None
            },
            None => r is None,
        },
{
    let n = text.unicode_len();
    let from: usize = if n > 0 && text.get_char(0) == '+' {
        1
    } else {
        0
    };
    if from == n {
        return None;
    }
    assert(from == 0 ==> text@.subrange(0, n as int) =~= text@);
    match read_digits(text, from, 65535) {
        Some(v) => if v <= 65535 {
            Some(v as u16)
        } else {
            None
        },
        None => None,
    }
}

/// Reads a 64-bit signed number: an optional sign, then decimal digits that
/// write a number within the range.
pub fn parse_i64(text: &str) -> (r: Option<i64>)
    ensures
        match signed_of(text@) {
            Some(v) => if i64::MIN <= v <= i64::MAX {
                r == Some(v as i64)
            } else {
                r is None
            },
            None => r is None,
        },
{
    let n = text.unicode_len();
    if n > 0 && text.get_char(0) == '-' {
        if n == 1 {
            return None;
        }
        match read_digits(text, 1, 0x8000_0000_0000_0000) {
            Some(v) => if v == 0x8000_0000_0000_0000 {
                Some(i64::MIN)
            } else if v < 0x8000_0000_0000_0000 {
                Some(-(v as i64))
            } else {
                None
            },
            None => None,
        }
    } else {
        let from: usize = if n > 0 && text.get_char(0) == '+' {
            1
        } else {
            0
        };
        if from == n {
            return None;
        }
        assert(from == 0 ==> text@.subrange(0, n as int) =~= text@);
        match read_digits(text, from, 0x7fff_ffff_ffff_ffff) {
            Some(v) => if v <= 0x7fff_ffff_ffff_ffff {
                Some(v as i64)
            } else {
                None
            },
            None => None,
        }
    }
}

} // verus!
