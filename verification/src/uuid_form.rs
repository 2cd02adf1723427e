//! The textual forms of a UUID that the company id may take, and its
//! canonical lowercase hyphenated form.
use vstd::prelude::*;

verus! {

/// A hexadecimal digit, in either case.
pub open spec fn is_hex_digit(c: char) -> bool {
    ||| ('0' <= c && c <= '9')
    ||| ('a' <= c && c <= 'f')
    ||| ('A' <= c && c <= 'F')
}

/// A hexadecimal digit in lowercase.
pub open spec fn is_lower_hex_digit(c: char) -> bool {
    ('0' <= c && c <= '9') || ('a' <= c && c <= 'f')
}

/// The lowercase form of the hexadecimal digit `c`.
pub open spec fn to_lower_hex(c: char) -> char {
    if c == 'A' {
        'a'
    } else if c == 'B' {
        'b'
    } else if c == 'C' {
        'c'
    } else if c == 'D' {
        'd'
    } else if c == 'E' {
        'e'
    } else if c == 'F' {
        'f'
    } else {
        c
    }
}

/// The positions of the hyphens in the hyphenated form.
pub open spec fn is_hyphen_position(i: int) -> bool {
    i == 8 || i == 13 || i == 18 || i == 23
}

/// The position in the hyphenated form of the `k`-th of the 32 digits.
pub open spec fn digit_position(k: int) -> int {
    if k < 8 {
        k
    } else if k < 12 {
        k + 1
    } else if k < 16 {
        k + 2
    } else if k < 20 {
        k + 3
    } else {
        k + 4
    }
}

/// The index among the 32 digits of the digit at position `i` of the
/// hyphenated form.
pub open spec fn digit_index(i: int) -> int {
    if i < 8 {
        i
    } else if i < 13 {
        i - 1
    } else if i < 18 {
        i - 2
    } else if i < 23 {
        i - 3
    } else {
        i - 4
    }
}

/// The 32 digits, in lowercase, of the simple form `s`: 32 hexadecimal
/// digits.
pub open spec fn simple_digits(s: Seq<char>) -> Option<Seq<char>> {
    if s.len() == 32 && forall|i: int| 0 <= i < 32 ==> is_hex_digit(#[trigger] s[i]) {
        Some(Seq::new(32, |k: int| to_lower_hex(s[k])))
    } else {
        None
    }
}

/// The 32 digits, in lowercase, of the hyphenated form `s`: 36 characters,
/// `'-'` at positions 8, 13, 18 and 23, hexadecimal digits elsewhere.
pub open spec fn hyphenated_digits(s: Seq<char>) -> Option<Seq<char>> {
    if s.len() == 36 && forall|i: int|
        0 <= i < 36 ==> if is_hyphen_position(i) {
            #[trigger] s[i] == '-'
        } else {
            is_hex_digit(s[i])
        } {
        Some(Seq::new(32, |k: int| to_lower_hex(s[digit_position(k)])))
    } else {
        None
    }
}

/// `s` starts with `urn:uuid:`, its letters in either case.
pub open spec fn has_urn_prefix(s: Seq<char>) -> bool {
    &&& s.len() >= 9
    &&& (s[0] == 'u' || s[0] == 'U')
    &&& (s[1] == 'r' || s[1] == 'R')
    &&& (s[2] == 'n' || s[2] == 'N')
    &&& s[3] == ':'
    &&& (s[4] == 'u' || s[4] == 'U')
    &&& (s[5] == 'u' || s[5] == 'U')
    &&& (s[6] == 'i' || s[6] == 'I')
    &&& (s[7] == 'd' || s[7] == 'D')
    &&& s[8] == ':'
}

/// The 32 digits of the UUID that `uuid::Uuid::parse_str` reads from `s`:
/// the simple form, the hyphenated form, the hyphenated form in braces, or
/// the hyphenated form after `urn:uuid:`; `None` for anything else.
pub open spec fn uuid_digits(s: Seq<char>) -> Option<Seq<char>> {
    if s.len() == 32 {
        simple_digits(s)
    } else if s.len() == 36 {
        hyphenated_digits(s)
    } else if s.len() == 38 && s[0] == '{' && s[37] == '}' {
        hyphenated_digits(s.subrange(1, 37))
    } else if s.len() == 45 && has_urn_prefix(s) {
        hyphenated_digits(s.subrange(9, 45))
    } else {
        None
    }
}

/// The hyphenated form of the 32 digits `d`.
pub open spec fn hyphenate(d: Seq<char>) -> Seq<char> {
    Seq::new(36, |i: int| if is_hyphen_position(i) { '-' } else { d[digit_index(i)] })
}

/// The lowercase hyphenated form of the UUID written in `s`, as
/// `uuid::Uuid::parse_str` followed by `hyphenated().to_string()` gives it.
pub open spec fn uuid_hyphenated_form(s: Seq<char>) -> Option<Seq<char>> {
    match uuid_digits(s) {
        Some(d) => Some(hyphenate(d)),
        None => None,
    }
}

/// The canonical form of a UUID: 36 characters, lowercase hexadecimal digits
/// in groups of 8, 4, 4, 4 and 12, separated by `'-'`.
pub open spec fn is_hyphenated_uuid(s: Seq<char>) -> bool {
    &&& s.len() == 36
    &&& forall|i: int|
        0 <= i < 36 ==> if is_hyphen_position(i) {
            #[trigger] s[i] == '-'
        } else {
            is_lower_hex_digit(s[i])
        }
}

/// The digits that `uuid_digits` reads are 32 lowercase hexadecimal digits.
pub proof fn lemma_uuid_digits_are_lowercase(s: Seq<char>)
    requires
        uuid_digits(s) is Some,
    ensures
        uuid_digits(s)->0.len() == 32,
        forall|k: int| 0 <= k < 32 ==> is_lower_hex_digit(#[trigger] uuid_digits(s)->0[k]),
{
    let d = uuid_digits(s)->0;
    if s.len() == 32 {
        assert forall|k: int| 0 <= k < 32 implies is_lower_hex_digit(#[trigger] d[k]) by {
            assert(is_hex_digit(s[k]));
        }
    } else {
        let h = if s.len() == 36 {
            s
        } else if s.len() == 38 {
            s.subrange(1, 37)
        } else {
            s.subrange(9, 45)
        };
        assert(hyphenated_digits(h) is Some);
        assert forall|k: int| 0 <= k < 32 implies is_lower_hex_digit(#[trigger] d[k]) by {
            let i = digit_position(k);
            assert(!is_hyphen_position(i));
            assert(is_hex_digit(h[i]));
        }
    }
}

/// The hyphenated form of 32 lowercase digits is canonical, and reads back
/// as itself.
pub proof fn lemma_hyphenate_reads_back(d: Seq<char>)
    requires
        d.len() == 32,
        forall|k: int| 0 <= k < 32 ==> is_lower_hex_digit(#[trigger] d[k]),
    ensures
        is_hyphenated_uuid(hyphenate(d)),
        uuid_hyphenated_form(hyphenate(d)) == Some(hyphenate(d)),
{
    let h = hyphenate(d);
    assert forall|i: int| 0 <= i < 36 implies if is_hyphen_position(i) {
        #[trigger] h[i] == '-'
    } else {
        is_lower_hex_digit(h[i])
    } by {
        if !is_hyphen_position(i) {
            assert(is_lower_hex_digit(d[digit_index(i)]));
        }
    }
    assert forall|i: int| 0 <= i < 36 implies if is_hyphen_position(i) {
        #[trigger] h[i] == '-'
    } else {
        is_hex_digit(h[i])
    } by {
        if !is_hyphen_position(i) {
            assert(is_lower_hex_digit(d[digit_index(i)]));
        }
    }
    let e = Seq::new(32, |k: int| to_lower_hex(h[digit_position(k)]));
    assert(hyphenated_digits(h) == Some(e));
    assert forall|k: int| 0 <= k < 32 implies #[trigger] e[k] == d[k] by {
        assert(digit_index(digit_position(k)) == k);
        assert(is_lower_hex_digit(d[k]));
    }
    assert(e =~= d);
    assert(hyphenate(e) =~= h);
}

} // verus!
