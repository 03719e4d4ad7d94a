//! Characters and strings: what std computes on them, and the helpers the
//! parsers of this crate are built from.

use vstd::prelude::*;
use vstd::string::StrSliceExecFns;

verus! {

/// Unicode `White_Space`, the property that `char::is_whitespace` and `str::trim` test.
pub open spec fn is_white_space(c: char) -> bool {
    let u = c as u32;
    ||| 0x9 <= u <= 0xd
    ||| u == 0x20
    ||| u == 0x85
    ||| u == 0xa0
    ||| u == 0x1680
    ||| 0x2000 <= u <= 0x200a
    ||| u == 0x2028
    ||| u == 0x2029
    ||| u == 0x202f
    ||| u == 0x205f
    ||| u == 0x3000
}

/// `s` without its leading white space.
pub open spec fn trim_start_spec(s: Seq<char>) -> Seq<char>
    decreases s.len(),
{
    if s.len() > 0 && is_white_space(s[0]) {
        trim_start_spec(s.drop_first())
    } else {
        s
    }
}

/// `s` without its trailing white space.
pub open spec fn trim_end_spec(s: Seq<char>) -> Seq<char>
    decreases s.len(),
{
    if s.len() > 0 && is_white_space(s.last()) {
        trim_end_spec(s.drop_last())
    } else {
        s
    }
}

/// `s` without leading and trailing white space.
pub open spec fn trim_spec(s: Seq<char>) -> Seq<char> {
    trim_end_spec(trim_start_spec(s))
}

pub open spec fn is_ascii_upper(c: char) -> bool {
    'A' <= c <= 'Z'
}

pub open spec fn is_ascii_char(c: char) -> bool {
    (c as u32) < 128
}

/// ASCII lower case of one character: `A`..`Z` become `a`..`z`, all else stays.
pub open spec fn ascii_lower(c: char) -> char {
    if is_ascii_upper(c) {
        ((c as u32) + 32) as char
    } else {
        c
    }
}

pub open spec fn ascii_lower_seq(s: Seq<char>) -> Seq<char> {
    s.map_values(|c: char| ascii_lower(c))
}

/// The full Unicode lower case of a string, as `str::to_lowercase` computes it.
pub uninterp spec fn lowercase(s: Seq<char>) -> Seq<char>;

/// Whether a character has the Unicode `Uppercase` property (`char::is_uppercase`).
pub uninterp spec fn is_uppercase(c: char) -> bool;

pub open spec fn is_digit(c: char) -> bool {
    '0' <= c <= '9'
}

pub open spec fn all_digits(s: Seq<char>) -> bool {
    forall|i: int| 0 <= i < s.len() ==> is_digit(#[trigger] s[i])
}

pub open spec fn digit_value(c: char) -> int {
    (c as int) - ('0' as int)
}

/// The number written by a string of decimal digits.
pub open spec fn digits_value(s: Seq<char>) -> int
    decreases s.len(),
{
    if s.len() == 0 {
        0
    } else {
        digits_value(s.drop_last()) * 10 + digit_value(s.last())
    }
}

/// The number that a decimal literal denotes when it is read as std's integer
/// `FromStr` reads it: an optional `+` (or, for signed types, `-`) and at least
/// one digit, nothing else. `None` when the text is no such literal.
pub open spec fn decimal_literal(s: Seq<char>, signed: bool) -> Option<int> {
    let neg = signed && s.len() > 0 && s[0] == '-';
    let body = if s.len() > 0 && (s[0] == '+' || neg) {
        s.drop_first()
    } else {
        s
    };
    if body.len() > 0 && all_digits(body) {
        Some(if neg { -digits_value(body) } else { digits_value(body) })
    } else {
        None
    }
}

/// The value std's integer `FromStr` gives for `s` in a type ranging over `min..=max`.
pub open spec fn parse_int_spec(s: Seq<char>, signed: bool, min: int, max: int) -> Option<int> {
    match decimal_literal(s, signed) {
        Some(v) => if min <= v <= max { Some(v) } else { None },
        None => None,
    }
}

/// `s` is a well-formed literal whose value lies above `max`.
pub open spec fn literal_above(s: Seq<char>, signed: bool, max: int) -> bool {
    decimal_literal(s, signed) matches Some(v) && v > max
}

/// `s` is a well-formed literal whose value lies below `min`.
pub open spec fn literal_below(s: Seq<char>, signed: bool, min: int) -> bool {
    decimal_literal(s, signed) matches Some(v) && v < min
}

pub open spec fn digit_char(d: int) -> char {
    (d + 48) as char
}

/// The decimal digits of a natural number, without leading zeros.
pub open spec fn nat_decimal(n: nat) -> Seq<char>
    decreases n,
{
    if n < 10 {
        seq![digit_char(n as int)]
    } else {
        nat_decimal(n / 10).push(digit_char((n % 10) as int))
    }
}

/// How `Display` writes an integer: a `-` for negative numbers, then the digits.
pub open spec fn int_decimal(x: int) -> Seq<char> {
    if x < 0 {
        seq!['-'] + nat_decimal((-x) as nat)
    } else {
        nat_decimal(x as nat)
    }
}

/// Why std's integer `FromStr` refused a text (`std::num::IntErrorKind`).
#[derive(Debug, Clone, Copy, PartialEq, Eq)]
pub enum IntErrorKind {
    Empty,
    InvalidDigit,
    PosOverflow,
    NegOverflow,
    Other,
}

impl IntErrorKind {
    /// The text with which std's `ParseIntError` describes itself.
    pub fn message(&self) -> (m: &'static str)
        ensures
            *self == IntErrorKind::Empty ==> m@ == "cannot parse integer from empty string"@,
            *self == IntErrorKind::InvalidDigit ==> m@ == "invalid digit found in string"@,
            *self == IntErrorKind::PosOverflow ==> m@ == "number too large to fit in target type"@,
            *self == IntErrorKind::NegOverflow ==> m@ == "number too small to fit in target type"@,
            *self == IntErrorKind::Other ==> m@ == "invalid integer"@,
    {
        match self {
            IntErrorKind::Empty => "cannot parse integer from empty string",
            IntErrorKind::InvalidDigit => "invalid digit found in string",
            IntErrorKind::PosOverflow => "number too large to fit in target type",
            IntErrorKind::NegOverflow => "number too small to fit in target type",
            IntErrorKind::Other => "invalid integer",
        }
    }
}

/// `str::trim`: the text without leading and trailing Unicode white space.
#[verifier::external_body]
pub(crate) fn trim(s: &str) -> (r: &str)
    ensures
        r@ == trim_spec(s@),
{
    s.trim()
}

/// `str::to_lowercase`. Its result is named, not stated; of an all-ASCII text
/// it is the ASCII lower case. Of a single character it is a single character,
/// but for `İ` (U+0130), which lower-cases to `i` followed by U+0307: the one
/// character whose lower case in Unicode's `SpecialCasing` is more than one
/// character, as `char::to_lowercase`'s documentation shows.
#[verifier::external_body]
pub(crate) fn to_lowercase(s: &str) -> (r: String)
    ensures
        r@ == lowercase(s@),
        (forall|i: int| 0 <= i < s@.len() ==> is_ascii_char(#[trigger] s@[i])) ==> r@
            == ascii_lower_seq(s@),
        s@.len() == 1 ==> (r@.len() == 1 || (s@[0] == '\u{130}' && r@ == seq!['i', '\u{307}'])),
{
    s.to_lowercase()
}

/// `char::is_uppercase`. Named, not stated; among ASCII characters exactly
/// `A`..`Z` are upper case.
#[verifier::external_body]
pub(crate) fn char_is_uppercase(c: char) -> (r: bool)
    ensures
        r == is_uppercase(c),
        is_ascii_char(c) ==> (r == is_ascii_upper(c)),
{
    c.is_uppercase()
}

/// The ASCII lower case of a character, as `char::to_ascii_lowercase` gives it.
pub fn char_to_ascii_lowercase(c: char) -> (r: char)
    ensures
        r == ascii_lower(c),
{
    if 'A' <= c && c <= 'Z' {
        let u: u32 = c as u32;
        let b: u8 = (u + 32) as u8;
        b as char
    } else {
        c
    }
}

/// Whether two texts are equal once both are put in ASCII lower case, as
/// `str::eq_ignore_ascii_case` tells.
pub fn eq_ignore_ascii_case(a: &str, b: &str) -> (r: bool)
    ensures
        r == (ascii_lower_seq(a@) == ascii_lower_seq(b@)),
{
    let n = a.unicode_len();
    if n != b.unicode_len() {
        assert(ascii_lower_seq(a@).len() != ascii_lower_seq(b@).len());
        return false;
    }
    let mut i: usize = 0;
    while i < n
        invariant
            n == a@.len(),
            n == b@.len(),
            i <= n,
            forall|j: int| 0 <= j < i ==> ascii_lower(a@[j]) == ascii_lower(b@[j]),
        decreases n - i,
    {
        if char_to_ascii_lowercase(a.get_char(i)) != char_to_ascii_lowercase(b.get_char(i)) {
            assert(ascii_lower_seq(a@)[i as int] != ascii_lower_seq(b@)[i as int]);
            return false;
        }
        i = i + 1;
    }
    assert(ascii_lower_seq(a@) =~= ascii_lower_seq(b@));
    true
}

/// `<u8 as FromStr>::from_str`, seen through `Result::is_ok` and the value.
#[verifier::external_body]
pub(crate) fn parse_u8(s: &str) -> (r: Option<u8>)
    ensures
        match parse_int_spec(s@, false, 0, 255) {
            Some(v) => r == Some(v as u8),
            None => r is None,
        },
{
    s.parse::<u8>().ok()
}

/// `<i32 as FromStr>::from_str`, with the kind of its error. A text that is no
/// literal is refused as `InvalidDigit` where it is short enough (at most ten
/// characters, so at most nine digits) that no number in it can be out of
/// range: std gives `Empty` only to the empty text and the overflow kinds only
/// to a number too large or too small. Which kind a longer malformed text gets
/// depends on where std meets an overflow, and is left unsaid.
#[verifier::external_body]
pub(crate) fn parse_i32(s: &str) -> (r: Result<i32, IntErrorKind>)
    ensures
        r is Ok <==> parse_int_spec(s@, true, i32::MIN as int, i32::MAX as int) is Some,
        r matches Ok(v) ==> v == parse_int_spec(s@, true, i32::MIN as int, i32::MAX as int)->0,
        (r matches Err(k) && k == IntErrorKind::Empty) <==> s@.len() == 0,
        r matches Err(k) ==> (literal_above(s@, true, i32::MAX as int) ==> k == IntErrorKind::PosOverflow),
        r matches Err(k) ==> (literal_below(s@, true, i32::MIN as int) ==> k == IntErrorKind::NegOverflow),
        r matches Err(k) ==> (0 < s@.len() <= 10 && decimal_literal(s@, true) is None ==> k
            == IntErrorKind::InvalidDigit),
{
    match s.parse::<i32>() {
        Ok(v) => Ok(v),
        Err(e) => Err(match e.kind() {
            std::num::IntErrorKind::Empty => IntErrorKind::Empty,
            std::num::IntErrorKind::InvalidDigit => IntErrorKind::InvalidDigit,
            std::num::IntErrorKind::PosOverflow => IntErrorKind::PosOverflow,
            std::num::IntErrorKind::NegOverflow => IntErrorKind::NegOverflow,
            _ => IntErrorKind::Other,
        }),
    }
}

/// `<i64 as FromStr>::from_str`, seen through `Result::ok`.
#[verifier::external_body]
pub(crate) fn parse_i64(s: &str) -> (r: Option<i64>)
    ensures
        match parse_int_spec(s@, true, i64::MIN as int, i64::MAX as int) {
            Some(v) => r == Some(v as i64),
            None => r is None,
        },
{
    s.parse::<i64>().ok()
}

/// `i64`'s `Display`, through `ToString`.
#[verifier::external_body]
pub(crate) fn i64_to_string(x: i64) -> (r: String)
    ensures
        r@ == int_decimal(x as int),
{
    x.to_string()
}

/// `String::push`.
#[verifier::external_body]
pub(crate) fn push_char(s: &mut String, c: char)
    ensures
        final(s)@ == old(s)@.push(c),
{
    s.push(c);
}

/// Whether two texts hold the same characters.
pub fn str_eq(a: &str, b: &str) -> (r: bool)
    ensures
        r == (a@ == b@),
{
    let n = a.unicode_len();
    if n != b.unicode_len() {
        return false;
    }
    let mut i: usize = 0;
    while i < n
        invariant
            n == a@.len(),
            n == b@.len(),
            i <= n,
            forall|j: int| 0 <= j < i ==> a@[j] == b@[j],
        decreases n - i,
    {
        if a.get_char(i) != b.get_char(i) {
            return false;
        }
        i = i + 1;
    }
    assert(a@ =~= b@);
    true
}

/// A `String` holding the characters of `a` followed by those of `b`.
pub fn concat(a: &str, b: &str) -> (r: String)
    ensures
        r@ == a@ + b@,
{
    let mut r = a.to_string();
    proof {
        broadcast use vstd::string::group_string_axioms;
    }
    r.append(b);
    r
}

} // verus!
