//! Scroll amounts written as percentages, such as `"50%"` or `" -25 "`.

use vstd::prelude::*;
use crate::text::{IntErrorKind, decimal_literal, literal_above, literal_below, parse_i32, parse_int_spec, trim, trim_spec};

verus! {

/// `s` without any trailing `c`.
pub open spec fn strip_trailing(s: Seq<char>, c: char) -> Seq<char>
    decreases s.len(),
{
    if s.len() > 0 && s.last() == c {
        strip_trailing(s.drop_last(), c)
    } else {
        s
    }
}

/// `s` without any trailing `c`, as `str::trim_end_matches` with a character gives it.
pub fn trim_end_matches(s: &str, c: char) -> (r: &str)
    ensures
        r@ == strip_trailing(s@, c),
{
    let mut end = s.unicode_len();
    assert(s@.take(end as int) =~= s@);
    while end > 0 && s.get_char(end - 1) == c
        invariant
            end <= s@.len(),
            strip_trailing(s@.take(end as int), c) == strip_trailing(s@, c),
        decreases end,
    {
        assert(s@.take(end as int).drop_last() =~= s@.take(end - 1));
        end = end - 1;
    }
    assert(s@.take(end as int) =~= s@.subrange(0, end as int));
    proof {
        if end > 0 {
            assert(s@.take(end as int).last() == s@[end - 1]);
        }
    }
    s.substring_char(0, end)
}

/// The text of a percentage once white space around it and every trailing `%` are gone.
pub open spec fn percentage_body(s: Seq<char>) -> Seq<char> {
    strip_trailing(trim_spec(s), '%')
}

/// Reads a percentage: surrounding white space and trailing `%` signs are
/// dropped, and what is left must be an `i32` literal.
pub fn parse_percentage(s: &str) -> (r: Result<i32, IntErrorKind>)
    ensures
        r is Ok <==> parse_int_spec(percentage_body(s@), true, i32::MIN as int, i32::MAX as int) is Some,
        r matches Ok(v) ==> v == parse_int_spec(percentage_body(s@), true, i32::MIN as int, i32::MAX as int)->0,
        (r matches Err(k) && k == IntErrorKind::Empty) <==> percentage_body(s@).len() == 0,
        r matches Err(k) ==> (literal_above(percentage_body(s@), true, i32::MAX as int) ==> k == IntErrorKind::PosOverflow),
        r matches Err(k) ==> (literal_below(percentage_body(s@), true, i32::MIN as int) ==> k == IntErrorKind::NegOverflow),
        r matches Err(k) ==> (0 < percentage_body(s@).len() <= 10 && decimal_literal(percentage_body(s@), true)
            is None ==> k == IntErrorKind::InvalidDigit),
{
    let cleaned = trim_end_matches(trim(s), '%');
    parse_i32(cleaned)
}

} // verus!
