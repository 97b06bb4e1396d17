use vstd::prelude::*;

verus! {

/// The strftime pattern of a calendar date, `YYYY-MM-DD`.
pub open spec fn is_date_pattern(p: Seq<char>) -> bool {
    p == "%Y-%m-%d"@
}

/// The strftime pattern of a time of day with milliseconds, `HH:MM:SS.mmm`.
pub open spec fn is_time_pattern(p: Seq<char>) -> bool {
    p == "%H:%M:%S.%3f"@
}

/// An ASCII decimal digit.
pub open spec fn is_digit(c: char) -> bool {
    '0' <= c && c <= '9'
}

/// Every character is an ASCII decimal digit.
pub open spec fn all_digits(s: Seq<char>) -> bool {
    forall|i: int| 0 <= i < s.len() ==> is_digit(#[trigger] s[i])
}

/// `s` is written as a year, then `-MM-DD`: the year is four digits, or,
/// past 9999, a `+` followed by its digits.
pub open spec fn is_date_text(s: Seq<char>) -> bool {
    let n = s.len() as int;
    let year = s.subrange(0, n - 6);
    &&& n >= 10
    &&& (year.len() == 4 && all_digits(year)) || (year.len() > 4 && year[0] == '+' && all_digits(
        year.drop_first(),
    ))
    &&& s[n - 6] == '-'
    &&& is_digit(s[n - 5])
    &&& is_digit(s[n - 4])
    &&& s[n - 3] == '-'
    &&& is_digit(s[n - 2])
    &&& is_digit(s[n - 1])
}

/// `s` is written as `HH:MM:SS.mmm`.
pub open spec fn is_time_text(s: Seq<char>) -> bool {
    &&& s.len() == 12
    &&& all_digits(s.subrange(0, 2))
    &&& s[2] == ':'
    &&& all_digits(s.subrange(3, 5))
    &&& s[5] == ':'
    &&& all_digits(s.subrange(6, 8))
    &&& s[8] == '.'
    &&& all_digits(s.subrange(9, 12))
}

/// Relies on chrono::Local::now, to read the clock once, and on
/// chrono::DateTime::format with the `Display` impl of what it returns, to
/// write that one instant out by each of two strftime patterns. Both patterns
/// admitted here are well formed, on which that `Display` impl does not fail.
/// Which instant comes out depends on the clock and the local time zone; the
/// shape of the texts does not: zero-padded numeric fields, a `.` before the
/// milliseconds, and a year of four digits up to 9999 and signed beyond
/// (`write_year` in chrono's formatting code).
#[verifier::external_body]
pub(crate) fn local_now_texts(date_pattern: &str, time_pattern: &str) -> (r: (String, String))
    requires
        is_date_pattern(date_pattern@),
        is_time_pattern(time_pattern@),
    ensures
        is_date_text(r.0@),
        is_time_text(r.1@),
{
    let now = chrono::Local::now();
    (now.format(date_pattern).to_string(), now.format(time_pattern).to_string())
}

} // verus!
