//! The current date, from `chrono`.

use vstd::prelude::*;

verus! {

/// Whether `c` is a decimal digit.
pub open spec fn is_digit(c: char) -> bool {
    '0' <= c <= '9'
}

/// Whether every character of `s` is a decimal digit.
pub open spec fn all_digits(s: Seq<char>) -> bool {
    forall|i: int| 0 <= i < s.len() ==> is_digit(#[trigger] s[i])
}

/// Whether `s` has the shape of a year as `%Y` writes it: four digits for a year from 0 to
/// 9999, else a sign and at least four digits.
pub open spec fn is_year_text(s: Seq<char>) -> bool {
    ||| s.len() == 4 && all_digits(s)
    ||| s.len() >= 5 && (s[0] == '+' || s[0] == '-') && all_digits(s.skip(1))
}

/// Whether `s` has the shape of a date as `%Y-%m-%d` writes it: the year, a hyphen, two
/// digits of the month, a hyphen, two digits of the day.
pub open spec fn is_date_text(s: Seq<char>) -> bool {
    let n = s.len() as int;
    &&& n >= 10
    &&& is_year_text(s.take(n - 6))
    &&& s[n - 6] == '-'
    &&& is_digit(s[n - 5])
    &&& is_digit(s[n - 4])
    &&& s[n - 3] == '-'
    &&& is_digit(s[n - 2])
    &&& is_digit(s[n - 1])
}

/// `SystemTime::now` as a `DateTime<Utc>`, formatted with `%Y-%m-%d`: the current date in UTC.
/// It depends on the clock, so of the date itself nothing is stated, only the shape that the
/// format gives to every date. (The conversion panics on a machine whose clock stands outside
/// the years that `chrono` can hold, some 262000 years either side of year 0.)
#[verifier::external_body]
pub(crate) fn current_date() -> (date: String)
    ensures
        is_date_text(date@),
{
    chrono::DateTime::<chrono::Utc>::from(std::time::SystemTime::now()).format("%Y-%m-%d")
        .to_string()
}

} // verus!
