//! Calendar text for an instant, as `chrono` prints it.

use vstd::prelude::*;

verus! {

/// The UTC calendar date of the instant `seconds` after the Unix epoch, as
/// `chrono` prints a `NaiveDate`; `None` where `chrono` cannot hold the
/// instant.
pub uninterp spec fn utc_date(seconds: i64) -> Option<Seq<char>>;

/// The format by which a console line shows the time of day: hours, minutes
/// and seconds, two digits each.
pub open spec fn clock_format() -> Seq<char> {
    "%H:%M:%S"@
}

/// The decimal digit for `n`, where `n` is below ten.
pub open spec fn digit(n: int) -> char {
    ('0' as int + n) as char
}

/// The two decimal digits of `n`, where `n` is below a hundred.
pub open spec fn two_digits(n: int) -> Seq<char> {
    seq![digit(n / 10), digit(n % 10)]
}

/// The time of day of the instant `seconds` after the Unix epoch, in UTC:
/// the hour, the minute and the second of the day, two digits each, with a
/// colon between them.
pub open spec fn clock_text(seconds: i64) -> Seq<char> {
    let second_of_day = seconds as int % 86400;
    two_digits(second_of_day / 3600) + seq![':'] + two_digits(second_of_day / 60 % 60) + seq![':']
        + two_digits(second_of_day % 60)
}

/// Calls `chrono::DateTime::from_timestamp` on `seconds` and no
/// nanoseconds, and prints the `date_naive` of what it returns. The
/// contract gives the text its name and claims nothing else of it.
#[verifier::external_body]
pub(crate) fn utc_date_text(seconds: i64) -> (text: Option<String>)
    ensures
        text is Some <==> utc_date(seconds) is Some,
        text is Some ==> text->Some_0@ == utc_date(seconds)->Some_0,
{
    match chrono::DateTime::from_timestamp(seconds, 0) {
        Some(moment) => Some(moment.date_naive().to_string()),
        None => None,
    }
}

/// Calls `chrono::DateTime::from_timestamp` on `seconds` and no
/// nanoseconds, and prints the `time` of what it returns by `format`, which
/// is the format of hours, minutes and seconds: any other might not be one
/// that `chrono` can print by. There is a text exactly where `chrono` can
/// hold the instant, which is where the date has one. The text is what
/// `chrono` shows that format to print for a time without a leap second:
/// the hour, minute and second of the day, each as two digits.
#[verifier::external_body]
pub(crate) fn utc_clock_text(seconds: i64, format: &str) -> (text: Option<String>)
    requires
        format@ == clock_format(),
    ensures
        text is Some <==> utc_date(seconds) is Some,
        text is Some ==> text->Some_0@ == clock_text(seconds),
{
    match chrono::DateTime::from_timestamp(seconds, 0) {
        Some(moment) => Some(moment.time().format(format).to_string()),
        None => None,
    }
}

} // verus!
