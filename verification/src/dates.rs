//! Dates of messages, shown in the time of Beijing.

use vstd::prelude::*;
use vstd::string::*;

use chrono::{DateTime, Datelike, FixedOffset, Timelike};

use crate::number;
use crate::number::{signed_text, two_digit_text};
use crate::text;
use crate::text::trim;

verus! {

broadcast use vstd::string::group_string_axioms;

/// A moment in some time zone.
#[derive(Clone, Copy, Debug, PartialEq, Eq, Structural)]
pub struct Moment {
    pub year: i32,
    pub month: u32,
    pub day: u32,
    /// The day of the week, from Monday, which is zero.
    pub weekday: u32,
    pub hour: u32,
    pub minute: u32,
}

/// How many seconds the time of Beijing is ahead.
pub const BEIJING: i32 = 28800;

/// The moment that a date in the notation of RFC 2822 stands for, so many seconds east of
/// Greenwich.
pub uninterp spec fn rfc2822_moment(s: Seq<char>, east: i32) -> Option<Moment>;

/// `chrono::DateTime::parse_from_rfc2822`, and `with_timezone` with a fixed offset: the moment
/// that the date stands for, or nothing where it is not in that notation. The month, the day, the
/// day of the week, the hour and the minute are in the range of a calendar.
#[verifier::external_body]
fn parse_date(s: &str, east: i32) -> (r: Option<Moment>)
    requires
        -86400 < east < 86400,
    ensures
        r == rfc2822_moment(s@, east),
        r matches Some(m) ==> 1 <= m.month <= 12 && 1 <= m.day <= 31 && m.weekday <= 6 && m.hour
            <= 23 && m.minute <= 59,
{
    let t = DateTime::parse_from_rfc2822(s).ok()?.with_timezone(&FixedOffset::east_opt(east)?);
    Some(
        Moment {
            year: t.year(),
            month: t.month(),
            day: t.day(),
            weekday: t.weekday().num_days_from_monday(),
            hour: t.hour(),
            minute: t.minute(),
        },
    )
}

/// The date: year, month and day.
pub open spec fn day_text(m: Moment) -> Seq<char> {
    number::signed_decimal(m.year as int) + "/"@ + number::two_digits(m.month as nat) + "/"@
        + number::two_digits(m.day as nat)
}

/// The date: year, month and day.
pub fn show_day(m: &Moment) -> (r: String)
    ensures
        r@ == day_text(*m),
{
    let mut r = signed_text(m.year);
    r.append("/");
    r.append(two_digit_text(m.month).as_str());
    r.append("/");
    r.append(two_digit_text(m.day).as_str());
    r
}

/// The day of the week in Chinese.
pub open spec fn weekday_text(day: u32) -> Seq<char> {
    if day == 0 {
        "周一"@
    } else if day == 1 {
        "周二"@
    } else if day == 2 {
        "周三"@
    } else if day == 3 {
        "周四"@
    } else if day == 4 {
        "周五"@
    } else if day == 5 {
        "周六"@
    } else {
        "周日"@
    }
}

fn show_weekday(day: u32) -> (r: &'static str)
    ensures
        r@ == weekday_text(day),
{
    if day == 0 {
        "周一"
    } else if day == 1 {
        "周二"
    } else if day == 2 {
        "周三"
    } else if day == 3 {
        "周四"
    } else if day == 4 {
        "周五"
    } else if day == 5 {
        "周六"
    } else {
        "周日"
    }
}

/// The date with the day of the week, hour and minute.
pub open spec fn moment_text(m: Moment) -> Seq<char> {
    day_text(m) + " "@ + weekday_text(m.weekday) + " "@ + number::two_digits(m.hour as nat) + ":"@
        + number::two_digits(m.minute as nat)
}

/// The date with the day of the week, hour and minute.
pub fn show_moment(m: &Moment) -> (r: String)
    ensures
        r@ == moment_text(*m),
{
    let mut r = show_day(m);
    r.append(" ");
    r.append(show_weekday(m.weekday));
    r.append(" ");
    r.append(two_digit_text(m.hour).as_str());
    r.append(":");
    r.append(two_digit_text(m.minute).as_str());
    r
}

/// The day of a date in Beijing; a text that is no date itself.
pub open spec fn short_date(s: Seq<char>) -> Seq<char> {
    match rfc2822_moment(text::trimmed(s), BEIJING) {
        Some(m) => day_text(m),
        None => s,
    }
}

/// The day of a date in Beijing, such as `2006/07/18`; a text that is no date itself.
pub fn reformat_date(s: &str) -> (r: String)
    ensures
        r@ == short_date(s@),
{
    match parse_date(trim(s).as_str(), BEIJING) {
        Some(m) => show_day(&m),
        None => s.to_owned(),
    }
}

/// The moment of a date in Beijing; a text that is no date itself.
pub open spec fn long_date(s: Seq<char>) -> Seq<char> {
    match rfc2822_moment(s, BEIJING) {
        Some(m) => moment_text(m),
        None => s,
    }
}

/// The moment of a date in Beijing; a text that is no date itself.
pub fn format_mail_date(raw: &str) -> (r: String)
    ensures
        r@ == long_date(raw@),
{
    match parse_date(raw, BEIJING) {
        Some(m) => show_moment(&m),
        None => raw.to_owned(),
    }
}

} // verus!
