//! Times of day and dates: reading them from the report, writing them for the
//! tooltip, and today's date.
use vstd::prelude::*;
use vstd::string::StringExecFns;
use vstd::utf8::{encode_utf8, decode_utf8, is_char_boundary, encode_utf8_decode_utf8};
use std::fmt::Write;
use chrono::{Datelike, Local, Locale, NaiveDate, NaiveTime, Timelike};
use crate::numeric::{pad2_text, parse_u32_text, push_pad2, parse_u32_chars};
use crate::text::chars_of;
use crate::model::{DayForecast, str_or, text_or};

verus! {

broadcast use vstd::utf8::group_utf8_lib;

/// What `NaiveTime::parse_from_str(s, fmt)` gives, as its hour and minute.
pub uninterp spec fn parsed_time(s: Seq<char>, fmt: Seq<char>) -> Option<(u32, u32)>;

/// `chrono::NaiveTime::parse_from_str`, with the time read back by
/// `Timelike::hour` and `Timelike::minute`. Claimed: the outcome is a function
/// of the text and the format, named `parsed_time`, and a time read has its
/// hour in 0..=23 and its minute in 0..=59, as those two methods document. The
/// rules of chrono's format language are not written out.
#[verifier::external_body]
fn parse_time(s: &str, fmt: &str) -> (r: Option<(u32, u32)>)
    ensures
        r == parsed_time(s@, fmt@),
        r matches Some((h, m)) ==> h < 24 && m < 60,
{
    match NaiveTime::parse_from_str(s, fmt) {
        Ok(t) => Some((t.hour(), t.minute())),
        Err(_) => None,
    }
}

/// What `NaiveDate::parse_from_str(s, fmt)` gives, as year, month and day.
pub uninterp spec fn parsed_date(s: Seq<char>, fmt: Seq<char>) -> Option<(i32, u32, u32)>;

/// `chrono::NaiveDate::parse_from_str`, with the date read back by
/// `Datelike::year`, `month` and `day`. Claimed: the outcome is a function of
/// the text and the format, named `parsed_date`, and a date read has its month
/// in 1..=12 and its day in 1..=31, as those methods document. The rules of
/// chrono's format language are not written out.
#[verifier::external_body]
fn parse_date(s: &str, fmt: &str) -> (r: Option<(i32, u32, u32)>)
    ensures
        r == parsed_date(s@, fmt@),
        r matches Some((y, m, d)) ==> 1 <= m <= 12 && 1 <= d <= 31,
{
    match NaiveDate::parse_from_str(s, fmt) {
        Ok(d) => Some((d.year(), d.month(), d.day())),
        Err(_) => None,
    }
}

/// `chrono::Local::now().date_naive()`, read back by `Datelike::year`, `month`
/// and `day`: today's date in the local time zone. It depends on the clock and
/// the time zone, so all that is claimed is that the month lies in 1..=12 and
/// the day in 1..=31.
#[verifier::external_body]
pub(crate) fn local_today() -> (today: (i32, u32, u32))
    ensures
        1 <= today.1 <= 12,
        1 <= today.2 <= 31,
{
    let d = Local::now().date_naive();
    (d.year(), d.month(), d.day())
}

/// What formatting the date `year-month-day` with `fmt` in the locale named
/// `locale` gives, if anything.
pub uninterp spec fn localized_date(
    year: i32,
    month: u32,
    day: u32,
    fmt: Seq<char>,
    locale: Seq<char>,
) -> Option<Seq<char>>;

/// `chrono::NaiveDate::format_localized`, with the date made by
/// `NaiveDate::from_ymd_opt` and the locale by `Locale::try_from`. Claimed:
/// the outcome is a function of the five arguments, named `localized_date`;
/// `None` stands for a date chrono does not hold, a locale name it does not
/// know, or a format whose writing fails (an unknown specifier, say).
#[verifier::external_body]
fn format_date_localized(year: i32, month: u32, day: u32, fmt: &str, locale: &str) -> (r: Option<
    String,
>)
    ensures
        match r {
            Some(t) => localized_date(year, month, day, fmt@, locale@) == Some(t@),
            None => localized_date(year, month, day, fmt@, locale@) is None,
        },
{
    let date = match NaiveDate::from_ymd_opt(year, month, day) {
        Some(d) => d,
        None => return None,
    };
    let loc = match Locale::try_from(locale) {
        Ok(l) => l,
        Err(_) => return None,
    };
    let mut out = String::new();
    match write!(out, "{}", date.format_localized(fmt, loc)) {
        Ok(()) => Some(out),
        Err(_) => None,
    }
}

/// `hour:minute`, each zero-padded to two digits, with ` AM` or ` PM` and the
/// hour on a 12-hour dial where `ampm`.
pub open spec fn clock_text(hour: nat, minute: nat, ampm: bool) -> Seq<char> {
    if ampm {
        let display = if hour == 0 {
            12
        } else if hour > 12 {
            (hour - 12) as nat
        } else {
            hour
        };
        let period = if hour >= 12 {
            "PM"@
        } else {
            "AM"@
        };
        pad2_text(display) + ":"@ + pad2_text(minute) + " "@ + period
    } else {
        pad2_text(hour) + ":"@ + pad2_text(minute)
    }
}

/// A number read from the report, or zero where it is not one.
pub open spec fn number_or_zero(o: Option<u32>) -> nat {
    match o {
        Some(n) => n as nat,
        None => 0,
    }
}

/// The hour and minute of an hourly time `s`, which runs them together
/// (`"0"`, `"300"`, `"1500"`): the last two bytes are the minute, the ones
/// before them the hour; a part that is not a number counts as zero, and so do
/// both where the cut would fall inside a character.
pub open spec fn hourly_time_parts(s: Seq<char>) -> (nat, nat) {
    let b = encode_utf8(s);
    let cut = b.len() - 2;
    if is_char_boundary(b, cut) {
        (
            number_or_zero(parse_u32_text(decode_utf8(b.take(cut)))),
            number_or_zero(parse_u32_text(decode_utf8(b.skip(cut)))),
        )
    } else {
        (0, 0)
    }
}

/// The time of an hourly forecast as shown: as given where it is shorter than
/// two bytes, otherwise `HH:MM`, or `HH:MM AM`/`PM` on a 12-hour dial.
pub open spec fn format_time_text(s: Seq<char>, ampm: bool) -> Seq<char> {
    if encode_utf8(s).len() < 2 {
        s
    } else {
        clock_text(hourly_time_parts(s).0, hourly_time_parts(s).1, ampm)
    }
}

/// Appends `clock_text(hour, minute, ampm)`.
fn push_clock(out: &mut String, hour: u32, minute: u32, ampm: bool)
    ensures
        final(out)@ == old(out)@ + clock_text(hour as nat, minute as nat, ampm),
{
    if ampm {
        let display: u32 = if hour == 0 {
            12
        } else if hour > 12 {
            hour - 12
        } else {
            hour
        };
        push_pad2(out, display as u64);
        out.append(":");
        push_pad2(out, minute as u64);
        out.append(" ");
        if hour >= 12 {
            out.append("PM");
        } else {
            out.append("AM");
        }
    } else {
        push_pad2(out, hour as u64);
        out.append(":");
        push_pad2(out, minute as u64);
    }
}

/// The number written by `s`, or zero where it is not a `u32`.
fn parse_or_zero(s: &str) -> (n: u32)
    ensures
        n as nat == number_or_zero(parse_u32_text(s@)),
{
    let v = chars_of(s);
    match parse_u32_chars(&v) {
        Some(n) => n,
        None => 0,
    }
}

/// Writes the time of an hourly forecast (`"300"` becomes `03:00`, or
/// `03:00 AM` where `ampm`); a time shorter than two bytes is kept as it is.
pub fn format_time(time_str: &str, ampm: bool) -> (r: String)
    ensures
        r@ == format_time_text(time_str@, ampm),
{
    let bytes = time_str.as_bytes();
    let n = bytes.len();
    if n < 2 {
        return time_str.to_owned();
    }
    let (hour, minute) = if time_str.is_char_boundary(n - 2) {
        let (head, tail) = time_str.split_at(n - 2);
        proof {
            encode_utf8_decode_utf8(head@);
            encode_utf8_decode_utf8(tail@);
        }
        (parse_or_zero(head), parse_or_zero(tail))
    } else {
        (0, 0)
    };
    let mut r = String::new();
    push_clock(&mut r, hour, minute, ampm);
    r
}

/// The field of the day's astronomy that a time is read from.
#[derive(Clone, Copy, Debug, PartialEq, Eq, Structural)]
pub enum AstronomyField {
    Sunrise,
    Sunset,
}

/// The time of `field` for `day`, as the report gives it (`07:12 AM`); `00:00
/// AM` where it gives none.
pub open spec fn astronomy_time(day: DayForecast, field: AstronomyField) -> Seq<char> {
    match day.astronomy {
        Some(a) => match field {
            AstronomyField::Sunrise => text_or(a.sunrise, "00:00 AM"@),
            AstronomyField::Sunset => text_or(a.sunset, "00:00 AM"@),
        },
        None => "00:00 AM"@,
    }
}

/// The 12-hour format of sunrise and sunset in the report.
pub open spec fn twelve_hour_format() -> Seq<char> {
    "%I:%M %p"@
}

/// A time given on a 12-hour dial as shown: as given where `ampm` or where it
/// does not read as such a time, otherwise `HH:MM` on a 24-hour dial.
pub open spec fn ampm_time_text(t: Seq<char>, ampm: bool) -> Seq<char> {
    shown_clock_time(t, parsed_time(t, twelve_hour_format()), ampm)
}

/// A time `t` given on a 12-hour dial as it is shown, from what reading it as
/// such a time gave: as given where `ampm` or where it did not read,
/// otherwise `HH:MM` on a 24-hour dial.
pub open spec fn shown_clock_time(t: Seq<char>, parsed: Option<(u32, u32)>, ampm: bool) -> Seq<
    char,
> {
    match parsed {
        Some((h, m)) => if ampm {
            t
        } else {
            clock_text(h as nat, m as nat, false)
        },
        None => t,
    }
}

/// Writes a time `t` given on a 12-hour dial, from what reading it gave.
pub fn show_clock_time(t: &str, parsed: Option<(u32, u32)>, ampm: bool) -> (r: String)
    ensures
        r@ == shown_clock_time(t@, parsed, ampm),
{
    match parsed {
        Some((h, m)) => {
            if ampm {
                t.to_owned()
            } else {
                let mut r = String::new();
                push_clock(&mut r, h, m, false);
                r
            }
        },
        None => t.to_owned(),
    }
}

/// Writes a time given on a 12-hour dial as it is shown.
pub fn format_clock_time(t: &str, ampm: bool) -> (r: String)
    ensures
        r@ == ampm_time_text(t@, ampm),
{
    show_clock_time(t, parse_time(t, "%I:%M %p"), ampm)
}

/// The time of sunrise or sunset of `day`, as it is shown.
pub fn format_ampm_time(day: &DayForecast, field: AstronomyField, ampm: bool) -> (r: String)
    ensures
        r@ == ampm_time_text(astronomy_time(*day, field), ampm),
{
    let t: &str = match &day.astronomy {
        Some(a) => match field {
            AstronomyField::Sunrise => str_or(&a.sunrise, "00:00 AM"),
            AstronomyField::Sunset => str_or(&a.sunset, "00:00 AM"),
        },
        None => "00:00 AM",
    };
    format_clock_time(t, ampm)
}

/// Whether year, month and day have their month in 1..=12 and their day in
/// 1..=31, as the local clock gives today's date.
pub open spec fn is_calendar_date(d: (i32, u32, u32)) -> bool {
    1 <= d.1 <= 12 && 1 <= d.2 <= 31
}

/// Whether the date `a` comes no earlier than `b`.
pub open spec fn date_not_before(a: (i32, u32, u32), b: (i32, u32, u32)) -> bool {
    a.0 > b.0 || (a.0 == b.0 && (a.1 > b.1 || (a.1 == b.1 && a.2 >= b.2)))
}

/// The ISO format of the dates in the report.
pub open spec fn iso_date_format() -> Seq<char> {
    "%Y-%m-%d"@
}

/// The date of `day`, where it reads as one.
pub open spec fn day_date(day: DayForecast) -> Option<(i32, u32, u32)> {
    parsed_date(text_or(day.date, ""@), iso_date_format())
}

/// The date of `day`, where it reads as one.
pub fn read_day_date(day: &DayForecast) -> (r: Option<(i32, u32, u32)>)
    ensures
        r == day_date(*day),
{
    parse_date(str_or(&day.date, ""), "%Y-%m-%d")
}

/// Whether the date `a` comes no earlier than `b`.
pub fn is_not_before(a: (i32, u32, u32), b: (i32, u32, u32)) -> (r: bool)
    ensures
        r == date_not_before(a, b),
{
    a.0 > b.0 || (a.0 == b.0 && (a.1 > b.1 || (a.1 == b.1 && a.2 >= b.2)))
}

/// The heading date of a day in the tooltip, written by `fmt` in the locale
/// named `locale`, where its date reads and can be written.
pub fn localized_day_heading(day: &DayForecast, fmt: &str, locale: &str) -> (r: Option<String>)
    ensures
        match day_date(*day) {
            Some((y, m, d)) => match r {
                Some(t) => localized_date(y, m, d, fmt@, locale@) == Some(t@),
                None => localized_date(y, m, d, fmt@, locale@) is None,
            },
            None => r is None,
        },
{
    match read_day_date(day) {
        Some((y, m, d)) => format_date_localized(y, m, d, fmt, locale),
        None => None,
    }
}

} // verus!

verus! {

/// Whether `t` reads as a time on a 12-hour dial.
pub fn reads_as_clock_time(t: &str) -> (r: bool)
    ensures
        r == parsed_time(t@, twelve_hour_format()) is Some,
{
    parse_time(t, "%I:%M %p").is_some()
}

} // verus!
