//! Today's daily file: the local clock, the date-formatted file name, and
//! the path under the configured directory.

use vstd::prelude::*;
use chrono::{Datelike, Timelike};
use crate::config::{AppConfig, opt_view};
use vstd::utf8::encode_utf8;
use crate::entry::{append_region, entry_line, entry_text, joined, region, token_views};

verus! {

/// A calendar date as the local clock reports it.
pub struct CivilDate {
    pub year: i32,
    pub month: u32,
    pub day: u32,
}

/// A Gregorian leap year: divisible by 4, and not by 100 unless by 400.
pub open spec fn is_leap_year(year: int) -> bool {
    year % 4 == 0 && (year % 100 != 0 || year % 400 == 0)
}

/// The number of days in `month` (1..=12) of `year`.
pub open spec fn days_in_month(year: int, month: int) -> int {
    if month == 2 {
        if is_leap_year(year) { 29 } else { 28 }
    } else if month == 4 || month == 6 || month == 9 || month == 11 {
        30
    } else {
        31
    }
}

impl CivilDate {
    /// Month in 1..=12 and day in 1..=31.
    pub open spec fn wf(&self) -> bool {
        &&& 1 <= self.month <= 12
        &&& 1 <= self.day <= 31
    }

    /// A day that exists in the Gregorian calendar.
    pub open spec fn is_calendar_date(&self) -> bool {
        &&& self.wf()
        &&& self.day <= days_in_month(self.year as int, self.month as int)
    }
}

/// A local date with the wall-clock hour and minute.
pub struct Moment {
    pub date: CivilDate,
    pub hour: u32,
    pub minute: u32,
}

impl Moment {
    /// A valid date, hour in 0..=23 and minute in 0..=59.
    pub open spec fn wf(&self) -> bool {
        &&& self.date.wf()
        &&& self.hour < 24
        &&& self.minute < 60
    }
}

/// What chrono writes for the date `year-month-day` under the strftime
/// `pattern`; `None` where the date does not exist or the pattern does not
/// format a date.
pub uninterp spec fn date_text(year: int, month: int, day: int, pattern: Seq<char>) -> Option<Seq<char>>;

/// The path that results from pushing `name` onto the directory `dir`,
/// following the host's path rules.
pub uninterp spec fn pushed_path(dir: Seq<char>, name: Seq<char>) -> Seq<char>;

/// Relies on chrono's `From<SystemTime> for DateTime<Local>`, applied to
/// std's `SystemTime::now` (a clock before 1970 is converted, not refused):
/// the local date and time, with the month
/// in 1..=12, the day in 1..=31, the hour in 0..=23 and the minute in 0..=59
/// as chrono's `Datelike` and `Timelike` document; the date is a `NaiveDate`,
/// which holds only days that exist in the proleptic Gregorian calendar.
#[verifier::external_body]
fn local_now() -> (r: Moment)
    ensures
        r.wf(),
        r.date.is_calendar_date(),
{
    let now = chrono::DateTime::<chrono::Local>::from(std::time::SystemTime::now());
    let date = CivilDate { year: now.year(), month: now.month(), day: now.day() };
    Moment { date, hour: now.hour(), minute: now.minute() }
}

/// Relies on chrono's `NaiveDate::format` (reached through
/// `NaiveDate::from_ymd_opt`): the date written under a strftime pattern,
/// or `None` where the date does not exist or formatting reports an error.
#[verifier::external_body]
fn format_date(date: &CivilDate, pattern: &str) -> (r: Option<String>)
    ensures
        opt_view(r) == date_text(date.year as int, date.month as int, date.day as int, pattern@),
{
    match chrono::NaiveDate::from_ymd_opt(date.year, date.month, date.day) {
        Some(d) => {
            let mut s = String::new();
            match d.format(pattern).write_to(&mut s) {
                Ok(()) => Some(s),
                Err(_) => None,
            }
        },
        None => None,
    }
}

/// Relies on std's `PathBuf::push`: `name` pushed onto `dir`.
#[verifier::external_body]
fn push_path(dir: &str, name: &str) -> (r: String)
    ensures
        r@ == pushed_path(dir@, name@),
{
    let mut p = std::path::PathBuf::from(dir);
    p.push(name);
    p.to_string_lossy().into_owned()
}

/// The daily file's name on `date`: the formatted date, a dot, and the
/// extension.
pub open spec fn file_name_of(date_format: Seq<char>, extension: Seq<char>, date: CivilDate) -> Option<Seq<char>> {
    match date_text(date.year as int, date.month as int, date.day as int, date_format) {
        Some(stem) => Some(stem + seq!['.'] + extension),
        None => None,
    }
}

/// The daily file's path on `date` under the configuration `cfg`.
pub open spec fn file_path_of(cfg: (Seq<char>, Seq<char>, Seq<char>), date: CivilDate) -> Option<Seq<char>> {
    match file_name_of(cfg.2, cfg.1, date) {
        Some(name) => Some(pushed_path(cfg.0, name)),
        None => None,
    }
}

/// The daily file's name on `date`: `strftime(date_format, date)`, a dot,
/// and the extension; `None` where the pattern cannot format the date.
pub fn daily_file_name(config: &AppConfig, date: &CivilDate) -> (r: Option<String>)
    ensures
        opt_view(r) == file_name_of(config.date_format@, config.file_extension@, *date),
{
    proof {
        reveal_strlit(".");
    }
    match format_date(date, config.date_format.as_str()) {
        Some(stem) => {
            let mut name = stem;
            name.append(".");
            name.append(config.file_extension.as_str());
            Some(name)
        },
        None => None,
    }
}

/// The daily file's path on `date`: its name pushed onto the configured
/// directory; `None` where the pattern cannot format the date.
pub fn daily_file_path_on(config: &AppConfig, date: &CivilDate) -> (r: Option<String>)
    ensures
        opt_view(r) == file_path_of(config@, *date),
{
    match daily_file_name(config, date) {
        Some(name) => Some(push_path(config.daily_path.as_str(), name.as_str())),
        None => None,
    }
}

/// Today's daily file path, today being the local date when called: the
/// path for a day that exists in the calendar.
pub fn get_daily_file_path(config: &AppConfig) -> (r: Option<String>)
    ensures
        exists|d: CivilDate| d.is_calendar_date() && opt_view(r) == file_path_of(config@, d),
{
    let now = local_now();
    let r = daily_file_path_on(config, &now.date);
    assert(now.date.is_calendar_date() && opt_view(r) == file_path_of(config@, now.date));
    r
}

/// A new entry line for the user's tokens, stamped with the local time when
/// called.
pub fn new_entry_line(tokens: &Vec<String>) -> (r: String)
    ensures
        exists|hour: int, minute: int|
            0 <= hour < 24 && 0 <= minute < 60
                && r@ == entry_text(hour, minute, joined(token_views(tokens@))),
{
    let now = local_now();
    let r = entry_line(now.hour, now.minute, tokens);
    assert(r@ == entry_text(now.hour as int, now.minute as int, joined(token_views(tokens@))));
    r
}

/// The bytes that appending the user's tokens writes after a file whose
/// final byte is `last` (`None` for an empty file), stamped with the local
/// time when called.
pub fn new_entry_region(last: Option<u8>, tokens: &Vec<String>) -> (r: Vec<u8>)
    ensures
        exists|hour: int, minute: int|
            0 <= hour < 24 && 0 <= minute < 60
                && r@ == region(last, encode_utf8(entry_text(hour, minute, joined(token_views(tokens@))))),
{
    let line = new_entry_line(tokens);
    append_region(last, line.as_str())
}

} // verus!
