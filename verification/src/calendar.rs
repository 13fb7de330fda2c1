//! Cron expressions, time zones, dates and instants.

use std::str::FromStr;

use vstd::prelude::*;

use crate::text::{concat, concat5, opt_text, zero_padded, zero_padded_text};

verus! {

// ---------------------------------------------------------------------------------------------
// Cron expressions and time zones
// ---------------------------------------------------------------------------------------------
/// The error text of `cron::Schedule::from_str` on an expression, or none where it parses.
pub uninterp spec fn cron_fault(expr: Seq<char>) -> Option<Seq<char>>;

/// Whether `chrono_tz::Tz::from_str` knows a time zone of that name.
pub uninterp spec fn zone_known(name: Seq<char>) -> bool;

/// The error text of an unknown time zone name.
pub open spec fn zone_fault(name: Seq<char>) -> Option<Seq<char>> {
    if zone_known(name) {
        None
    } else {
        Some("failed to parse timezone"@)
    }
}

/// Calls `cron::Schedule::from_str`. The contract names what it reports: parsing looks at nothing
/// but the expression.
#[verifier::external_body]
pub(crate) fn cron_error(expr: &str) -> (r: Option<String>)
    ensures
        opt_text(r) == cron_fault(expr@),
{
    match cron::Schedule::from_str(expr) {
        Ok(_) => None,
        Err(error) => Some(error.to_string()),
    }
}

/// Calls `chrono_tz::Tz::from_str`. The contract names the set of names that it knows, a table
/// fixed when the crate was built, and states the one text with which it refuses all others.
#[verifier::external_body]
pub(crate) fn zone_error(name: &str) -> (r: Option<String>)
    ensures
        match r {
            None => zone_known(name@),
            Some(text) => !zone_known(name@) && text@ == "failed to parse timezone"@,
        },
{
    match chrono_tz::Tz::from_str(name) {
        Ok(_) => None,
        Err(error) => Some(error.to_string()),
    }
}

// ---------------------------------------------------------------------------------------------
// Instants
// ---------------------------------------------------------------------------------------------
/// The seconds from the epoch to the first instant, the start of the year -262143.
pub const FIRST_SECOND: i64 = -8334601228800;

/// The seconds from the epoch to the last instant, the end of the year 262142.
pub const LAST_SECOND: i64 = 8210266876799;

/// The seconds of a day.
pub const DAY_SECONDS: i64 = 86400;

/// Seconds since the epoch and nanoseconds within that second that make an instant. More than a
/// second's worth of nanoseconds stands for a leap second.
pub open spec fn valid_instant(t: (int, int)) -> bool {
    &&& FIRST_SECOND <= t.0 <= LAST_SECOND
    &&& 0 <= t.1 < 2_000_000_000
    &&& t.1 >= 1_000_000_000 ==> t.0 % 60 == 59
}

/// Whether the instant `a` lies after `b`.
pub open spec fn after(a: (int, int), b: (int, int)) -> bool {
    a.0 > b.0 || (a.0 == b.0 && a.1 > b.1)
}

/// An instant of Coordinated Universal Time.
#[derive(Debug, PartialEq, Eq)]
pub struct Timestamp {
    secs: i64,
    nanos: u32,
}

impl View for Timestamp {
    type V = (int, int);

    closed spec fn view(&self) -> (int, int) {
        (self.secs as int, self.nanos as int)
    }
}

impl Timestamp {
    #[verifier::type_invariant]
    spec fn in_range(self) -> bool {
        valid_instant(self@)
    }

    /// The instant at so many seconds since the epoch and nanoseconds within that second.
    pub fn new(secs: i64, nanos: u32) -> (r: Option<Timestamp>)
        ensures
            match r {
                Some(t) => t@ == (secs as int, nanos as int) && valid_instant(t@),
                None => !valid_instant((secs as int, nanos as int)),
            },
    {
        if secs < FIRST_SECOND || secs > LAST_SECOND || nanos >= 2_000_000_000 {
            return None;
        }
        let since: i64 = secs - FIRST_SECOND;
        if nanos >= 1_000_000_000 && since % 60 != 59 {
            return None;
        }
        Some(Timestamp { secs, nanos })
    }

    /// The whole seconds since the epoch.
    pub fn secs(&self) -> (r: i64)
        ensures
            r == self@.0,
            valid_instant(self@),
    {
        proof {
            use_type_invariant(self);
        }
        self.secs
    }

    /// The nanoseconds within the second.
    pub fn nanos(&self) -> (r: u32)
        ensures
            r == self@.1,
            valid_instant(self@),
    {
        proof {
            use_type_invariant(self);
        }
        self.nanos
    }

    /// Whether this instant lies after the other.
    pub fn is_after(&self, other: &Timestamp) -> (r: bool)
        ensures
            r == after(self@, other@),
    {
        self.secs > other.secs || (self.secs == other.secs && self.nanos > other.nanos)
    }

    /// The instant a day later, where there is one.
    pub fn plus_day(&self) -> (r: Option<Timestamp>)
        ensures
            match r {
                Some(t) => t@ == (self@.0 + DAY_SECONDS, self@.1) && valid_instant(t@),
                None => self@.0 + DAY_SECONDS > LAST_SECOND,
            },
    {
        proof {
            use_type_invariant(self);
        }
        if self.secs > LAST_SECOND - DAY_SECONDS {
            return None;
        }
        Some(Timestamp { secs: self.secs + DAY_SECONDS, nanos: self.nanos })
    }
}

impl Clone for Timestamp {
    fn clone(&self) -> (r: Self)
        ensures
            r@ == self@,
            r == *self,
    {
        proof {
            use_type_invariant(self);
        }
        Timestamp { secs: self.secs, nanos: self.nanos }
    }
}

/// A value that was read.
pub open spec fn good<T>(value: T) -> Result<T, Seq<char>> {
    Ok(value)
}

/// The error text of a value that was not read.
pub open spec fn bad<T>(error: Seq<char>) -> Result<T, Seq<char>> {
    Err(error)
}

/// What `chrono::DateTime::to_rfc3339` writes for an instant of Coordinated Universal Time.
pub uninterp spec fn rfc3339(secs: int, nanos: int) -> Seq<char>;

/// What `chrono::DateTime::parse_from_rfc3339` reads: the instant, or an error text.
pub uninterp spec fn rfc3339_read(text: Seq<char>) -> Result<(int, int), Seq<char>>;

/// What `chrono::DateTime::format` writes for an instant of Coordinated Universal Time.
pub uninterp spec fn formatted(secs: int, nanos: int, pattern: Seq<char>) -> Seq<char>;

/// An instant of the years 0 to 9999, outside leap seconds.
pub open spec fn four_digit_year(t: (int, int)) -> bool {
    -62167219200 <= t.0 <= 253402300799 && t.1 < 1_000_000_000
}

/// Calls `chrono::DateTime::to_rfc3339`. The contract names the text. It also states that
/// `chrono::DateTime::parse_from_rfc3339` reads the instant back where the year has four digits:
/// the text then has the form `YYYY-MM-DDThh:mm:ss`, a fraction that holds all nonzero
/// nanoseconds, and `+00:00`.
#[verifier::external_body]
pub(crate) fn rfc3339_text(t: &Timestamp) -> (r: String)
    ensures
        r@ == rfc3339(t@.0, t@.1),
        four_digit_year(t@) ==> rfc3339_read(r@) == good(t@),
{
    chrono::DateTime::<chrono::Utc>::from_timestamp(t.secs, t.nanos).unwrap().to_rfc3339()
}

/// Calls `chrono::DateTime::parse_from_rfc3339`. The contract names the result: the instant in
/// Coordinated Universal Time, or the text of the error.
#[verifier::external_body]
pub(crate) fn rfc3339_parse(text: &str) -> (r: Result<Timestamp, String>)
    ensures
        match r {
            Ok(t) => rfc3339_read(text@) == good(t@),
            Err(e) => rfc3339_read(text@) == bad::<(int, int)>(e@),
        },
{
    match chrono::DateTime::parse_from_rfc3339(text) {
        Ok(t) => Ok(Timestamp { secs: t.timestamp(), nanos: t.timestamp_subsec_nanos() }),
        Err(error) => Err(error.to_string()),
    }
}

/// A pattern that `chrono::DateTime::format` knows.
pub open spec fn known_pattern(pattern: Seq<char>) -> bool {
    pattern == "%Y-%m-%d %H:%M:%S"@ || pattern == "%Y%m%dT%H%M%SZ"@
}

/// Calls `chrono::DateTime::format` on an instant of Coordinated Universal Time. The contract
/// names the text. Writing a pattern with an unknown specifier panics, so only known ones are
/// admitted.
#[verifier::external_body]
pub(crate) fn format_instant(t: &Timestamp, pattern: &str) -> (r: String)
    requires
        known_pattern(pattern@),
    ensures
        r@ == formatted(t@.0, t@.1, pattern@),
{
    let instant = chrono::DateTime::<chrono::Utc>::from_timestamp(t.secs, t.nanos).unwrap();
    instant.format(pattern).to_string()
}

/// An instant for the eye.
pub open spec fn clock(t: (int, int)) -> Seq<char> {
    formatted(t.0, t.1, "%Y-%m-%d %H:%M:%S"@)
}

/// An instant for the eye, to the second.
pub fn clock_text(t: &Timestamp) -> (r: String)
    ensures
        r@ == clock(t@),
{
    format_instant(t, "%Y-%m-%d %H:%M:%S")
}

/// An instant as RFC 3339 text.
pub fn rfc3339_of(t: &Timestamp) -> (r: String)
    ensures
        r@ == rfc3339(t@.0, t@.1),
        four_digit_year(t@) ==> rfc3339_read(r@) == good(t@),
{
    rfc3339_text(t)
}

// ---------------------------------------------------------------------------------------------
// Dates
// ---------------------------------------------------------------------------------------------
/// A day of the calendar.
#[derive(Debug, Clone, Copy, PartialEq, Eq, Structural)]
pub struct CivilDate {
    pub year: i32,
    pub month: u32,
    pub day: u32,
}

/// What `chrono::NaiveDate::parse_from_str` reads: the day, or an error text.
pub uninterp spec fn date_read(text: Seq<char>, pattern: Seq<char>) -> Result<CivilDate, Seq<char>>;

/// The seconds since the epoch at a local time, where `chrono::TimeZone::with_ymd_and_hms` maps
/// it to a single instant.
pub uninterp spec fn local_time(
    zone: Seq<char>,
    year: int,
    month: int,
    day: int,
    hour: int,
    minute: int,
    second: int,
) -> Option<int>;

/// Calls `chrono::NaiveDate::parse_from_str`. The contract names the result, and states that the
/// numbers of a day lie in the ranges that a calendar gives them.
#[verifier::external_body]
pub(crate) fn parse_date(text: &str, pattern: &str) -> (r: Result<CivilDate, String>)
    ensures
        match r {
            Ok(d) => date_read(text@, pattern@) == good(d) && 1 <= d.month
                <= 12 && 1 <= d.day <= 31,
            Err(e) => date_read(text@, pattern@) == bad::<CivilDate>(e@),
        },
{
    match chrono::NaiveDate::parse_from_str(text, pattern) {
        Ok(d) => Ok(
            CivilDate {
                year: chrono::Datelike::year(&d),
                month: chrono::Datelike::month(&d),
                day: chrono::Datelike::day(&d),
            },
        ),
        Err(error) => Err(error.to_string()),
    }
}

/// Calls `chrono::TimeZone::with_ymd_and_hms` of the time zone of that name, and
/// `chrono::MappedLocalTime::single` on what it returns. The contract names the result: no
/// instant where the local time does not exist or occurs twice. Such an instant falls on a whole
/// second within the range of instants.
#[verifier::external_body]
pub(crate) fn local_instant(
    zone: &str,
    date: CivilDate,
    hour: u32,
    minute: u32,
    second: u32,
) -> (r: Option<i64>)
    requires
        zone_known(zone@),
    ensures
        match r {
            Some(secs) => FIRST_SECOND <= secs <= LAST_SECOND && local_time(
                zone@,
                date.year as int,
                date.month as int,
                date.day as int,
                hour as int,
                minute as int,
                second as int,
            ) == Some(secs as int),
            None => local_time(
                zone@,
                date.year as int,
                date.month as int,
                date.day as int,
                hour as int,
                minute as int,
                second as int,
            ) is None,
        },
{
    let tz = chrono_tz::Tz::from_str(zone).unwrap();
    chrono::TimeZone::with_ymd_and_hms(&tz, date.year, date.month, date.day, hour, minute, second)
        .single()
        .map(|instant| instant.timestamp())
}

/// The year of a date: four digits, or a sign and at least four digits.
pub open spec fn year_digits(year: int) -> Seq<char> {
    if 0 <= year <= 9999 {
        zero_padded(year as nat, 4)
    } else if year < 0 {
        "-"@ + zero_padded((-year) as nat, 4)
    } else {
        "+"@ + zero_padded(year as nat, 4)
    }
}

/// A date as year, month and day.
pub open spec fn date_digits(d: CivilDate) -> Seq<char> {
    year_digits(d.year as int) + "-"@ + zero_padded(d.month as nat, 2) + "-"@ + zero_padded(
        d.day as nat,
        2,
    )
}

fn year_text(year: i32) -> (r: String)
    ensures
        r@ == year_digits(year as int),
{
    let wide: i64 = year as i64;
    if wide < 0 {
        concat("-", &zero_padded_text((-wide) as u64, 4))
    } else if wide > 9999 {
        concat("+", &zero_padded_text(wide as u64, 4))
    } else {
        zero_padded_text(wide as u64, 4)
    }
}

/// A date as year, month and day.
pub fn date_text(d: CivilDate) -> (r: String)
    ensures
        r@ == date_digits(d),
{
    concat5(
        &year_text(d.year),
        "-",
        &zero_padded_text(d.month as u64, 2),
        "-",
        &zero_padded_text(d.day as u64, 2),
    )
}

} // verus!
