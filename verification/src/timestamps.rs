//! Reading the time bounds of history backfills and backtest signals.
use vstd::prelude::*;
use crate::error::RouteError;
use crate::replies::{parse_i64_text, std_parse_i64};

verus! {

/// An instant in UTC: whole seconds since the Unix epoch and the nanoseconds
/// past that second.
#[derive(PartialEq, Eq, Structural, Clone, Copy, Debug)]
pub struct UtcInstant {
    pub seconds: i64,
    pub nanos: u32,
}

/// The instant that `chrono::DateTime::parse_from_rfc3339` reads from `s`, in UTC.
pub uninterp spec fn rfc3339_instant(s: Seq<char>) -> Option<UtcInstant>;

/// Whether `chrono::DateTime::from_timestamp` accepts this many seconds (it
/// refuses seconds outside its calendar's range).
pub uninterp spec fn seconds_in_range(secs: i64) -> bool;

/// The day number, counted from 1970-01-01 as day 0 (`NaiveDate::to_epoch_days`),
/// of the date that `chrono::NaiveDate::parse_from_str` reads from `s` with the
/// format `fmt`.
pub uninterp spec fn date_epoch_days(s: Seq<char>, fmt: Seq<char>) -> Option<i32>;

/// Midnight UTC of the date read from `s` with the format `fmt`: its day
/// number times the 86400 seconds of a day.
pub open spec fn date_midnight(s: Seq<char>, fmt: Seq<char>) -> Option<UtcInstant> {
    match date_epoch_days(s, fmt) {
        Some(days) => Some(UtcInstant { seconds: (days * 86400) as i64, nanos: 0 }),
        None => None,
    }
}

/// The instant that chrono's `FromStr` for `DateTime<Utc>` reads from `s`.
pub uninterp spec fn utc_from_str(s: Seq<char>) -> Option<UtcInstant>;

/// Calls `chrono::DateTime::parse_from_rfc3339` and turns the result into UTC
/// seconds and nanoseconds; which texts it accepts is left to the name.
#[verifier::external_body]
fn parse_rfc3339(s: &str) -> (r: Option<UtcInstant>)
    ensures
        r == rfc3339_instant(s@),
{
    match chrono::DateTime::parse_from_rfc3339(s) {
        Ok(dt) => {
            let u = dt.with_timezone(&chrono::Utc);
            Some(UtcInstant { seconds: u.timestamp(), nanos: u.timestamp_subsec_nanos() })
        },
        Err(_) => None,
    }
}

/// Calls `chrono::DateTime::from_timestamp(secs, 0)`. chrono documents that the
/// result round-trips through `timestamp` and `timestamp_subsec_nanos`, so an
/// accepted value is `secs` seconds and no nanoseconds; the accepted range is
/// left to the name.
#[verifier::external_body]
fn instant_from_seconds(secs: i64) -> (r: Option<UtcInstant>)
    ensures
        r == if seconds_in_range(secs) {
            Some(UtcInstant { seconds: secs, nanos: 0 })
        } else {
            None
        },
{
    match chrono::DateTime::from_timestamp(secs, 0) {
        Some(u) => Some(UtcInstant { seconds: u.timestamp(), nanos: u.timestamp_subsec_nanos() }),
        None => None,
    }
}

/// Calls `chrono::NaiveDate::parse_from_str(s, fmt)` and hands out the date's
/// `to_epoch_days`; which texts it accepts, and which day they name, is left
/// to the name.
#[verifier::external_body]
fn parse_date_days(s: &str, fmt: &str) -> (r: Option<i32>)
    ensures
        r == date_epoch_days(s@, fmt@),
{
    match chrono::NaiveDate::parse_from_str(s, fmt) {
        Ok(d) => Some(d.to_epoch_days()),
        Err(_) => None,
    }
}

/// Midnight UTC of the date read from `s` with the format `fmt`.
fn parse_date_midnight(s: &str, fmt: &str) -> (r: Option<UtcInstant>)
    ensures
        r == date_midnight(s@, fmt@),
{
    match parse_date_days(s, fmt) {
        Some(days) => {
            let secs: i64 = (days as i64) * 86400;
            Some(UtcInstant { seconds: secs, nanos: 0 })
        },
        None => None,
    }
}

/// Calls `str::parse::<chrono::DateTime<chrono::Utc>>`; which texts it accepts
/// is left to the name.
#[verifier::external_body]
fn parse_utc(s: &str) -> (r: Option<UtcInstant>)
    ensures
        r == utc_from_str(s@),
{
    match s.parse::<chrono::DateTime<chrono::Utc>>() {
        Ok(u) => Some(UtcInstant { seconds: u.timestamp(), nanos: u.timestamp_subsec_nanos() }),
        Err(_) => None,
    }
}

/// Reads the clock with `std::time::SystemTime::now()` and measures it from
/// `UNIX_EPOCH` with `duration_since`, handing out the whole seconds and the
/// sub-second nanoseconds of the `Duration`, which std documents as below one
/// billion; a clock set before the epoch gives `None`. Which instant it reads
/// is not stated: it depends on the machine's clock.
#[verifier::external_body]
fn clock_since_epoch() -> (r: Option<(u64, u32)>)
    ensures
        r matches Some(p) ==> p.1 < 1_000_000_000,
{
    match std::time::SystemTime::now().duration_since(std::time::UNIX_EPOCH) {
        Ok(d) => Some((d.as_secs(), d.subsec_nanos())),
        Err(_) => None,
    }
}

/// The instant a clock reading since the epoch names: whole seconds and
/// nanoseconds, when the seconds fit in an `i64`; no instant for no reading.
pub fn instant_from_clock(reading: Option<(u64, u32)>) -> (r: Option<UtcInstant>)
    ensures
        r == clock_instant(reading),
{
    match reading {
        Some((secs, nanos)) => {
            if secs <= 9_223_372_036_854_775_807u64 {
                Some(UtcInstant { seconds: secs as i64, nanos })
            } else {
                None
            }
        },
        None => None,
    }
}

/// The current instant in UTC, or `None` when the clock reads before 1970 or
/// beyond what `i64` seconds can hold; a present instant is at or after the
/// epoch, with fewer than a billion nanoseconds. Which instant it is depends on
/// the clock.
pub fn utc_now() -> (r: Option<UtcInstant>)
    ensures
        r matches Some(t) ==> 0 <= t.seconds && t.nanos < 1_000_000_000,
        exists|reading: Option<(u64, u32)>| r == #[trigger] clock_instant(reading),
{
    let reading = clock_since_epoch();
    let r = instant_from_clock(reading);
    assert(r == clock_instant(reading));
    r
}

/// The instant that `instant_from_clock` gives for a reading.
pub open spec fn clock_instant(reading: Option<(u64, u32)>) -> Option<UtcInstant> {
    match reading {
        Some(p) => if p.0 <= i64::MAX {
            Some(UtcInstant { seconds: p.0 as i64, nanos: p.1 })
        } else {
            None
        },
        None => None,
    }
}

/// The hour of the day, in UTC, of an instant `seconds` after the epoch: the
/// seconds into its day (counted from the day's start, also before 1970),
/// in whole hours.
pub open spec fn spec_hour_of_day(seconds: int) -> int {
    (seconds % 86400) / 3600
}

/// The hour of the day of an instant in UTC, 0 to 23.
pub fn hour_of_day(t: UtcInstant) -> (h: u32)
    ensures
        h == spec_hour_of_day(t.seconds as int),
        h < 24,
{
    let r: i64 = t.seconds % 86400;
    let r: i64 = if r < 0 { r + 86400 } else { r };
    (r / 3600) as u32
}

/// `a / b` rounded toward zero, for a positive `b`.
pub open spec fn div_toward_zero(a: int, b: int) -> int {
    if a >= 0 {
        a / b
    } else {
        -((-a) / b)
    }
}

/// The first reading of a backfill bound that works: RFC 3339, then a count of
/// milliseconds (taken in whole seconds), then a `YYYY-MM-DD` date at midnight.
pub open spec fn spec_pick_timestamp(
    rfc: Option<UtcInstant>,
    from_millis: Option<UtcInstant>,
    date: Option<UtcInstant>,
) -> Option<UtcInstant> {
    if rfc is Some {
        rfc
    } else if from_millis is Some {
        from_millis
    } else {
        date
    }
}

/// The instant a bound's text names, given what each reading of it gave; an
/// error naming the text when none worked.
pub fn pick_timestamp(
    text: &str,
    rfc: Option<UtcInstant>,
    from_millis: Option<UtcInstant>,
    date: Option<UtcInstant>,
) -> (r: Result<UtcInstant, String>)
    ensures
        match spec_pick_timestamp(rfc, from_millis, date) {
            Some(i) => r == Ok::<UtcInstant, String>(i),
            None => r matches Err(m) && m@ == "Cannot parse timestamp: "@ + text@,
        },
{
    match rfc {
        Some(i) => Ok(i),
        None => match from_millis {
            Some(i) => Ok(i),
            None => match date {
                Some(i) => Ok(i),
                None => {
                    let mut m = String::from_str("Cannot parse timestamp: ");
                    m.append(text);
                    Err(m)
                },
            },
        },
    }
}

/// The bound that `parse_to_timestamp` reads from `s`, if any.
pub open spec fn bound_of(s: Seq<char>) -> Option<UtcInstant> {
    spec_pick_timestamp(rfc3339_instant(s), millis_instant(s), date_midnight(s, "%Y-%m-%d"@))
}

/// The two bounds of a backfill, `from` first: a bound that cannot be read is
/// refused as `Invalid from: ` (or `Invalid to: `) and the reading error.
pub fn backfill_bounds(from: &str, to: &str) -> (r: Result<(UtcInstant, UtcInstant), RouteError>)
    ensures
        match (bound_of(from@), bound_of(to@)) {
            (Some(a), Some(b)) => r == Ok::<(UtcInstant, UtcInstant), RouteError>((a, b)),
            (None, _) => r matches Err(RouteError::Validation(m)) && m@ == "Invalid from: "@
                + "Cannot parse timestamp: "@ + from@,
            (Some(_), None) => r matches Err(RouteError::Validation(m)) && m@ == "Invalid to: "@
                + "Cannot parse timestamp: "@ + to@,
        },
{
    let a = match parse_to_timestamp(from) {
        Ok(a) => a,
        Err(e) => {
            let mut m = String::from_str("Invalid from: ");
            m.append(e.as_str());
            return Err(RouteError::Validation(m));
        },
    };
    let b = match parse_to_timestamp(to) {
        Ok(b) => b,
        Err(e) => {
            let mut m = String::from_str("Invalid to: ");
            m.append(e.as_str());
            return Err(RouteError::Validation(m));
        },
    };
    Ok((a, b))
}

/// What reading a bound as milliseconds gives.
pub open spec fn millis_instant(s: Seq<char>) -> Option<UtcInstant> {
    match std_parse_i64(s) {
        Some(ms) => {
            let secs = div_toward_zero(ms as int, 1000) as i64;
            if seconds_in_range(secs) {
                Some(UtcInstant { seconds: secs, nanos: 0 })
            } else {
                None
            }
        },
        None => None,
    }
}

/// The instant a backfill bound names: an RFC 3339 time, a count of
/// milliseconds since the epoch (whole seconds kept), or a `YYYY-MM-DD` date
/// at midnight UTC, tried in that order.
pub fn parse_to_timestamp(s: &str) -> (r: Result<UtcInstant, String>)
    ensures
        match spec_pick_timestamp(
            rfc3339_instant(s@),
            millis_instant(s@),
            date_midnight(s@, "%Y-%m-%d"@),
        ) {
            Some(i) => r == Ok::<UtcInstant, String>(i),
            None => r matches Err(m) && m@ == "Cannot parse timestamp: "@ + s@,
        },
{
    let rfc = parse_rfc3339(s);
    let from_millis = match parse_i64_text(s) {
        Some(ms) => instant_from_seconds(ms / 1000),
        None => None,
    };
    let date = parse_date_midnight(s, "%Y-%m-%d");
    pick_timestamp(s, rfc, from_millis, date)
}

/// The instant a signal's time names: an RFC 3339 time, else any time
/// chrono reads as UTC; a validation error otherwise.
pub fn parse_iso_dt(s: &str) -> (r: Result<UtcInstant, RouteError>)
    ensures
        match rfc3339_instant(s@) {
            Some(i) => r == Ok::<UtcInstant, RouteError>(i),
            None => match utc_from_str(s@) {
                Some(i) => r == Ok::<UtcInstant, RouteError>(i),
                None => r matches Err(RouteError::Validation(m)) && m@ == "invalid datetime: "@ + s@,
            },
        },
{
    match parse_rfc3339(s) {
        Some(i) => Ok(i),
        None => match parse_utc(s) {
            Some(i) => Ok(i),
            None => {
                let mut m = String::from_str("invalid datetime: ");
                m.append(s);
                Err(RouteError::Validation(m))
            },
        },
    }
}

/// A backfill that reported errors is partial; one without is completed.
pub fn backfill_status(error_count: usize) -> (s: &'static str)
    ensures
        s@ == if error_count == 0 {
            "completed"@
        } else {
            "partial"@
        },
{
    if error_count == 0 {
        "completed"
    } else {
        "partial"
    }
}

} // verus!

verus! {

/// `a` comes before `b`.
pub open spec fn before(a: UtcInstant, b: UtcInstant) -> bool {
    a.seconds < b.seconds || (a.seconds == b.seconds && a.nanos < b.nanos)
}

fn is_before(a: UtcInstant, b: UtcInstant) -> (r: bool)
    ensures
        r == before(a, b),
{
    a.seconds < b.seconds || (a.seconds == b.seconds && a.nanos < b.nanos)
}

/// A backtest or walk-forward window must end after it starts.
pub fn check_window_after(start: UtcInstant, end: UtcInstant) -> (r: Result<(), RouteError>)
    ensures
        r is Ok <==> before(start, end),
        r is Err ==> (r matches Err(RouteError::Validation(m)) && m@
            == "end_time must be after start_time"@),
{
    if !is_before(start, end) {
        Err(RouteError::Validation(String::from_str("end_time must be after start_time")))
    } else {
        Ok(())
    }
}

/// A data-quality window may end when it starts, not before.
pub fn check_window_not_reversed(start: UtcInstant, end: UtcInstant) -> (r: Result<(), RouteError>)
    ensures
        r is Ok <==> !before(end, start),
        r is Err ==> (r matches Err(RouteError::Validation(m)) && m@
            == "end_time must be >= start_time"@),
{
    if is_before(end, start) {
        Err(RouteError::Validation(String::from_str("end_time must be >= start_time")))
    } else {
        Ok(())
    }
}

/// The windows of a walk-forward validation, in days.
#[derive(PartialEq, Eq, Structural, Clone, Copy, Debug)]
pub struct WalkForwardDays {
    pub train_window_days: i64,
    pub test_window_days: i64,
    pub step_days: i64,
    pub purge_days: i64,
    pub embargo_days: i64,
}

/// The walk-forward windows a request asks for: 90 days of training, 30 of
/// testing, steps of 30, and one day of purge and of embargo by default.
pub fn walk_forward_days(
    train: Option<i64>,
    test: Option<i64>,
    step: Option<i64>,
    purge: Option<i64>,
    embargo: Option<i64>,
) -> (w: WalkForwardDays)
    ensures
        w.train_window_days == match train { Some(x) => x, None => 90 },
        w.test_window_days == match test { Some(x) => x, None => 30 },
        w.step_days == match step { Some(x) => x, None => 30 },
        w.purge_days == match purge { Some(x) => x, None => 1 },
        w.embargo_days == match embargo { Some(x) => x, None => 1 },
{
    WalkForwardDays {
        train_window_days: match train { Some(x) => x, None => 90 },
        test_window_days: match test { Some(x) => x, None => 30 },
        step_days: match step { Some(x) => x, None => 30 },
        purge_days: match purge { Some(x) => x, None => 1 },
        embargo_days: match embargo { Some(x) => x, None => 1 },
    }
}

} // verus!
