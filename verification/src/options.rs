use vstd::prelude::*;
use crate::datetime::{OffsetDateTime, TimeDelta};

verus! {

/// The offset of Japan Standard Time, at which dates on the command line are
/// read: nine hours east of UTC.
pub const JST_OFFSET: i32 = 32400;

/// The seconds of the day the gathering starts by default: 2007/03/06
/// 00:00 at +09:00, when the video service began.
pub const DEFAULT_SINCE_SECS: i64 = 1_173_106_800;

/// The span read at a time by default: one week, in seconds.
pub const DEFAULT_SPAN_SECS: i64 = 604_800;

/// The start of the gathering by default: 2007/03/06 00:00 at +09:00.
pub open spec fn default_since() -> OffsetDateTime {
    OffsetDateTime { secs: DEFAULT_SINCE_SECS, nanos: 0, offset: JST_OFFSET }
}

/// The span read at a time by default: one week.
pub open spec fn default_span() -> TimeDelta {
    TimeDelta { secs: DEFAULT_SPAN_SECS, nanos: 0 }
}

/// The seconds since the epoch of midnight of the day that `text` gives as
/// "yyyy/mm/dd" (chrono's `NaiveDate::parse_from_str` with "%Y/%m/%d"), at
/// the offset `offset`; none when the text is no such date or the offset is
/// not one that chrono accepts.
pub uninterp spec fn local_midnight_of(text: Seq<char>, offset: i32) -> Option<i64>;

/// Midnight of the day that `text` gives as "yyyy/mm/dd", at `offset`:
/// chrono's `FixedOffset::east_opt`, `NaiveDate::parse_from_str(text,
/// "%Y/%m/%d")`, `and_hms_opt(0, 0, 0)` and `and_local_timezone` (a fixed
/// offset gives one time). The claim is that the result is none exactly
/// when the named value is none, that its seconds are the named value, and
/// that it is at `offset` with no nanoseconds, as midnight has none. Which
/// texts chrono reads as dates is named, not stated.
#[verifier::external_body]
fn parse_local_midnight(text: &str, offset: i32) -> (r: Option<OffsetDateTime>)
    ensures
        r is None <==> local_midnight_of(text@, offset) is None,
        r matches Some(d) ==> local_midnight_of(text@, offset) == Some(d.secs) && d.nanos == 0 && d.offset
            == offset,
{
    let tz = chrono::FixedOffset::east_opt(offset)?;
    let date = chrono::NaiveDate::parse_from_str(text, "%Y/%m/%d").ok()?;
    let dt = date.and_hms_opt(0, 0, 0)?.and_local_timezone(tz).single()?;
    Some(OffsetDateTime { secs: dt.timestamp(), nanos: dt.timestamp_subsec_nanos(), offset })
}

/// The span that `parse_duration::parse` reads from `text` (such as
/// "1week" or "604800 s 0 ns"), as whole seconds and the nanoseconds below
/// one second; none when it reads no span.
pub uninterp spec fn span_of_text(text: Seq<char>) -> Option<(u64, u32)>;

/// `parse_duration::parse`: the claim is that the result is none exactly
/// when the named value is none and is the named value otherwise, its
/// nanoseconds below one second, as a `std::time::Duration` holds them.
/// Which texts it reads, and as what, is named, not stated.
#[verifier::external_body]
fn parse_span_text(text: &str) -> (r: Option<(u64, u32)>)
    ensures
        r == span_of_text(text@),
        r matches Some((s, n)) ==> n < 1_000_000_000,
{
    match parse_duration::parse(text) {
        Ok(d) => Some((d.as_secs(), d.subsec_nanos())),
        Err(_) => None,
    }
}

/// The largest span that chrono's `TimeDelta` holds: `i64::MAX`
/// milliseconds, that is 9 223 372 036 854 775 seconds and 807 000 000
/// nanoseconds.
pub open spec fn chrono_span_fits(secs: u64, nanos: u32) -> bool {
    secs < 9_223_372_036_854_775 || (secs == 9_223_372_036_854_775 && nanos <= 807_000_000)
}

/// chrono's `TimeDelta::from_std` of the `std::time::Duration` of `secs`
/// seconds and `nanos` nanoseconds: the claim, from its source, is that it
/// fails exactly when the span is larger than the largest `TimeDelta`, and
/// otherwise keeps the seconds and the nanoseconds.
#[verifier::external_body]
fn chrono_span_from_std(secs: u64, nanos: u32) -> (r: Option<TimeDelta>)
    requires
        nanos < 1_000_000_000,
    ensures
        r is Some <==> chrono_span_fits(secs, nanos),
        r matches Some(t) ==> t.secs == secs && t.nanos == nanos,
{
    match chrono::Duration::from_std(std::time::Duration::new(secs, nanos)) {
        Ok(d) => Some(TimeDelta { secs: d.num_seconds(), nanos: d.subsec_nanos() as u32 }),
        Err(_) => None,
    }
}

/// Why the command line of a run was refused.
#[derive(Clone, Copy, Debug, PartialEq, Eq, Structural)]
pub enum OptionError {
    /// The start date is no "yyyy/mm/dd" date.
    Since,
    /// The end date is no "yyyy/mm/dd" date.
    Until,
    /// The span is no span that the span parser reads.
    Duration,
    /// The span is larger than chrono's largest span.
    DurationOutOfRange,
}

/// A date given on the command line, read at +09:00.
pub open spec fn date_option(text: Option<Seq<char>>) -> Result<Option<OffsetDateTime>, ()> {
    match text {
        None => Ok(None),
        Some(t) => match local_midnight_of(t, JST_OFFSET) {
            None => Err(()),
            Some(secs) => Ok(Some(OffsetDateTime { secs, nanos: 0, offset: JST_OFFSET })),
        },
    }
}

/// A span given on the command line.
pub open spec fn span_option(text: Option<Seq<char>>) -> Result<Option<TimeDelta>, OptionError> {
    match text {
        None => Ok(None),
        Some(t) => match span_of_text(t) {
            None => Err(OptionError::Duration),
            Some((s, n)) => if chrono_span_fits(s, n) {
                Ok(Some(TimeDelta { secs: s as i64, nanos: n }))
            } else {
                Err(OptionError::DurationOutOfRange)
            },
        },
    }
}

/// The dates and the span of a run as read from the command line, each
/// none when not given.
#[derive(Clone, Copy, Debug, PartialEq, Eq, Structural)]
pub struct RunOptions {
    pub since: Option<OffsetDateTime>,
    pub until: Option<OffsetDateTime>,
    pub duration: Option<TimeDelta>,
}

/// How the texts of the start date, the end date and the span are read, in
/// that order; the first one refused gives the error.
pub open spec fn run_options_of(
    since: Option<Seq<char>>,
    until: Option<Seq<char>>,
    duration: Option<Seq<char>>,
) -> Result<RunOptions, OptionError> {
    match date_option(since) {
        Err(_) => Err(OptionError::Since),
        Ok(s) => match date_option(until) {
            Err(_) => Err(OptionError::Until),
            Ok(u) => match span_option(duration) {
                Err(e) => Err(e),
                Ok(d) => Ok(RunOptions { since: s, until: u, duration: d }),
            },
        },
    }
}

/// The views of optional string slices.
pub open spec fn opt_view(t: Option<&str>) -> Option<Seq<char>> {
    match t {
        None => None,
        Some(s) => Some(s@),
    }
}

fn read_date(text: Option<&str>) -> (r: Result<Option<OffsetDateTime>, ()>)
    ensures
        r == date_option(opt_view(text)),
{
    match text {
        None => Ok(None),
        Some(t) => match parse_local_midnight(t, JST_OFFSET) {
            None => Err(()),
            Some(d) => Ok(Some(d)),
        },
    }
}

fn read_span(text: Option<&str>) -> (r: Result<Option<TimeDelta>, OptionError>)
    ensures
        r == span_option(opt_view(text)),
        r matches Ok(Some(d)) ==> d.secs >= 0 && d.nanos < 1_000_000_000,
{
    match text {
        None => Ok(None),
        Some(t) => match parse_span_text(t) {
            None => Err(OptionError::Duration),
            Some((s, n)) => match chrono_span_from_std(s, n) {
                None => Err(OptionError::DurationOutOfRange),
                Some(d) => Ok(Some(d)),
            },
        },
    }
}

/// Reads the start date, the end date and the span of a whole run from
/// their texts on the command line ("yyyy/mm/dd" at +09:00, and a span such
/// as "1week"); none of them has a default.
pub fn run_options(since: Option<&str>, until: Option<&str>, duration: Option<&str>) -> (r: Result<
    RunOptions,
    OptionError,
>)
    ensures
        r == run_options_of(opt_view(since), opt_view(until), opt_view(duration)),
        r matches Ok(o) ==> (o.duration matches Some(d) ==> d.secs >= 0 && d.nanos < 1_000_000_000),
        r matches Ok(o) ==> (o.since matches Some(s) ==> s.nanos == 0),
        r matches Ok(o) ==> (o.until matches Some(u) ==> u.nanos == 0),
{
    let s = match read_date(since) {
        Err(_) => return Err(OptionError::Since),
        Ok(s) => s,
    };
    let u = match read_date(until) {
        Err(_) => return Err(OptionError::Until),
        Ok(u) => u,
    };
    let d = match read_span(duration) {
        Err(e) => return Err(e),
        Ok(d) => d,
    };
    Ok(RunOptions { since: s, until: u, duration: d })
}

/// The dates and the span of the gathering program.
#[derive(Clone, Copy, Debug, PartialEq, Eq, Structural)]
pub struct GatheringOptions {
    pub since: OffsetDateTime,
    pub until: Option<OffsetDateTime>,
    pub duration: TimeDelta,
}

/// Reads the options of the gathering program from their texts on the
/// command line, as `run_options` does; the start defaults to 2007/03/06
/// at +09:00 and the span to one week.
pub fn gathering_options(since: Option<&str>, until: Option<&str>, duration: Option<&str>) -> (r: Result<
    GatheringOptions,
    OptionError,
>)
    ensures
        match (r, run_options_of(opt_view(since), opt_view(until), opt_view(duration))) {
            (Err(a), Err(b)) => a == b,
            (Ok(g), Ok(o)) => {
                &&& g.since == (match o.since {
                    None => default_since(),
                    Some(s) => s,
                })
                &&& g.until == o.until
                &&& g.duration == (match o.duration {
                    None => default_span(),
                    Some(d) => d,
                })
            },
            _ => false,
        },
        r matches Ok(g) ==> g.since.nanos == 0 && g.duration.secs >= 0 && g.duration.nanos < 1_000_000_000,
{
    match run_options(since, until, duration) {
        Err(e) => Err(e),
        Ok(o) => {
            let since = match o.since {
                None => OffsetDateTime { secs: DEFAULT_SINCE_SECS, nanos: 0, offset: JST_OFFSET },
                Some(s) => s,
            };
            let duration = match o.duration {
                None => TimeDelta { secs: DEFAULT_SPAN_SECS, nanos: 0 },
                Some(d) => d,
            };
            Ok(GatheringOptions { since, until: o.until, duration })
        },
    }
}

} // verus!
