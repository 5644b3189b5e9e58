use vstd::prelude::*;

verus! {

/// A point in time in UTC, as `chrono::DateTime<Utc>` holds it: whole seconds
/// since 1970-01-01T00:00:00Z and the nanoseconds past them.
#[derive(Clone, Copy, Debug, PartialEq, Eq, Structural)]
pub struct UtcDateTime {
    pub secs: i64,
    pub nanos: u32,
}

/// A point in time with a fixed offset from UTC, as
/// `chrono::DateTime<FixedOffset>` holds it: the instant in UTC and the offset
/// east of UTC in seconds.
#[derive(Clone, Copy, Debug, PartialEq, Eq, Structural)]
pub struct OffsetDateTime {
    pub secs: i64,
    pub nanos: u32,
    pub offset: i32,
}

/// A signed span of time, as `chrono::Duration` holds it: whole seconds
/// and the nanoseconds past them (`0 <= nanos < 1_000_000_000`).
#[derive(Clone, Copy, Debug, PartialEq, Eq, Structural)]
pub struct TimeDelta {
    pub secs: i64,
    pub nanos: u32,
}

/// The instant of a point in time, in nanoseconds since the epoch.
pub open spec fn instant_nanos(secs: i64, nanos: u32) -> int {
    secs * 1_000_000_000 + nanos
}

impl OffsetDateTime {
    pub open spec fn instant(self) -> int {
        instant_nanos(self.secs, self.nanos)
    }

    /// Two points in time are equal when they are the same instant, whatever
    /// their offsets (`PartialEq` of `chrono::DateTime`).
    pub fn same_instant(&self, other: &OffsetDateTime) -> (r: bool)
        ensures
            r == (self.secs == other.secs && self.nanos == other.nanos),
    {
        self.secs == other.secs && self.nanos == other.nanos
    }

    /// The same instant in UTC (`with_timezone(&Utc)`).
    pub fn to_utc(&self) -> (r: UtcDateTime)
        ensures
            r.secs == self.secs,
            r.nanos == self.nanos,
    {
        UtcDateTime { secs: self.secs, nanos: self.nanos }
    }
}

impl TimeDelta {
    pub open spec fn total_nanos(self) -> int {
        instant_nanos(self.secs, self.nanos)
    }
}

} // verus!

verus! {

/// What `chrono` displays for the point in time `secs`, `nanos` (UTC) at the
/// offset `offset`; none when `chrono` has no such point in time or offset.
pub uninterp spec fn datetime_text(secs: i64, nanos: u32, offset: i32) -> Option<Seq<char>>;

/// `chrono`'s `Display` of a `DateTime<FixedOffset>` (as in
/// "2020-03-06 00:00:00 +09:00"), made from the instant and the offset with
/// `FixedOffset::east_opt` and `DateTime::from_timestamp`; none when those do
/// not accept them. The text is named, not stated.
#[verifier::external_body]
fn display_datetime(secs: i64, nanos: u32, offset: i32) -> (r: Option<String>)
    ensures
        r.deep_view() == datetime_text(secs, nanos, offset),
{
    let tz = chrono::FixedOffset::east_opt(offset)?;
    let dt = chrono::DateTime::from_timestamp(secs, nanos)?;
    Some(dt.with_timezone(&tz).to_string())
}

impl OffsetDateTime {
    /// The text of this point in time, as `chrono` displays it.
    pub fn to_display_string(&self) -> (r: Option<String>)
        ensures
            r.deep_view() == datetime_text(self.secs, self.nanos, self.offset),
    {
        display_datetime(self.secs, self.nanos, self.offset)
    }
}

} // verus!

verus! {

/// The date of a point in time at its offset, as `chrono` formats it with
/// "%Y/%m/%d"; none when `chrono` has no such point in time or offset.
pub uninterp spec fn date_text(secs: i64, nanos: u32, offset: i32) -> Option<Seq<char>>;

/// `chrono`'s `DateTime::format("%Y/%m/%d")` of a `DateTime<FixedOffset>`,
/// made as in `display_datetime`. The text is named, not stated.
#[verifier::external_body]
fn format_date(secs: i64, nanos: u32, offset: i32) -> (r: Option<String>)
    ensures
        r.deep_view() == date_text(secs, nanos, offset),
{
    let tz = chrono::FixedOffset::east_opt(offset)?;
    let dt = chrono::DateTime::from_timestamp(secs, nanos)?;
    Some(dt.with_timezone(&tz).format("%Y/%m/%d").to_string())
}

impl OffsetDateTime {
    /// The date of this point in time at its offset, "yyyy/mm/dd".
    pub fn to_date_string(&self) -> (r: Option<String>)
        ensures
            r.deep_view() == date_text(self.secs, self.nanos, self.offset),
    {
        format_date(self.secs, self.nanos, self.offset)
    }
}

} // verus!
