use vstd::prelude::*;
use crate::datetime::{instant_nanos, OffsetDateTime, TimeDelta, UtcDateTime};
use crate::duration::Duration;
use crate::records::NewVideoInfo;
use crate::filter_json::{FilterJson, RangeFilter};
use crate::query_params::{str_views, QueryParams, RankingSorting, SortingWithOrder};
use crate::text::string_views;

verus! {

/// What to do after a request failed.
#[derive(Clone, Copy, Debug, PartialEq, Eq, Structural)]
pub enum RetryWait {
    /// A known server error: wait this many minutes, then try again.
    ServerError(i64),
    /// Another status: wait this many minutes, then try again.
    UnknownStatus(i64),
    /// No status came: try again at once.
    Immediately,
}

/// The server errors that are waited out the longer time: 500 to 508, 510
/// and 511.
pub open spec fn is_known_5xx(code: u16) -> bool {
    (500 <= code <= 508) || code == 510 || code == 511
}

/// How long to wait before trying a failed request again: a known server
/// error waits `minutes_for_wait_5xx`, any other status
/// `minutes_for_wait_unknown`, and an error without a status not at all.
pub fn retry_wait(status: Option<u16>, minutes_for_wait_5xx: i64, minutes_for_wait_unknown: i64) -> (r:
    RetryWait)
    ensures
        r == match status {
            None => RetryWait::Immediately,
            Some(code) => if is_known_5xx(code) {
                RetryWait::ServerError(minutes_for_wait_5xx)
            } else {
                RetryWait::UnknownStatus(minutes_for_wait_unknown)
            },
        },
{
    match status {
        None => RetryWait::Immediately,
        Some(code) => {
            if (500 <= code && code <= 508) || code == 510 || code == 511 {
                RetryWait::ServerError(minutes_for_wait_5xx)
            } else {
                RetryWait::UnknownStatus(minutes_for_wait_unknown)
            }
        },
    }
}

/// The largest offset that a search accepts.
pub const MAX_OFFSET: u32 = 100_000;

/// The progress of fetching the videos of one period: how many were
/// received, how many the server counts, and how many requests were made.
#[derive(Clone, Copy, Debug, PartialEq, Eq, Structural)]
pub struct FetchProgress {
    pub got: u32,
    pub full_count: u32,
    pub loop_counter: u32,
}

impl FetchProgress {
    /// Nothing received; at least one video is expected until the server
    /// says how many there are.
    pub fn new() -> (r: FetchProgress)
        ensures
            r == (FetchProgress { got: 0, full_count: 1, loop_counter: 0 }),
    {
        FetchProgress { got: 0, full_count: 1, loop_counter: 0 }
    }

    /// Whether more videos are expected.
    pub fn wants_more(&self) -> (r: bool)
        ensures
            r == (self.got < self.full_count),
    {
        self.got < self.full_count
    }

    /// Whether the snapshot version is checked before this request: before
    /// every hundredth request.
    pub fn needs_version_check(&self) -> (r: bool)
        ensures
            r == (self.loop_counter % 100 == 99),
    {
        self.loop_counter % 100 == 100 - 1
    }

    /// Counts a request and gives its offset, the number of videos received
    /// so far; none when that is past `MAX_OFFSET`.
    pub fn begin_request(&mut self) -> (r: Option<u32>)
        requires
            old(self).loop_counter < u32::MAX,
        ensures
            final(self).loop_counter == old(self).loop_counter + 1,
            final(self).got == old(self).got,
            final(self).full_count == old(self).full_count,
            r == if old(self).got <= MAX_OFFSET {
                Some(old(self).got)
            } else {
                None::<u32>
            },
    {
        self.loop_counter = self.loop_counter + 1;
        if self.got <= MAX_OFFSET {
            Some(self.got)
        } else {
            None
        }
    }

    /// Records a response of `len` videos from a server that counts
    /// `total_count`; whether the fetching is over because no video came.
    pub fn record_response(&mut self, len: usize, total_count: usize) -> (r: bool)
        requires
            old(self).got + (len as u32) <= u32::MAX,
        ensures
            final(self).got == old(self).got + (len as u32),
            final(self).full_count == total_count as u32,
            final(self).loop_counter == old(self).loop_counter,
            r == (len as u32 == 0),
    {
        let len: u32 = len as u32;
        self.full_count = total_count as u32;
        self.got = self.got + len;
        len == 0
    }
}

/// The end of a search range: the given one, or else the current time at
/// the offset of the start.
pub fn compute_until(until: Option<OffsetDateTime>, now: UtcDateTime, offset: i32) -> (r: OffsetDateTime)
    ensures
        r == match until {
            Some(u) => u,
            None => OffsetDateTime { secs: now.secs, nanos: now.nanos, offset },
        },
{
    match until {
        None => OffsetDateTime { secs: now.secs, nanos: now.nanos, offset },
        Some(u) => u,
    }
}

/// `t` moved on by `d`, at the same offset.
pub open spec fn spec_add(t: OffsetDateTime, d: TimeDelta) -> int {
    instant_nanos(t.secs, t.nanos) + d.total_nanos()
}

/// The point in time `d` after `t`, at `t`'s offset, its nanoseconds below
/// one second.
pub open spec fn moved(t: OffsetDateTime, d: TimeDelta) -> OffsetDateTime {
    if t.nanos + d.nanos >= 1_000_000_000 {
        OffsetDateTime {
            secs: (t.secs + d.secs + 1) as i64,
            nanos: (t.nanos + d.nanos - 1_000_000_000) as u32,
            offset: t.offset,
        }
    } else {
        OffsetDateTime { secs: (t.secs + d.secs) as i64, nanos: (t.nanos + d.nanos) as u32, offset: t.offset }
    }
}

/// The end of a period that starts at `start`: `per` later, or `until` when
/// that comes first.
pub open spec fn period_end(start: OffsetDateTime, until: OffsetDateTime, per: TimeDelta) -> OffsetDateTime {
    if until.instant() <= spec_add(start, per) {
        until
    } else {
        moved(start, per)
    }
}

/// The point in time `d` after `t`, at `t`'s offset.
pub fn add_delta(t: OffsetDateTime, d: TimeDelta) -> (r: OffsetDateTime)
    requires
        t.nanos < 1_000_000_000,
        d.nanos < 1_000_000_000,
        i64::MIN + 1 <= t.secs + d.secs <= i64::MAX - 1,
    ensures
        r == moved(t, d),
        r.instant() == spec_add(t, d),
        r.nanos < 1_000_000_000,
        r.offset == t.offset,
{
    let nanos = t.nanos + d.nanos;
    if nanos >= 1_000_000_000 {
        OffsetDateTime { secs: t.secs + d.secs + 1, nanos: nanos - 1_000_000_000, offset: t.offset }
    } else {
        OffsetDateTime { secs: t.secs + d.secs, nanos, offset: t.offset }
    }
}

/// Whether `a` is not after `b`.
pub fn not_after(a: &OffsetDateTime, b: &OffsetDateTime) -> (r: bool)
    requires
        a.nanos < 1_000_000_000,
        b.nanos < 1_000_000_000,
    ensures
        r == (a.instant() <= b.instant()),
{
    a.secs < b.secs || (a.secs == b.secs && a.nanos <= b.nanos)
}

/// The earlier of two points in time; the first when they are the same
/// instant (`std::cmp::min`).
pub fn earlier(a: OffsetDateTime, b: OffsetDateTime) -> (r: OffsetDateTime)
    requires
        a.nanos < 1_000_000_000,
        b.nanos < 1_000_000_000,
    ensures
        r == if a.instant() <= b.instant() {
            a
        } else {
            b
        },
{
    if not_after(&a, &b) {
        a
    } else {
        b
    }
}

/// A point in time whose arithmetic with `d` fits: nanoseconds below one
/// second and room for the seconds.
pub open spec fn steps_fit(t: OffsetDateTime, d: TimeDelta) -> bool {
    &&& t.nanos < 1_000_000_000
    &&& d.nanos < 1_000_000_000
    &&& i64::MIN + 1 <= t.secs + d.secs <= i64::MAX - 1
}

/// The first period of a search range: from the start to `per` later, or to
/// the end of the range when that comes first.
pub fn first_period(since: OffsetDateTime, until: OffsetDateTime, per: TimeDelta) -> (r: (
    OffsetDateTime,
    OffsetDateTime,
))
    requires
        steps_fit(since, per),
        until.nanos < 1_000_000_000,
    ensures
        r.0 == since,
        r.1 == period_end(since, until, per),
        r.1.instant() == if until.instant() <= spec_add(since, per) {
            until.instant()
        } else {
            spec_add(since, per)
        },
        r.1.nanos < 1_000_000_000,
{
    (since, earlier(until, add_delta(since, per)))
}

/// The period after the one that ended at `last_end`: from there to `per`
/// later, or to the end of the range when that comes first; none when it
/// would be shorter than one minute.
pub fn next_period(last_end: OffsetDateTime, until: OffsetDateTime, per: TimeDelta) -> (r: Option<
    (OffsetDateTime, OffsetDateTime),
>)
    requires
        steps_fit(last_end, per),
        until.nanos < 1_000_000_000,
        i64::MIN + 1 <= until.secs - last_end.secs <= i64::MAX - 1,
    ensures
        ({
            let end = if until.instant() <= spec_add(last_end, per) {
                until.instant()
            } else {
                spec_add(last_end, per)
            };
            &&& r is None <==> end - last_end.instant() < 60_000_000_000
            &&& r matches Some((a, b)) ==> a == last_end && b == period_end(last_end, until, per)
                && b.instant() == end && b.nanos < 1_000_000_000
        }),
{
    let end = earlier(until, add_delta(last_end, per));
    let secs_diff: i64 = end.secs - last_end.secs;
    let shorter = secs_diff < 60 || (secs_diff == 60 && end.nanos < last_end.nanos);
    if shorter {
        None
    } else {
        Some((last_end, end))
    }
}

/// The snapshot version of the search data.
#[derive(Clone, Copy, Debug)]
pub struct SnapshotVersion {
    pub last_modified: OffsetDateTime,
}

impl SnapshotVersion {
    /// Whether two versions are the same instant.
    pub fn same_as(&self, other: &SnapshotVersion) -> (r: bool)
        ensures
            r == (self.last_modified.secs == other.last_modified.secs
                && self.last_modified.nanos == other.last_modified.nanos),
    {
        self.last_modified.same_instant(&other.last_modified)
    }
}

/// How an attempt to read one period ends.
#[derive(Clone, Copy, Debug, PartialEq, Eq, Structural)]
pub enum AttemptEnd {
    /// The snapshot did not change while the period was read: the videos are
    /// sent with this version.
    Send(OffsetDateTime),
    /// The snapshot changed: the videos are dropped and the period is read
    /// again.
    Restart,
}

/// The end of an attempt, from the snapshot versions before and after it:
/// the videos are sent with the earlier version when both are the same
/// instant, else the period is read again.
pub fn end_attempt(pre: &SnapshotVersion, post: &SnapshotVersion) -> (r: AttemptEnd)
    ensures
        r == if pre.last_modified.secs == post.last_modified.secs && pre.last_modified.nanos
            == post.last_modified.nanos {
            AttemptEnd::Send(pre.last_modified)
        } else {
            AttemptEnd::Restart
        },
{
    if pre.same_as(post) {
        AttemptEnd::Send(pre.last_modified)
    } else {
        AttemptEnd::Restart
    }
}

/// The end of the gathered data is marked by a packet whose time is the
/// epoch at offset 0.
pub fn is_end_marker(last_modified: &OffsetDateTime) -> (r: bool)
    ensures
        r == (last_modified.offset == 0 && last_modified.secs == 0),
{
    last_modified.offset == 0 && last_modified.secs == 0
}

/// One video as the search API returns it; every field may be missing.
#[derive(Debug)]
pub struct VideoInfo {
    pub content_id: Option<String>,
    pub title: Option<String>,
    pub description: Option<String>,
    pub view_counter: Option<u32>,
    pub mylist_counter: Option<u32>,
    pub length_seconds: Option<Duration>,
    pub thumbnail_url: Option<String>,
    pub start_time: Option<OffsetDateTime>,
    pub last_res_body: Option<String>,
    pub comment_counter: Option<u32>,
    pub last_comment_time: Option<OffsetDateTime>,
    pub category_tags: Option<String>,
    pub tags: Option<Vec<String>>,
    pub genre: Option<String>,
}

/// The fields that a stored video cannot do without are present.
pub open spec fn complete(v: VideoInfo) -> bool {
    &&& v.content_id is Some
    &&& v.title is Some
    &&& v.view_counter is Some
    &&& v.mylist_counter is Some
    &&& v.length_seconds is Some
    &&& v.start_time is Some
    &&& v.comment_counter is Some
    &&& v.tags is Some
}

/// The stored form of a video of the snapshot `last_modified`, times in UTC;
/// none when a field that it cannot do without is missing.
pub fn to_new_video_info(last_modified: &OffsetDateTime, v: VideoInfo) -> (r: Option<NewVideoInfo>)
    ensures
        r is Some <==> complete(v),
        r matches Some(n) ==> {
            &&& n.last_modified.secs == last_modified.secs
            &&& n.last_modified.nanos == last_modified.nanos
            &&& Some(n.content_id) == v.content_id
            &&& Some(n.title) == v.title
            &&& n.description == v.description
            &&& Some(n.view_counter) == v.view_counter
            &&& Some(n.mylist_counter) == v.mylist_counter
            &&& Some(n.length_seconds) == v.length_seconds
            &&& n.thumbnail_url == v.thumbnail_url
            &&& v.start_time matches Some(st) && n.start_time.secs == st.secs && n.start_time.nanos
                == st.nanos
            &&& n.last_res_body == v.last_res_body
            &&& Some(n.comment_counter) == v.comment_counter
            &&& match (n.last_comment_time, v.last_comment_time) {
                (None, None) => true,
                (Some(a), Some(b)) => a.secs == b.secs && a.nanos == b.nanos,
                _ => false,
            }
            &&& n.category_tags == v.category_tags
            &&& Some(n.tags) == v.tags
            &&& n.genre == v.genre
        },
{
    let VideoInfo {
        content_id,
        title,
        description,
        view_counter,
        mylist_counter,
        length_seconds,
        thumbnail_url,
        start_time,
        last_res_body,
        comment_counter,
        last_comment_time,
        category_tags,
        tags,
        genre,
    } = v;
    let content_id = match content_id { Some(x) => x, None => return None };
    let title = match title { Some(x) => x, None => return None };
    let view_counter = match view_counter { Some(x) => x, None => return None };
    let mylist_counter = match mylist_counter { Some(x) => x, None => return None };
    let length_seconds = match length_seconds { Some(x) => x, None => return None };
    let start_time = match start_time { Some(x) => x, None => return None };
    let comment_counter = match comment_counter { Some(x) => x, None => return None };
    let tags = match tags { Some(x) => x, None => return None };
    let last_comment_time = match last_comment_time {
        Some(t) => Some(t.to_utc()),
        None => None,
    };
    Some(
        NewVideoInfo {
            last_modified: last_modified.to_utc(),
            content_id,
            title,
            description,
            view_counter,
            mylist_counter,
            length_seconds,
            thumbnail_url,
            start_time: start_time.to_utc(),
            last_res_body,
            comment_counter,
            last_comment_time,
            category_tags,
            tags,
            genre,
        },
    )
}

/// The meta data of a search response: the HTTP status, the request id and
/// the number of videos that match.
#[derive(Debug)]
pub struct MetaObject {
    pub status: u16,
    pub id: String,
    pub total_count: usize,
}

/// A search response: its meta data and one page of videos.
#[derive(Debug)]
pub struct ResponseJson {
    pub meta: MetaObject,
    pub data: Vec<VideoInfo>,
}

/// The names of all the fields of a video that the search API returns.
pub open spec fn all_field_names() -> Seq<Seq<char>> {
    seq![
        "contentId"@,
        "title"@,
        "description"@,
        "viewCounter"@,
        "mylistCounter"@,
        "lengthSeconds"@,
        "thumbnailUrl"@,
        "startTime"@,
        "lastResBody"@,
        "commentCounter"@,
        "lastCommentTime"@,
        "categoryTags"@,
        "tags"@,
        "genre"@,
    ]
}

/// The search for the videos posted in one period: an empty query, sorted by
/// start time (with `increasing`, which sorts largest first), all fields,
/// start times from `since` (included) to `until`, 100 results a request.
pub fn period_query(since: OffsetDateTime, until: OffsetDateTime) -> (q: QueryParams)
    ensures
        q.q@ == Seq::<char>::empty(),
        q.targets@.len() == 0,
        string_views(q.fields@) == all_field_names(),
        q.json_filter == Some(FilterJson::Range(RangeFilter::StartTime {
            from: since,
            to: until,
            include_lower: true,
            include_upper: false,
        })),
        q.sort == SortingWithOrder::Decreasing(RankingSorting::StartTime),
        q.offset == 0,
        q.limit == 100,
        q.context is None,
{
    let mut range = RangeFilter::start_time(since, until);
    range.include_lower();
    let filter = FilterJson::Range(range);
    let mut params = QueryParams::new("", RankingSorting::StartTime.increasing());
    let fields: [&str; 14] = [
        "contentId",
        "title",
        "description",
        "viewCounter",
        "mylistCounter",
        "lengthSeconds",
        "thumbnailUrl",
        "startTime",
        "lastResBody",
        "commentCounter",
        "lastCommentTime",
        "categoryTags",
        "tags",
        "genre",
    ];
    params.with_fields(fields.as_slice());
    params.set_filter(filter);
    params.set_limit(100);
    proof {
        reveal_strlit("");
        assert(str_views(fields@) =~= all_field_names());
        assert(string_views(Seq::<String>::empty()) =~= Seq::<Seq<char>>::empty());
    }
    params
}

} // verus!
