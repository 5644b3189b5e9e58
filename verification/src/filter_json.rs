use vstd::prelude::*;
use crate::datetime::OffsetDateTime;

verus! {

/// A filter that a field equals a value.
#[derive(Debug)]
pub enum EqualFilter {
    ViewCounter(u64),
    MyListCounter(u64),
    LengthSeconds(u64),
    StartTime(OffsetDateTime),
    CommentCounter(u64),
    LastCommentTime(OffsetDateTime),
    CategoryTags(String),
    Tags(String),
    Genre(String),
    GenreKeyword(String),
}

/// A filter that a field lies between two values, each bound included or not.
#[derive(Debug)]
#[allow(inconsistent_fields)]
pub enum RangeFilter {
    ViewCounter { from: u64, to: u64, include_lower: bool, include_upper: bool },
    MyListCounter { from: u64, to: u64, include_lower: bool, include_upper: bool },
    LengthSeconds { from: u64, to: u64, include_lower: bool, include_upper: bool },
    StartTime { from: OffsetDateTime, to: OffsetDateTime, include_lower: bool, include_upper: bool },
    CommentCounter { from: u64, to: u64, include_lower: bool, include_upper: bool },
    LastCommentTime {
        from: OffsetDateTime,
        to: OffsetDateTime,
        include_lower: bool,
        include_upper: bool,
    },
}

/// A filter of the snapshot search: a condition on one field, or a
/// combination of filters.
#[derive(Debug)]
pub enum FilterJson {
    Equal(EqualFilter),
    Range(RangeFilter),
    Or(Vec<FilterJson>),
    And(Vec<FilterJson>),
    Not(Box<FilterJson>),
}

impl RangeFilter {
    /// Whether the lower bound is included.
    pub open spec fn lower_included(self) -> bool {
        match self {
            RangeFilter::ViewCounter { include_lower, .. } => include_lower,
            RangeFilter::MyListCounter { include_lower, .. } => include_lower,
            RangeFilter::LengthSeconds { include_lower, .. } => include_lower,
            RangeFilter::StartTime { include_lower, .. } => include_lower,
            RangeFilter::CommentCounter { include_lower, .. } => include_lower,
            RangeFilter::LastCommentTime { include_lower, .. } => include_lower,
        }
    }

    /// Whether the upper bound is included.
    pub open spec fn upper_included(self) -> bool {
        match self {
            RangeFilter::ViewCounter { include_upper, .. } => include_upper,
            RangeFilter::MyListCounter { include_upper, .. } => include_upper,
            RangeFilter::LengthSeconds { include_upper, .. } => include_upper,
            RangeFilter::StartTime { include_upper, .. } => include_upper,
            RangeFilter::CommentCounter { include_upper, .. } => include_upper,
            RangeFilter::LastCommentTime { include_upper, .. } => include_upper,
        }
    }

    /// The same filter with the lower bound included.
    pub open spec fn with_lower(self) -> RangeFilter {
        match self {
            RangeFilter::ViewCounter { from, to, include_upper, .. } => RangeFilter::ViewCounter {
                from,
                to,
                include_lower: true,
                include_upper,
            },
            RangeFilter::MyListCounter { from, to, include_upper, .. } => RangeFilter::MyListCounter {
                from,
                to,
                include_lower: true,
                include_upper,
            },
            RangeFilter::LengthSeconds { from, to, include_upper, .. } => RangeFilter::LengthSeconds {
                from,
                to,
                include_lower: true,
                include_upper,
            },
            RangeFilter::StartTime { from, to, include_upper, .. } => RangeFilter::StartTime {
                from,
                to,
                include_lower: true,
                include_upper,
            },
            RangeFilter::CommentCounter { from, to, include_upper, .. } => RangeFilter::CommentCounter {
                from,
                to,
                include_lower: true,
                include_upper,
            },
            RangeFilter::LastCommentTime { from, to, include_upper, .. } => RangeFilter::LastCommentTime {
                from,
                to,
                include_lower: true,
                include_upper,
            },
        }
    }

    /// The same filter with the upper bound included.
    pub open spec fn with_upper(self) -> RangeFilter {
        match self {
            RangeFilter::ViewCounter { from, to, include_lower, .. } => RangeFilter::ViewCounter {
                from,
                to,
                include_lower,
                include_upper: true,
            },
            RangeFilter::MyListCounter { from, to, include_lower, .. } => RangeFilter::MyListCounter {
                from,
                to,
                include_lower,
                include_upper: true,
            },
            RangeFilter::LengthSeconds { from, to, include_lower, .. } => RangeFilter::LengthSeconds {
                from,
                to,
                include_lower,
                include_upper: true,
            },
            RangeFilter::StartTime { from, to, include_lower, .. } => RangeFilter::StartTime {
                from,
                to,
                include_lower,
                include_upper: true,
            },
            RangeFilter::CommentCounter { from, to, include_lower, .. } => RangeFilter::CommentCounter {
                from,
                to,
                include_lower,
                include_upper: true,
            },
            RangeFilter::LastCommentTime { from, to, include_lower, .. } => RangeFilter::LastCommentTime {
                from,
                to,
                include_lower,
                include_upper: true,
            },
        }
    }

    /// Views between two bounds, neither included.
    pub fn view_counter(from: u64, to: u64) -> (r: RangeFilter)
        ensures
            r == (RangeFilter::ViewCounter { from, to, include_lower: false, include_upper: false }),
    {
        RangeFilter::ViewCounter { from, to, include_lower: false, include_upper: false }
    }

    /// My-list counts between two bounds, neither included.
    pub fn mylist_counter(from: u64, to: u64) -> (r: RangeFilter)
        ensures
            r == (RangeFilter::MyListCounter { from, to, include_lower: false, include_upper: false }),
    {
        RangeFilter::MyListCounter { from, to, include_lower: false, include_upper: false }
    }

    /// Lengths between two bounds, neither included.
    pub fn length_seconds(from: u64, to: u64) -> (r: RangeFilter)
        ensures
            r == (RangeFilter::LengthSeconds { from, to, include_lower: false, include_upper: false }),
    {
        RangeFilter::LengthSeconds { from, to, include_lower: false, include_upper: false }
    }

    /// Start times between two bounds, neither included.
    pub fn start_time(from: OffsetDateTime, to: OffsetDateTime) -> (r: RangeFilter)
        ensures
            r == (RangeFilter::StartTime { from, to, include_lower: false, include_upper: false }),
    {
        RangeFilter::StartTime { from, to, include_lower: false, include_upper: false }
    }

    /// Comment counts between two bounds, neither included.
    pub fn comment_counter(from: u64, to: u64) -> (r: RangeFilter)
        ensures
            r == (RangeFilter::CommentCounter { from, to, include_lower: false, include_upper: false }),
    {
        RangeFilter::CommentCounter { from, to, include_lower: false, include_upper: false }
    }

    /// Last comment times between two bounds, neither included.
    pub fn last_comment_time(from: OffsetDateTime, to: OffsetDateTime) -> (r: RangeFilter)
        ensures
            r == (RangeFilter::LastCommentTime {
                from,
                to,
                include_lower: false,
                include_upper: false,
            }),
    {
        RangeFilter::LastCommentTime { from, to, include_lower: false, include_upper: false }
    }

    /// Includes the lower bound.
    pub fn include_lower(&mut self) -> (r: &mut Self)
        ensures
            *r == old(self).with_lower(),
            *final(self) == *final(r),
    {
        match self {
            RangeFilter::ViewCounter { include_lower, .. } => *include_lower = true,
            RangeFilter::MyListCounter { include_lower, .. } => *include_lower = true,
            RangeFilter::LengthSeconds { include_lower, .. } => *include_lower = true,
            RangeFilter::StartTime { include_lower, .. } => *include_lower = true,
            RangeFilter::CommentCounter { include_lower, .. } => *include_lower = true,
            RangeFilter::LastCommentTime { include_lower, .. } => *include_lower = true,
        }
        self
    }

    /// Includes the upper bound.
    pub fn include_upper(&mut self) -> (r: &mut Self)
        ensures
            *r == old(self).with_upper(),
            *final(self) == *final(r),
    {
        match self {
            RangeFilter::ViewCounter { include_upper, .. } => *include_upper = true,
            RangeFilter::MyListCounter { include_upper, .. } => *include_upper = true,
            RangeFilter::LengthSeconds { include_upper, .. } => *include_upper = true,
            RangeFilter::StartTime { include_upper, .. } => *include_upper = true,
            RangeFilter::CommentCounter { include_upper, .. } => *include_upper = true,
            RangeFilter::LastCommentTime { include_upper, .. } => *include_upper = true,
        }
        self
    }
}

/// A bound flag is written only when it is set: whether a flag is unset.
pub fn bool_not(f: &bool) -> (r: bool)
    ensures
        r == !*f,
{
    !*f
}

/// The value of a bound flag that is not written: unset.
pub fn bool_false() -> (r: bool)
    ensures
        !r,
{
    false
}

} // verus!
