use vstd::prelude::*;
use std::cmp::Ordering;
use rayon::slice::ParallelSliceMut;
use crate::records::NewVideoInfo;
use crate::filter_expr::{holds, meeting, retain_matching, FilterExpr};
use crate::text::string_views;

verus! {

/// What a ranking orders videos by.
#[derive(Clone, Copy, Debug, PartialEq, Eq, Structural)]
pub enum RankingType {
    /// Views times length: the total time watched.
    WatchSum,
    /// Views.
    WatchCnt,
    /// Length.
    WatchLng,
}

impl RankingType {
    /// The ranking type named on the command line: "watch-sum", "watch-cnt"
    /// or "watch-lng".
    pub open spec fn from_arg_text(s: Seq<char>) -> Option<RankingType> {
        if s == "watch-sum"@ {
            Some(RankingType::WatchSum)
        } else if s == "watch-cnt"@ {
            Some(RankingType::WatchCnt)
        } else if s == "watch-lng"@ {
            Some(RankingType::WatchLng)
        } else {
            None
        }
    }

    pub fn from_arg(s: &str) -> (r: Option<RankingType>)
        ensures
            r == RankingType::from_arg_text(s@),
    {
        if crate::text::str_equals(s, "watch-sum") {
            Some(RankingType::WatchSum)
        } else if crate::text::str_equals(s, "watch-cnt") {
            Some(RankingType::WatchCnt)
        } else if crate::text::str_equals(s, "watch-lng") {
            Some(RankingType::WatchLng)
        } else {
            None
        }
    }
}

/// The value that a ranking of type `t` orders a video by.
pub open spec fn key_value(t: RankingType, v: NewVideoInfo) -> int {
    match t {
        RankingType::WatchSum => v.length_seconds.secs() * v.view_counter,
        RankingType::WatchCnt => v.view_counter as int,
        RankingType::WatchLng => v.length_seconds.secs() as int,
    }
}

/// The ranking value of a video fits in `u64`.
pub open spec fn key_fits(t: RankingType, v: NewVideoInfo) -> bool {
    key_value(t, v) <= u64::MAX
}

/// The value that a ranking of type `t` orders `v` by.
pub fn ranking_key(t: RankingType, v: &NewVideoInfo) -> (r: u64)
    requires
        key_fits(t, *v),
    ensures
        r == key_value(t, *v),
        t == RankingType::WatchSum ==> r == v.length_seconds.secs() * v.view_counter,
        t == RankingType::WatchCnt ==> r == v.view_counter,
        t == RankingType::WatchLng ==> r == v.length_seconds.secs(),
{
    match t {
        RankingType::WatchSum => v.length_seconds.as_secs() * v.view_counter as u64,
        RankingType::WatchCnt => v.view_counter as u64,
        RankingType::WatchLng => v.length_seconds.as_secs(),
    }
}

/// A value ordered the other way round.
#[derive(Clone, Copy, Debug, PartialEq, Eq, Structural)]
pub struct Reversing(pub u64);

/// `v` ordered the other way round.
pub fn reversing(v: u64) -> (r: Reversing)
    ensures
        r == Reversing(v),
{
    Reversing(v)
}

impl Reversing {
    /// Greater values come first: the order of the values, reversed.
    pub fn cmp(&self, other: &Reversing) -> (r: Ordering)
        ensures
            (r == Ordering::Less) == (self.0 > other.0),
            (r == Ordering::Equal) == (self.0 == other.0),
            (r == Ordering::Greater) == (self.0 < other.0),
    {
        if self.0 > other.0 {
            Ordering::Less
        } else if self.0 == other.0 {
            Ordering::Equal
        } else {
            Ordering::Greater
        }
    }

    /// The same order as `cmp`, always defined.
    pub fn partial_cmp(&self, other: &Reversing) -> (r: Option<Ordering>)
        ensures
            r is Some,
            (r == Some(Ordering::Less)) == (self.0 > other.0),
            (r == Some(Ordering::Equal)) == (self.0 == other.0),
            (r == Some(Ordering::Greater)) == (self.0 < other.0),
    {
        Some(self.cmp(other))
    }
}

/// Orders two videos for a ranking: the one with the greater ranking value
/// first.
pub fn compare_ranking(t: RankingType, a: &NewVideoInfo, b: &NewVideoInfo) -> (r: Ordering)
    requires
        key_fits(t, *a),
        key_fits(t, *b),
    ensures
        (r == Ordering::Less) == (key_value(t, *a) > key_value(t, *b)),
        (r == Ordering::Equal) == (key_value(t, *a) == key_value(t, *b)),
        (r == Ordering::Greater) == (key_value(t, *a) < key_value(t, *b)),
{
    reversing(ranking_key(t, a)).cmp(&reversing(ranking_key(t, b)))
}

/// The videos of `s` whose ranking value is `k`, in order.
pub open spec fn with_key(s: Seq<NewVideoInfo>, t: RankingType, k: int) -> Seq<NewVideoInfo> {
    s.filter(|v: NewVideoInfo| key_value(t, v) == k)
}

/// `rayon`'s `ParallelSliceMut::par_sort_by`, with `compare_ranking` as the
/// comparator. The comparator is a total order (greater ranking value first),
/// and the documentation says the sort is stable, so the result is ordered by
/// ranking value, greatest first, and the videos of each ranking value keep
/// their order.
#[verifier::external_body]
fn par_sort_by_ranking(videos: &mut Vec<NewVideoInfo>, t: RankingType)
    requires
        forall|i: int| 0 <= i < old(videos)@.len() ==> key_fits(t, #[trigger] old(videos)@[i]),
    ensures
        final(videos)@.len() == old(videos)@.len(),
        forall|i: int, j: int|
            0 <= i < j < final(videos)@.len() ==> key_value(t, #[trigger] final(videos)@[i])
                >= key_value(t, #[trigger] final(videos)@[j]),
        forall|k: int| with_key(final(videos)@, t, k) == with_key(old(videos)@, t, k),
{
    videos.par_sort_by(|a, b| compare_ranking(t, a, b));
}

/// Sorts videos for a ranking of type `t`: greatest ranking value first,
/// videos of equal value in the order they came in.
pub fn sort_ranking(videos: &mut Vec<NewVideoInfo>, t: RankingType)
    requires
        forall|i: int| 0 <= i < old(videos)@.len() ==> key_fits(t, #[trigger] old(videos)@[i]),
    ensures
        final(videos)@.len() == old(videos)@.len(),
        forall|i: int, j: int|
            0 <= i < j < final(videos)@.len() ==> key_value(t, #[trigger] final(videos)@[i])
                >= key_value(t, #[trigger] final(videos)@[j]),
        forall|k: int| with_key(final(videos)@, t, k) == with_key(old(videos)@, t, k),
{
    par_sort_by_ranking(videos, t);
}

proof fn lemma_filter_count<A>(s: Seq<A>, p: spec_fn(A) -> bool, x: A)
    requires
        p(x),
    ensures
        s.filter(p).to_multiset().count(x) == s.to_multiset().count(x),
    decreases s.len(),
{
    reveal_with_fuel(Seq::<_>::filter, 1);
    if s.len() > 0 {
        let init = s.drop_last();
        let last = s.last();
        lemma_filter_count(init, p, x);
        assert(init.push(last) == s);
        vstd::seq_lib::to_multiset_build(init, last);
        if p(last) {
            vstd::seq_lib::to_multiset_build(init.filter(p), last);
        }
    }
}

/// Two lists whose videos of each ranking value are the same, in the same
/// order, hold the same videos: sorting for a ranking keeps every video, as
/// many times as it occurs.
pub proof fn law_sort_keeps_videos(a: Seq<NewVideoInfo>, b: Seq<NewVideoInfo>, t: RankingType)
    requires
        forall|k: int| with_key(a, t, k) == with_key(b, t, k),
    ensures
        a.to_multiset() == b.to_multiset(),
{
    assert forall|x: NewVideoInfo| a.to_multiset().count(x) == b.to_multiset().count(x) by {
        let k = key_value(t, x);
        let p = |v: NewVideoInfo| key_value(t, v) == k;
        lemma_filter_count(a, p, x);
        lemma_filter_count(b, p, x);
        assert(with_key(a, t, k) == a.filter(p));
        assert(with_key(b, t, k) == b.filter(p));
    }
    assert(a.to_multiset() =~= b.to_multiset());
}

/// The ranking of type `t` of the videos that meet `filter` (all videos
/// when there is none): greatest ranking value first, videos of equal value
/// in the order they came in.
pub fn rank_videos(videos: Vec<NewVideoInfo>, t: RankingType, filter: Option<&FilterExpr>) -> (r: Vec<
    NewVideoInfo,
>)
    requires
        forall|i: int|
            0 <= i < videos@.len() && (filter matches Some(f) ==> holds(f@, string_views(videos@[i].tags@)))
                ==> key_fits(t, #[trigger] videos@[i]),
    ensures
        ({
            let kept = match filter {
                None => videos@,
                Some(f) => meeting(videos@, f@),
            };
            &&& r@.len() == kept.len()
            &&& forall|i: int, j: int|
                0 <= i < j < r@.len() ==> key_value(t, #[trigger] r@[i]) >= key_value(t, #[trigger] r@[j])
            &&& forall|k: int| with_key(r@, t, k) == with_key(kept, t, k)
        }),
{
    let mut kept = match filter {
        None => videos,
        Some(f) => retain_matching(videos, f),
    };
    proof {
        if let Some(f) = filter {
            let pred = |v: NewVideoInfo| crate::filter_expr::holds(f@, crate::text::string_views(v.tags@));
            assert forall|i: int| 0 <= i < kept@.len() implies key_fits(t, #[trigger] kept@[i]) by {
                assert(kept@ == videos@.filter(pred));
                videos@.lemma_filter_pred(pred, i);
                assert(videos@.filter(pred).contains(kept@[i]));
                videos@.lemma_filter_contains_rev(pred, kept@[i]);
                let j = choose|j: int| 0 <= j < videos@.len() && videos@[j] == kept@[i];
                assert(key_fits(t, videos@[j]));
            }
        }
    }
    sort_ranking(&mut kept, t);
    kept
}

/// What each ranking orders by: watch-sum by the whole seconds of the
/// length times the views, watch-cnt by the views alone and watch-lng by
/// the whole seconds of the length alone. So two videos with the same views
/// have the same watch-cnt value whatever else they hold, and a video with
/// more views has a greater one.
pub proof fn law_ranking_values(v: NewVideoInfo, w: NewVideoInfo)
    ensures
        key_value(RankingType::WatchSum, v) == v.length_seconds.secs() * v.view_counter,
        key_value(RankingType::WatchCnt, v) == v.view_counter,
        key_value(RankingType::WatchLng, v) == v.length_seconds.secs(),
        v.view_counter == w.view_counter ==> key_value(RankingType::WatchCnt, v) == key_value(
            RankingType::WatchCnt,
            w,
        ),
        v.view_counter < w.view_counter ==> key_value(RankingType::WatchCnt, v) < key_value(
            RankingType::WatchCnt,
            w,
        ),
        v.length_seconds.secs() == w.length_seconds.secs() ==> key_value(RankingType::WatchLng, v)
            == key_value(RankingType::WatchLng, w),
        v.length_seconds.secs() == w.length_seconds.secs() && v.view_counter == w.view_counter ==> key_value(
            RankingType::WatchSum,
            v,
        ) == key_value(RankingType::WatchSum, w),
{
}

} // verus!
