use vstd::prelude::*;
use crate::datetime::{datetime_text, OffsetDateTime};
use crate::records::{RankingBin, RankingVideoDataBin};
use crate::text::{decimal, push_char, push_decimal};

verus! {

/// A sorted ranking being merged, and the position of its current video.
#[derive(Debug)]
pub struct RankingBinCtx {
    pub ranking: RankingBin,
    pub idx: usize,
}

impl RankingBinCtx {
    /// The current video, if the ranking has not been used up.
    pub fn get_cur(&self) -> (r: Option<&RankingVideoDataBin>)
        ensures
            self.idx < self.ranking.data@.len() ==> r == Some(&self.ranking.data@[self.idx as int]),
            self.idx >= self.ranking.data@.len() ==> r is None,
    {
        if self.idx < self.ranking.data.len() {
            Some(&self.ranking.data[self.idx])
        } else {
            None
        }
    }

    /// Moves on to the next video.
    pub fn move_next(&mut self)
        requires
            old(self).idx < usize::MAX,
        ensures
            final(self).idx == old(self).idx + 1,
            final(self).ranking == old(self).ranking,
    {
        self.idx = self.idx + 1;
    }

    /// Whether the ranking has been used up.
    pub fn is_end(&self) -> (r: bool)
        ensures
            r == (self.ranking.data@.len() <= self.idx),
    {
        self.ranking.data.len() <= self.idx
    }

    pub open spec fn spec_is_end(self) -> bool {
        self.ranking.data@.len() <= self.idx
    }

    /// The ranking value of the current video.
    pub open spec fn current_counter(self) -> u64 {
        self.ranking.data@[self.idx as int].ranking_counter
    }
}

/// The ranking whose current video has the greatest ranking value among the
/// rankings not used up; of several such, the last one.
pub open spec fn is_selected(rankings: Seq<RankingBinCtx>, i: int) -> bool {
    &&& 0 <= i < rankings.len()
    &&& !rankings[i].spec_is_end()
    &&& forall|j: int|
        0 <= j < rankings.len() && !(#[trigger] rankings[j]).spec_is_end() ==> rankings[j].current_counter()
            <= rankings[i].current_counter()
    &&& forall|j: int|
        i < j < rankings.len() && !(#[trigger] rankings[j]).spec_is_end() ==> rankings[j].current_counter()
            < rankings[i].current_counter()
}

/// The ranking to take the next video from (`max_by_key` over the rankings
/// not used up); none when all are used up.
pub fn select_next(rankings: &Vec<RankingBinCtx>) -> (r: Option<usize>)
    ensures
        r is None <==> forall|j: int| 0 <= j < rankings@.len() ==> (#[trigger] rankings@[j]).spec_is_end(),
        r matches Some(i) ==> is_selected(rankings@, i as int),
{
    let mut best: Option<usize> = None;
    let mut best_counter: u64 = 0;
    let mut j: usize = 0;
    while j < rankings.len()
        invariant
            j <= rankings@.len(),
            best is None <==> forall|k: int| 0 <= k < j ==> (#[trigger] rankings@[k]).spec_is_end(),
            best matches Some(i) ==> {
                &&& i < j
                &&& !rankings@[i as int].spec_is_end()
                &&& best_counter == rankings@[i as int].current_counter()
                &&& forall|k: int|
                    0 <= k < j && !(#[trigger] rankings@[k]).spec_is_end() ==> rankings@[k].current_counter()
                        <= best_counter
                &&& forall|k: int|
                    i < k < j && !(#[trigger] rankings@[k]).spec_is_end() ==> rankings@[k].current_counter()
                        < best_counter
            },
        decreases rankings@.len() - j,
    {
        let ctx = &rankings[j];
        if !ctx.is_end() {
            let c = ctx.ranking.data[ctx.idx].ranking_counter;
            match best {
                None => {
                    best = Some(j);
                    best_counter = c;
                },
                Some(_) => {
                    if c >= best_counter {
                        best = Some(j);
                        best_counter = c;
                    }
                },
            }
        }
        j = j + 1;
    }
    best
}

/// What one step of the merge did.
#[derive(Clone, Copy, Debug, PartialEq, Eq, Structural)]
pub enum MergeStep {
    /// All rankings are used up.
    Done,
    /// The selected ranking moved on to its next video, which is the row to
    /// write.
    Row(usize),
    /// The selected ranking moved on past its last video: there is no row to
    /// write.
    Exhausted(usize),
}

/// One step of merging sorted rankings: selects the ranking whose current
/// video has the greatest ranking value (the last of several), moves it on to
/// its next video, and reports whether that video exists.
pub fn merge_step(rankings: &mut Vec<RankingBinCtx>) -> (r: MergeStep)
    ensures
        final(rankings)@.len() == old(rankings)@.len(),
        r == MergeStep::Done <==> forall|j: int|
            0 <= j < old(rankings)@.len() ==> (#[trigger] old(rankings)@[j]).spec_is_end(),
        r == MergeStep::Done ==> final(rankings)@ == old(rankings)@,
        forall|i: usize|
            (r == MergeStep::Row(i) || r == MergeStep::Exhausted(i)) ==> {
                &&& is_selected(old(rankings)@, i as int)
                &&& final(rankings)@[i as int].idx == old(rankings)@[i as int].idx + 1
                &&& final(rankings)@[i as int].ranking == old(rankings)@[i as int].ranking
                &&& forall|j: int|
                    0 <= j < old(rankings)@.len() && j != i ==> final(rankings)@[j] == old(rankings)@[j]
                &&& (r == MergeStep::Row(i) <==> !final(rankings)@[i as int].spec_is_end())
            },
{
    match select_next(rankings) {
        None => MergeStep::Done,
        Some(i) => {
            let mut ctx = rankings.remove(i);
            proof {
                vstd::std_specs::vec::axiom_spec_len(&ctx.ranking.data);
            }
            ctx.move_next();
            let ended = ctx.is_end();
            rankings.insert(i, ctx);
            if ended {
                MergeStep::Exhausted(i)
            } else {
                MergeStep::Row(i)
            }
        },
    }
}

/// The CSV line of one row of the merged ranking: its rank, ranking value,
/// video id, snapshot time, posting time, view count and length, separated
/// by ','; the two times as the texts given.
pub open spec fn csv_line_text(
    rank_index: u64,
    cur: RankingVideoDataBin,
    lm_text: Seq<char>,
    st_text: Seq<char>,
) -> Seq<char> {
    decimal(rank_index as nat) + seq![','] + decimal(cur.ranking_counter as nat) + seq![','] + cur.content_id@
        + seq![','] + lm_text + seq![','] + st_text + seq![','] + decimal(cur.view_counter as nat) + seq![',']
        + decimal(cur.length_seconds as nat)
}

/// The CSV line of one row (see `csv_line_text`), with the snapshot time and
/// the posting time as the texts given.
pub fn csv_line(rank_index: u64, cur: &RankingVideoDataBin, lm_text: &str, st_text: &str) -> (r: String)
    ensures
        r@ == csv_line_text(rank_index, *cur, lm_text@, st_text@),
{
    let mut s = String::new();
    push_decimal(&mut s, rank_index);
    push_char(&mut s, ',');
    push_decimal(&mut s, cur.ranking_counter);
    push_char(&mut s, ',');
    s.append(cur.content_id.as_str());
    push_char(&mut s, ',');
    s.append(lm_text);
    push_char(&mut s, ',');
    s.append(st_text);
    push_char(&mut s, ',');
    push_decimal(&mut s, cur.view_counter as u64);
    push_char(&mut s, ',');
    push_decimal(&mut s, cur.length_seconds as u64);
    assert(s@ =~= csv_line_text(rank_index, *cur, lm_text@, st_text@));
    s
}

/// The CSV line of one row of the merged ranking, the times as `chrono`
/// displays them; none when there is no snapshot time or a time has no
/// text.
pub open spec fn csv_row_text(
    rank_index: u64,
    cur: RankingVideoDataBin,
    last_modified: Option<OffsetDateTime>,
) -> Option<Seq<char>> {
    match last_modified {
        None => None,
        Some(lm) => match (
            datetime_text(lm.secs, lm.nanos, lm.offset),
            datetime_text(cur.start_time.secs, cur.start_time.nanos, cur.start_time.offset),
        ) {
            (Some(lm_text), Some(st_text)) => Some(csv_line_text(rank_index, cur, lm_text, st_text)),
            _ => None,
        },
    }
}

/// The CSV line of one row of the merged ranking (see `csv_row_text`).
pub fn csv_row(rank_index: u64, cur: &RankingVideoDataBin, last_modified: &Option<OffsetDateTime>) -> (r:
    Option<String>)
    ensures
        r.deep_view() == csv_row_text(rank_index, *cur, *last_modified),
{
    let lm = match last_modified {
        None => return None,
        Some(lm) => lm,
    };
    let lm_text = match lm.to_display_string() {
        None => return None,
        Some(t) => t,
    };
    let st_text = match cur.start_time.to_display_string() {
        None => return None,
        Some(t) => t,
    };
    Some(csv_line(rank_index, cur, lm_text.as_str(), st_text.as_str()))
}

} // verus!
