use vstd::prelude::*;
use crate::datetime::OffsetDateTime;
use crate::records::{RankingJson, RankingVideoData, VersionJson};
use crate::text::{decimal, push_decimal};

verus! {

/// `p0 / p1` rounded up, as `(p0 + p1 - 1) / p1`.
pub fn ceil_div(p0: u64, p1: u64) -> (r: u64)
    requires
        p1 > 0,
        p0 + p1 <= u64::MAX,
    ensures
        r == (p0 + p1 - 1) / (p1 as int),
{
    (p0 + p1 - 1) / p1
}

/// `ceil_div(p0, p1)` is the least number of `p1`-sized parts that hold `p0`.
pub proof fn law_ceil_div(p0: nat, p1: nat)
    requires
        p1 > 0,
    ensures
        ((p0 + p1 - 1) / p1 as int) * p1 >= p0,
        ((p0 + p1 - 1) / p1 as int) * p1 < p0 + p1,
{
    let q = (p0 + p1 - 1) / p1 as int;
    let r = (p0 + p1 - 1) % p1 as int;
    assert(p0 + p1 - 1 == q * p1 + r && 0 <= r < p1) by (nonlinear_arith)
        requires
            p1 > 0,
            q == (p0 + p1 - 1) / p1 as int,
            r == (p0 + p1 - 1) % p1 as int,
    ;
}

/// The number of videos that one ranking file holds at most.
pub const VIDEOS_PER_FILE: u64 = 100;

/// Whether a week with `file_count` ranking files is complete for a ranking
/// file that counts `total_count` videos: it has as many files as the count
/// needs at `VIDEOS_PER_FILE` videos each.
pub open spec fn week_complete(total_count: u64, file_count: nat) -> bool {
    !((total_count + VIDEOS_PER_FILE - 1) / (VIDEOS_PER_FILE as int) > file_count)
}

/// Adds the videos of one ranking file of a week to `data`, unless the week
/// lacks files for the count that the file gives; whether it added them.
pub fn add_week_file(data: &mut Vec<RankingVideoData>, file: RankingJson, file_count: usize) -> (r: bool)
    requires
        file.meta.total_count + VIDEOS_PER_FILE <= u64::MAX,
    ensures
        r == week_complete(file.meta.total_count, file_count as nat),
        r ==> final(data)@ == old(data)@ + file.data@,
        !r ==> final(data)@ == old(data)@,
{
    if ceil_div(file.meta.total_count, VIDEOS_PER_FILE) > file_count as u64 {
        return false;
    }
    let mut more = file.data;
    data.append(&mut more);
    true
}

/// Whether the snapshot changed: there was an earlier version and this one
/// is another instant.
pub fn changed_version(version_json: &VersionJson, last_modified: &Option<OffsetDateTime>) -> (r: bool)
    ensures
        r == (last_modified matches Some(lm) && !(lm.secs == version_json.last_modified.secs
            && lm.nanos == version_json.last_modified.nanos)),
{
    match last_modified {
        None => false,
        Some(lm) => !lm.same_instant(&version_json.last_modified),
    }
}

/// A merged ranking file to write: its name, its videos and its version.
#[derive(Debug)]
pub struct MergedOutput {
    pub file_name: String,
    pub data: Vec<RankingVideoData>,
    pub last_modified: OffsetDateTime,
}

/// "merged_`index`.json"
pub open spec fn merged_name(index: u64) -> Seq<char> {
    "merged_"@ + decimal(index as nat) + ".json"@
}

/// The merging of weeks of ranking data into one file for each snapshot
/// version: the videos gathered since the last file, the current version,
/// the number of files written, and the weeks that were complete.
#[derive(Debug)]
pub struct MergeWeeks {
    pub data: Vec<RankingVideoData>,
    pub last_modified: Option<OffsetDateTime>,
    pub ranking_index: u64,
    pub will_removes: Vec<usize>,
}

impl MergeWeeks {
    /// Nothing merged yet.
    pub fn new() -> (r: MergeWeeks)
        ensures
            r.data@.len() == 0,
            r.last_modified is None,
            r.ranking_index == 0,
            r.will_removes@.len() == 0,
    {
        MergeWeeks { data: Vec::new(), last_modified: None, ranking_index: 0, will_removes: Vec::new() }
    }

    fn take_output(&mut self, last_modified: OffsetDateTime) -> (r: MergedOutput)
        ensures
            r.file_name@ == merged_name(old(self).ranking_index),
            r.data@ == old(self).data@,
            r.last_modified == last_modified,
            final(self).data@.len() == 0,
            final(self).last_modified == old(self).last_modified,
            final(self).ranking_index == old(self).ranking_index,
            final(self).will_removes == old(self).will_removes,
    {
        let mut file_name = String::new();
        file_name.append("merged_");
        push_decimal(&mut file_name, self.ranking_index);
        file_name.append(".json");
        let mut data: Vec<RankingVideoData> = Vec::new();
        std::mem::swap(&mut data, &mut self.data);
        MergedOutput { file_name, data, last_modified }
    }

    /// A week with the snapshot version `version` begins. When the version
    /// changed, the videos gathered so far make the next merged file, which is
    /// returned. The version becomes the current one.
    pub fn begin_week(&mut self, version: &VersionJson) -> (r: Option<MergedOutput>)
        requires
            old(self).ranking_index < u64::MAX,
        ensures
            final(self).last_modified == Some(version.last_modified),
            final(self).will_removes == old(self).will_removes,
            match r {
                None => {
                    &&& !changed_version_spec(version.last_modified, old(self).last_modified)
                    &&& final(self).data == old(self).data
                    &&& final(self).ranking_index == old(self).ranking_index
                },
                Some(out) => {
                    &&& changed_version_spec(version.last_modified, old(self).last_modified)
                    &&& out.file_name@ == merged_name(old(self).ranking_index)
                    &&& out.data@ == old(self).data@
                    &&& Some(out.last_modified) == old(self).last_modified
                    &&& final(self).data@.len() == 0
                    &&& final(self).ranking_index == old(self).ranking_index + 1
                },
            },
    {
        let mut out = None;
        if changed_version(version, &self.last_modified) {
            let lm = self.last_modified.unwrap();
            out = Some(self.take_output(lm));
            self.ranking_index = self.ranking_index + 1;
        }
        self.last_modified = Some(version.last_modified);
        out
    }

    /// The week at position `week` ended; it is kept for removal when it was
    /// complete.
    pub fn end_week(&mut self, week: usize, complete: bool)
        ensures
            final(self).data == old(self).data,
            final(self).last_modified == old(self).last_modified,
            final(self).ranking_index == old(self).ranking_index,
            complete ==> final(self).will_removes@ == old(self).will_removes@.push(week),
            !complete ==> final(self).will_removes == old(self).will_removes,
    {
        if complete {
            self.will_removes.push(week);
        }
    }

    /// All weeks are done: the videos gathered since the last merged file make
    /// the final one, unless no week was seen.
    pub fn finish(&mut self) -> (r: Option<MergedOutput>)
        ensures
            old(self).last_modified is None <==> r is None,
            r matches Some(out) ==> out.file_name@ == merged_name(old(self).ranking_index)
                && out.data@ == old(self).data@ && Some(out.last_modified) == old(
                self,
            ).last_modified,
            final(self).will_removes == old(self).will_removes,
    {
        match self.last_modified {
            None => None,
            Some(lm) => Some(self.take_output(lm)),
        }
    }
}

/// Whether the snapshot changed from `last_modified` to `version`.
pub open spec fn changed_version_spec(version: OffsetDateTime, last_modified: Option<OffsetDateTime>) -> bool {
    last_modified matches Some(lm) && !(lm.secs == version.secs && lm.nanos == version.nanos)
}

} // verus!
