use vstd::prelude::*;
use std::cmp::Ordering;
use crate::text::str_equals;

verus! {

/// The steps of the whole ranking run, in order.
#[derive(Clone, Copy, Debug, PartialEq, Eq, Structural)]
pub enum Phase {
    GetNicoData,
    MergeNicoData,
    SortRanking,
    MergeRankings,
    HtmlGen,
}

impl Phase {
    /// The position of the step in the run.
    pub open spec fn position(self) -> u8 {
        match self {
            Phase::GetNicoData => 0,
            Phase::MergeNicoData => 1,
            Phase::SortRanking => 2,
            Phase::MergeRankings => 3,
            Phase::HtmlGen => 4,
        }
    }

    /// The name of the step on the command line.
    pub open spec fn name(self) -> Seq<char> {
        match self {
            Phase::GetNicoData => "get-nico-data"@,
            Phase::MergeNicoData => "merge-nico-data"@,
            Phase::SortRanking => "sort-ranking"@,
            Phase::MergeRankings => "merge-rankings"@,
            Phase::HtmlGen => "html-gen"@,
        }
    }

    /// The step named `s`, if any.
    pub open spec fn from_name(s: Seq<char>) -> Option<Phase> {
        if s == "get-nico-data"@ {
            Some(Phase::GetNicoData)
        } else if s == "merge-nico-data"@ {
            Some(Phase::MergeNicoData)
        } else if s == "sort-ranking"@ {
            Some(Phase::SortRanking)
        } else if s == "merge-rankings"@ {
            Some(Phase::MergeRankings)
        } else if s == "html-gen"@ {
            Some(Phase::HtmlGen)
        } else {
            None
        }
    }

    pub fn index(self) -> (r: u8)
        ensures
            r == self.position(),
    {
        match self {
            Phase::GetNicoData => 0,
            Phase::MergeNicoData => 1,
            Phase::SortRanking => 2,
            Phase::MergeRankings => 3,
            Phase::HtmlGen => 4,
        }
    }

    pub fn to_str(&self) -> (r: &'static str)
        ensures
            r@ == self.name(),
    {
        match self {
            Phase::GetNicoData => "get-nico-data",
            Phase::MergeNicoData => "merge-nico-data",
            Phase::SortRanking => "sort-ranking",
            Phase::MergeRankings => "merge-rankings",
            Phase::HtmlGen => "html-gen",
        }
    }

    pub fn from_str(s: &str) -> (r: Option<Phase>)
        ensures
            r == Phase::from_name(s@),
    {
        if str_equals(s, "get-nico-data") {
            Some(Phase::GetNicoData)
        } else if str_equals(s, "merge-nico-data") {
            Some(Phase::MergeNicoData)
        } else if str_equals(s, "sort-ranking") {
            Some(Phase::SortRanking)
        } else if str_equals(s, "merge-rankings") {
            Some(Phase::MergeRankings)
        } else if str_equals(s, "html-gen") {
            Some(Phase::HtmlGen)
        } else {
            None
        }
    }

    /// Orders steps by their position in the run.
    pub fn cmp(&self, other: &Self) -> (r: Ordering)
        ensures
            (r == Ordering::Less) == (self.position() < other.position()),
            (r == Ordering::Equal) == (self.position() == other.position()),
            (r == Ordering::Greater) == (self.position() > other.position()),
    {
        let a = self.index();
        let b = other.index();
        if a < b {
            Ordering::Less
        } else if a == b {
            Ordering::Equal
        } else {
            Ordering::Greater
        }
    }

    /// Whether a run that starts at step `since` runs this step.
    pub fn runs_from(&self, since: &Phase) -> (r: bool)
        ensures
            r == (since.position() <= self.position()),
    {
        since.index() <= self.index()
    }

    /// The name of the step as a new string.
    pub fn to_string(&self) -> (r: String)
        ensures
            r@ == self.name(),
    {
        self.to_str().to_owned()
    }
}

/// The names of the steps, in order.
pub fn phase_names() -> (r: Vec<&'static str>)
    ensures
        r@.len() == 5,
        r@[0]@ == Phase::GetNicoData.name(),
        r@[1]@ == Phase::MergeNicoData.name(),
        r@[2]@ == Phase::SortRanking.name(),
        r@[3]@ == Phase::MergeRankings.name(),
        r@[4]@ == Phase::HtmlGen.name(),
{
    let mut r: Vec<&'static str> = Vec::new();
    r.push("get-nico-data");
    r.push("merge-nico-data");
    r.push("sort-ranking");
    r.push("merge-rankings");
    r.push("html-gen");
    r
}

/// A step's name is read back as the step, and positions tell steps apart.
pub proof fn law_phase_names(p: Phase, q: Phase)
    ensures
        Phase::from_name(p.name()) == Some(p),
        p.position() == q.position() <==> p == q,
{
    reveal_strlit("get-nico-data");
    reveal_strlit("merge-nico-data");
    reveal_strlit("sort-ranking");
    reveal_strlit("merge-rankings");
    reveal_strlit("html-gen");
    let a = "get-nico-data"@;
    let b = "merge-nico-data"@;
    let c = "sort-ranking"@;
    let d = "merge-rankings"@;
    let e = "html-gen"@;
    assert(a[0] != b[0] && a[0] != c[0] && a[0] != d[0] && a[0] != e[0]);
    assert(b.len() != d.len() && b[0] != c[0] && b[0] != e[0]);
    assert(c[0] != d[0] && c[0] != e[0]);
    assert(d[0] != e[0]);
}

} // verus!
