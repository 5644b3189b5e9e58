use vstd::prelude::*;

verus! {

/// The position of one ranking page: `per_page` videos to a page, pages
/// numbered from 0, `page_count` videos on this page, and whether a page
/// follows.
#[derive(Clone, Copy, Debug)]
pub struct PageInfo {
    pub per_page: u64,
    pub page_number: u64,
    pub page_count: u64,
    pub has_next: bool,
}

/// The first rank (counted from 1) of page `page_number`.
pub open spec fn spec_start_rank(per_page: int, page_number: int) -> int {
    per_page * page_number + 1
}

impl PageInfo {
    /// The ranks of this page can be computed in `u64`.
    pub open spec fn ranks_fit(self) -> bool {
        spec_start_rank(self.per_page as int, self.page_number as int) + self.page_count <= u64::MAX
    }

    /// The ranks of this page and of the page after it (when there is one)
    /// can be computed in `u64`.
    pub open spec fn ranks_fit_with_next(self) -> bool {
        &&& self.ranks_fit()
        &&& self.has_next ==> self.page_number < u64::MAX
        &&& self.has_next ==> spec_start_rank(self.per_page as int, self.page_number + 1)
            + self.page_count <= u64::MAX
    }

    pub open spec fn spec_first(self) -> int {
        spec_start_rank(self.per_page as int, self.page_number as int)
    }

    pub open spec fn spec_last(self) -> int {
        self.spec_first() + self.page_count - 1
    }

    /// The page before this one, which is full; none for the first page.
    pub(crate) fn prev_info(&self) -> (r: Option<PageInfo>)
        ensures
            self.page_number == 0 <==> r is None,
            r matches Some(p) ==> p == (PageInfo {
                per_page: self.per_page,
                page_number: (self.page_number - 1) as u64,
                has_next: true,
                page_count: self.per_page,
            }),
    {
        if self.page_number == 0 {
            None
        } else {
            Some(
                PageInfo {
                    per_page: self.per_page,
                    page_number: self.page_number - 1,
                    has_next: true,
                    page_count: self.per_page,
                },
            )
        }
    }

    /// The page after this one when there is one; its length and whether a
    /// page follows it are not known, so this page's length and `false` stand
    /// for them.
    pub(crate) fn next_info(&self) -> (r: Option<PageInfo>)
        requires
            self.has_next ==> self.page_number < u64::MAX,
        ensures
            !self.has_next <==> r is None,
            r matches Some(p) ==> p == (PageInfo {
                per_page: self.per_page,
                page_number: (self.page_number + 1) as u64,
                has_next: false,
                page_count: self.page_count,
            }),
    {
        if !self.has_next {
            None
        } else {
            Some(
                PageInfo {
                    per_page: self.per_page,
                    page_number: self.page_number + 1,
                    has_next: false,
                    page_count: self.page_count,
                },
            )
        }
    }

    /// The first and last rank of the page before this one.
    pub fn prev_rank_range(&self) -> (r: Option<(u64, u64)>)
        requires
            self.page_number > 0 ==> self.spec_first() <= u64::MAX,
        ensures
            self.page_number == 0 <==> r is None,
            r matches Some((first, last)) ==> first == spec_start_rank(
                self.per_page as int,
                (self.page_number - 1) as int,
            ) && last == first + self.per_page - 1,
            r matches Some((first, last)) ==> last == self.per_page * self.page_number && last + 1
                == self.spec_first(),
    {
        match self.prev_info() {
            None => None,
            Some(inf) => {
                assert(self.per_page * (self.page_number - 1) + self.per_page == self.per_page
                    * self.page_number) by (nonlinear_arith)
                    requires
                        self.page_number > 0,
                ;
                Some(inf.page_rank_range())
            },
        }
    }

    /// The first and last rank of the page after this one.
    pub fn next_rank_range(&self) -> (r: Option<(u64, u64)>)
        requires
            self.has_next ==> self.page_number < u64::MAX && spec_start_rank(
                self.per_page as int,
                self.page_number + 1,
            ) + self.page_count <= u64::MAX,
        ensures
            !self.has_next <==> r is None,
            r matches Some((first, last)) ==> first == spec_start_rank(
                self.per_page as int,
                self.page_number + 1,
            ) && last == first + self.page_count - 1,
    {
        match self.next_info() {
            None => None,
            Some(inf) => Some(inf.page_rank_range()),
        }
    }

    /// The first and last rank of this page.
    pub fn page_rank_range(&self) -> (r: (u64, u64))
        requires
            self.ranks_fit(),
        ensures
            r.0 == self.spec_first(),
            r.1 == self.spec_last(),
    {
        (self.start_rank(), self.last_rank())
    }

    /// The first rank of this page: `per_page * page_number + 1`.
    pub fn start_rank(&self) -> (r: u64)
        requires
            self.spec_first() <= u64::MAX,
        ensures
            r == self.spec_first(),
    {
        self.per_page * self.page_number + 1
    }

    /// The last rank of this page: the first rank plus the page's length,
    /// minus one.
    pub fn last_rank(&self) -> (r: u64)
        requires
            self.ranks_fit(),
        ensures
            r == self.spec_last(),
    {
        self.start_rank() + self.page_count - 1
    }
}

/// A page of the ranking as the index lists it: its number and its first and
/// last rank.
#[derive(Clone, Copy, Debug)]
pub struct RankingPage {
    pub index: u64,
    pub first_rank: u64,
    pub last_rank: u64,
}

/// A page holds `last - first + 1` ranks, and the page after a full page
/// starts where it ends.
pub proof fn law_page_ranks(info: PageInfo)
    requires
        info.ranks_fit_with_next(),
    ensures
        info.spec_last() - info.spec_first() + 1 == info.page_count,
        info.has_next ==> spec_start_rank(info.per_page as int, info.page_number + 1)
            == info.spec_first() + info.per_page,
        info.has_next && info.page_count == info.per_page ==> spec_start_rank(
            info.per_page as int,
            info.page_number + 1,
        ) == info.spec_last() + 1,
{
    assert(info.per_page * (info.page_number + 1) == info.per_page * info.page_number
        + info.per_page) by (nonlinear_arith);
}

/// The range that a page gives for the page before it is the range of that
/// page when it is full.
pub proof fn law_prev_of_next(info: PageInfo)
    requires
        info.ranks_fit_with_next(),
        info.has_next,
        info.page_count == info.per_page,
    ensures
        ({
            let next = PageInfo {
                per_page: info.per_page,
                page_number: (info.page_number + 1) as u64,
                has_next: false,
                page_count: info.page_count,
            };
            next.spec_first() - info.per_page == info.spec_first() && next.spec_first() - 1
                == info.spec_last()
        }),
{
    assert(info.per_page * (info.page_number + 1) == info.per_page * info.page_number
        + info.per_page) by (nonlinear_arith);
}

} // verus!

verus! {

/// `n` chunks of `size` hold `total` items exactly: none when there are no
/// items, else all but the last chunk are full and the last is not empty.
pub open spec fn chunks_cover(total: int, size: int, n: int) -> bool {
    (n == 0 && total == 0) || (n > 0 && size * (n - 1) < total <= size * n)
}

/// `pages` are the pages of a ranking of `total` videos with `per_page`
/// videos to a page: page `i` holds the videos from rank `per_page * i + 1`
/// on, as many as are left up to `per_page`, and has a next page unless it is
/// the last; no page is empty.
pub open spec fn is_page_plan(pages: Seq<PageInfo>, total: int, per_page: int) -> bool {
    &&& chunks_cover(total, per_page, pages.len() as int)
    &&& forall|i: int|
        0 <= i < pages.len() ==> {
            let p = #[trigger] pages[i];
            &&& p.per_page == per_page
            &&& p.page_number == i
            &&& p.page_count == if total - per_page * i < per_page {
                total - per_page * i
            } else {
                per_page
            }
            &&& p.has_next == (i + 1 < pages.len())
            &&& p.ranks_fit_with_next()
        }
}

/// The pages of a ranking cover its ranks one after another: the first page
/// starts at rank 1, each page starts right after the page before it ends,
/// and the last page ends at the last rank.
pub proof fn law_pages_partition(pages: Seq<PageInfo>, total: int, per_page: int)
    requires
        per_page > 0,
        is_page_plan(pages, total, per_page),
    ensures
        pages.len() > 0 ==> pages[0].spec_first() == 1,
        forall|i: int|
            0 <= i < pages.len() - 1 ==> (#[trigger] pages[i + 1]).spec_first() == pages[i].spec_last()
                + 1,
        pages.len() > 0 ==> pages.last().spec_last() == total,
{
    assert forall|i: int| 0 <= i < pages.len() - 1 implies (#[trigger] pages[i + 1]).spec_first()
        == pages[i].spec_last() + 1 by {
        let p = pages[i];
        let q = pages[i + 1];
        assert(per_page * (i + 1) == per_page * i + per_page) by (nonlinear_arith);
        assert(per_page * (i + 1) <= per_page * (pages.len() - 1)) by (nonlinear_arith)
            requires
                i + 1 <= pages.len() - 1,
                per_page > 0,
        ;
    }
    if pages.len() > 0 {
        let n = pages.len() as int;
        assert(per_page * (n - 1) + per_page == per_page * n) by (nonlinear_arith);
    }
}

/// The pages of a ranking of `total` videos with `per_page` videos to a page:
/// page `i` holds the videos from rank `per_page * i + 1` on, as many as are
/// left up to `per_page`, and has a next page unless it is the last.
pub fn plan_pages(total: u64, per_page: u64) -> (pages: Vec<PageInfo>)
    requires
        per_page > 0,
        total + per_page < u64::MAX,
    ensures
        is_page_plan(pages@, total as int, per_page as int),
{
    let mut pages: Vec<PageInfo> = Vec::new();
    let mut offset: u64 = 0;
    let mut number: u64 = 0;
    while offset < total
        invariant
            per_page > 0,
            total + per_page < u64::MAX,
            offset <= total,
            offset < total ==> offset == per_page * number,
            offset == total ==> chunks_cover(total as int, per_page as int, number as int),
            number <= offset,
            pages@.len() == number,
            forall|i: int|
                0 <= i < pages@.len() ==> {
                    let p = #[trigger] pages@[i];
                    &&& p.per_page == per_page
                    &&& p.page_number == i
                    &&& p.page_count == if total - per_page * i < per_page {
                        total - per_page * i
                    } else {
                        per_page as int
                    }
                    &&& p.has_next == (per_page * (i + 1) < total)
                    &&& per_page * i < total
                },
        decreases total - offset,
    {
        let left = total - offset;
        let count = if left < per_page { left } else { per_page };
        let has_next = count < left;
        proof {
            assert(per_page * (number + 1) == per_page * number + per_page) by (nonlinear_arith);
        }
        pages.push(PageInfo { per_page, page_number: number, page_count: count, has_next });
        offset = offset + count;
        number = number + 1;
    }
    assert forall|i: int| 0 <= i < pages@.len() implies {
        let p = #[trigger] pages@[i];
        &&& p.has_next == (i + 1 < pages@.len())
        &&& p.ranks_fit_with_next()
    } by {
        let p = pages@[i];
        assert(per_page * (i + 1) == per_page * i + per_page) by (nonlinear_arith);
        if i + 1 < number {
            assert(per_page * (i + 1) <= per_page * (number - 1)) by (nonlinear_arith)
                requires
                    i + 1 <= number - 1,
                    per_page > 0,
            ;
        } else {
            assert(per_page * (i + 1) >= per_page * number) by (nonlinear_arith)
                requires
                    i + 1 >= number,
                    per_page > 0,
            ;
        }
    }
    pages
}

} // verus!

verus! {

/// The most pages that one index page lists.
pub const ROOT_PAGE_COUNT_LIMIT: u64 = 10000;

/// The entry of page `index` in the index: its first and last rank.
pub fn ranking_page(index: u64, info: &PageInfo) -> (r: RankingPage)
    requires
        info.ranks_fit(),
    ensures
        r.index == index,
        r.first_rank == info.spec_first(),
        r.last_rank == info.spec_last(),
{
    RankingPage { index, first_rank: info.start_rank(), last_rank: info.start_rank() - 1 + info.page_count }
}

/// What the pages of an index page link to.
#[derive(Clone, Copy, Debug, PartialEq, Eq, Structural)]
pub enum LinkTarget {
    /// Ranking pages, `ranking-<index>.html`.
    RankingPages,
    /// Index pages, `index-<index>.html`.
    IndexPages,
}

/// One index page to write: its number (none for the root index,
/// `index.html`), the pages it lists, whether it is the root, and what its
/// entries link to.
#[derive(Debug)]
pub struct IndexDocument {
    pub number: Option<u64>,
    pub entries: Vec<RankingPage>,
    pub is_root: bool,
    pub link: LinkTarget,
}

/// Chunk `i` of `pages` in chunks of `ROOT_PAGE_COUNT_LIMIT`.
pub open spec fn index_chunk(pages: Seq<RankingPage>, i: int) -> Seq<RankingPage> {
    let lo = i * ROOT_PAGE_COUNT_LIMIT;
    let hi = (i + 1) * ROOT_PAGE_COUNT_LIMIT;
    pages.subrange(lo, if hi < pages.len() { hi } else { pages.len() as int })
}

/// The summary entry of a chunk of pages: the chunk's number, the first rank
/// of its first page and the last rank of its last page.
pub open spec fn chunk_summary(chunk: Seq<RankingPage>, i: int) -> RankingPage {
    RankingPage { index: i as u64, first_rank: chunk[0].first_rank, last_rank: chunk.last().last_rank }
}

/// The index pages for a list of ranking pages. The pages are cut into chunks
/// of `ROOT_PAGE_COUNT_LIMIT`. With exactly one chunk, the root index lists
/// all pages. Otherwise index page `i` lists chunk `i`, and the root index,
/// which comes last, lists one summary entry for each chunk.
pub fn plan_index(pages: &Vec<RankingPage>) -> (docs: Vec<IndexDocument>)
    requires
        pages@.len() + ROOT_PAGE_COUNT_LIMIT < usize::MAX,
    ensures
        ({
            let n = chunk_count_of(pages@.len() as int);
            if n == 1 {
                &&& docs@.len() == 1
                &&& docs@[0].number is None
                &&& docs@[0].entries@ == pages@
                &&& docs@[0].is_root
                &&& docs@[0].link == LinkTarget::RankingPages
            } else {
                &&& docs@.len() == n + 1
                &&& forall|i: int|
                    0 <= i < n ==> {
                        &&& (#[trigger] docs@[i]).number == Some(i as u64)
                        &&& docs@[i].entries@ == index_chunk(pages@, i)
                        &&& !docs@[i].is_root
                        &&& docs@[i].link == LinkTarget::RankingPages
                    }
                &&& docs@[n].number is None
                &&& docs@[n].is_root
                &&& docs@[n].link == LinkTarget::IndexPages
                &&& docs@[n].entries@.len() == n
                &&& forall|i: int|
                    0 <= i < n ==> #[trigger] docs@[n].entries@[i] == chunk_summary(
                        index_chunk(pages@, i),
                        i,
                    )
            }
        }),
{
    let len = pages.len();
    let limit = ROOT_PAGE_COUNT_LIMIT as usize;
    let mut chunks: Vec<IndexDocument> = Vec::new();
    let mut summaries: Vec<RankingPage> = Vec::new();
    let mut start: usize = 0;
    let mut i: usize = 0;
    while start < len
        invariant
            len == pages@.len(),
            len + ROOT_PAGE_COUNT_LIMIT < usize::MAX,
            limit == ROOT_PAGE_COUNT_LIMIT,
            start <= len,
            start < len ==> start == i * limit,
            start == len ==> chunk_count_of(len as int) == i,
            start < len ==> i < chunk_count_of(len as int),
            i <= start,
            chunks@.len() == i,
            summaries@.len() == i,
            forall|k: int|
                0 <= k < i ==> {
                    &&& (#[trigger] chunks@[k]).number == Some(k as u64)
                    &&& chunks@[k].entries@ == index_chunk(pages@, k)
                    &&& !chunks@[k].is_root
                    &&& chunks@[k].link == LinkTarget::RankingPages
                    &&& summaries@[k] == chunk_summary(index_chunk(pages@, k), k)
                },
        decreases len - start,
    {
        let end = if len - start < limit { len } else { start + limit };
        let mut entries: Vec<RankingPage> = Vec::new();
        let mut j = start;
        while j < end
            invariant
                start <= j <= end <= len,
                len == pages@.len(),
                entries@ == pages@.subrange(start as int, j as int),
            decreases end - j,
        {
            entries.push(pages[j]);
            j = j + 1;
            assert(entries@ =~= pages@.subrange(start as int, j as int));
        }
        proof {
            assert((i + 1) * limit == i * limit + limit) by (nonlinear_arith);
            assert(entries@ =~= index_chunk(pages@, i as int));
            lemma_chunk_count_step(len as int, i as int);
        }
        let summary = RankingPage {
            index: i as u64,
            first_rank: pages[start].first_rank,
            last_rank: pages[end - 1].last_rank,
        };
        summaries.push(summary);
        chunks.push(IndexDocument { number: Some(i as u64), entries, is_root: false, link: LinkTarget::RankingPages });
        start = end;
        i = i + 1;
    }
    if i == 1 {
        let only = chunks.pop().unwrap();
        assert(only.entries@ =~= pages@);
        let mut docs: Vec<IndexDocument> = Vec::new();
        docs.push(IndexDocument { number: None, entries: only.entries, is_root: true, link: LinkTarget::RankingPages });
        docs
    } else {
        let ghost before = chunks@;
        chunks.push(IndexDocument { number: None, entries: summaries, is_root: true, link: LinkTarget::IndexPages });
        assert forall|k: int| 0 <= k < i implies #[trigger] chunks@[k] == before[k] by {}
        assert forall|k: int| 0 <= k < i implies #[trigger] chunks@[i as int].entries@[k]
            == chunk_summary(index_chunk(pages@, k), k) by {
            assert(before[k].number == Some(k as u64));
        }
        chunks
    }
}

/// Every ranking page is listed by exactly the index page of its chunk: page
/// `j` is entry `j % ROOT_PAGE_COUNT_LIMIT` of chunk `j / ROOT_PAGE_COUNT_LIMIT`,
/// and there are that many chunks.
pub proof fn law_index_chunks(pages: Seq<RankingPage>, j: int)
    requires
        0 <= j < pages.len(),
    ensures
        j / (ROOT_PAGE_COUNT_LIMIT as int) < chunk_count_of(pages.len() as int),
        index_chunk(pages, j / (ROOT_PAGE_COUNT_LIMIT as int))[j % (ROOT_PAGE_COUNT_LIMIT as int)]
            == pages[j],
        j % (ROOT_PAGE_COUNT_LIMIT as int) < index_chunk(pages, j / (ROOT_PAGE_COUNT_LIMIT as int)).len(),
{
    let l = ROOT_PAGE_COUNT_LIMIT as int;
    let i = j / l;
    let r = j % l;
    assert(j == i * l + r && 0 <= r < l && i >= 0) by (nonlinear_arith)
        requires
            l == 10000,
            i == j / l,
            r == j % l,
            j >= 0,
    ;
    assert((i + 1) * l == i * l + l) by (nonlinear_arith);
    lemma_chunk_count_step(pages.len() as int, i);
}

/// The number of chunks of `ROOT_PAGE_COUNT_LIMIT` that `len` pages make.
pub open spec fn chunk_count_of(len: int) -> int {
    if len % (ROOT_PAGE_COUNT_LIMIT as int) == 0 {
        len / (ROOT_PAGE_COUNT_LIMIT as int)
    } else {
        len / (ROOT_PAGE_COUNT_LIMIT as int) + 1
    }
}

proof fn lemma_chunk_count_step(len: int, i: int)
    requires
        0 <= i,
        i * ROOT_PAGE_COUNT_LIMIT < len,
    ensures
        i < chunk_count_of(len),
        len <= (i + 1) * ROOT_PAGE_COUNT_LIMIT ==> chunk_count_of(len) == i + 1,
        (i + 1) * ROOT_PAGE_COUNT_LIMIT < len ==> i + 1 < chunk_count_of(len),
{
    let l = ROOT_PAGE_COUNT_LIMIT as int;
    assert(i < chunk_count_of(len)) by (nonlinear_arith)
        requires
            i * l < len,
            l == 10000,
            chunk_count_of(len) == if len % l == 0 { len / l } else { len / l + 1 },
    ;
    if len <= (i + 1) * l {
        assert(chunk_count_of(len) == i + 1) by (nonlinear_arith)
            requires
                i * l < len,
                len <= (i + 1) * l,
                l == 10000,
                chunk_count_of(len) == if len % l == 0 { len / l } else { len / l + 1 },
        ;
    }
    if (i + 1) * l < len {
        assert(i + 1 < chunk_count_of(len)) by (nonlinear_arith)
            requires
                (i + 1) * l < len,
                l == 10000,
                chunk_count_of(len) == if len % l == 0 { len / l } else { len / l + 1 },
        ;
    }
}

} // verus!
