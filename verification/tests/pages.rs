use nico_ranking::iter_util::MyIterUtil;
use nico_ranking::page::{plan_index, plan_pages, ranking_page, LinkTarget, PageInfo, RankingPage};

fn info(per_page: u64, page_number: u64, page_count: u64, has_next: bool) -> PageInfo {
    PageInfo { per_page, page_number, page_count, has_next }
}

#[test]
fn first_full_page_ranges() {
    let p = info(200, 0, 200, true);
    assert_eq!(p.start_rank(), 1);
    assert_eq!(p.last_rank(), 200);
    assert_eq!(p.page_rank_range(), (1, 200));
    assert_eq!(p.prev_rank_range(), None);
    assert_eq!(p.next_rank_range(), Some((201, 400)));
}

#[test]
fn last_partial_page_ranges() {
    let p = info(200, 2, 50, false);
    assert_eq!(p.page_rank_range(), (401, 450));
    assert_eq!(p.prev_rank_range(), Some((201, 400)));
    assert_eq!(p.next_rank_range(), None);
}

#[test]
fn next_range_keeps_this_page_length() {
    let p = info(200, 1, 30, true);
    assert_eq!(p.next_rank_range(), Some((401, 430)));
}

#[test]
fn empty_page_ends_before_it_starts() {
    let p = info(10, 3, 0, false);
    assert_eq!(p.page_rank_range(), (31, 30));
}

#[test]
fn pages_of_a_ranking() {
    let pages = plan_pages(450, 200);
    assert_eq!(pages.len(), 3);
    let counts: Vec<u64> = pages.iter().map(|p| p.page_count).collect();
    assert_eq!(counts, vec![200, 200, 50]);
    let nexts: Vec<bool> = pages.iter().map(|p| p.has_next).collect();
    assert_eq!(nexts, vec![true, true, false]);
    for (i, p) in pages.iter().enumerate() {
        assert_eq!(p.page_number, i as u64);
        assert_eq!(p.per_page, 200);
    }
    assert_eq!(pages[2].page_rank_range(), (401, 450));
}

#[test]
fn pages_partition_the_ranks() {
    for (total, per) in [(1u64, 1u64), (199, 200), (200, 200), (401, 200), (1000, 7)] {
        let pages = plan_pages(total, per);
        let mut next_start = 1;
        for p in &pages {
            assert_eq!(p.start_rank(), next_start);
            next_start = p.last_rank() + 1;
        }
        assert_eq!(next_start, total + 1);
    }
}

#[test]
fn no_pages_for_no_videos() {
    assert!(plan_pages(0, 200).is_empty());
}

#[test]
fn index_entry_of_a_page() {
    let p = info(200, 1, 120, false);
    let e = ranking_page(1, &p);
    assert_eq!((e.index, e.first_rank, e.last_rank), (1, 201, 320));
}

fn entries(n: u64) -> Vec<RankingPage> {
    (0..n).map(|i| RankingPage { index: i, first_rank: i * 10 + 1, last_rank: i * 10 + 10 }).collect()
}

#[test]
fn one_chunk_makes_one_root_index() {
    let docs = plan_index(&entries(3));
    assert_eq!(docs.len(), 1);
    assert_eq!(docs[0].number, None);
    assert!(docs[0].is_root);
    assert_eq!(docs[0].link, LinkTarget::RankingPages);
    assert_eq!(docs[0].entries.len(), 3);
}

#[test]
fn no_pages_make_an_empty_root_index() {
    let docs = plan_index(&entries(0));
    assert_eq!(docs.len(), 1);
    assert!(docs[0].is_root);
    assert_eq!(docs[0].link, LinkTarget::IndexPages);
    assert!(docs[0].entries.is_empty());
}

#[test]
fn many_pages_make_index_pages_and_a_root() {
    let docs = plan_index(&entries(10_001));
    assert_eq!(docs.len(), 3);
    assert_eq!(docs[0].number, Some(0));
    assert_eq!(docs[0].entries.len(), 10_000);
    assert!(!docs[0].is_root);
    assert_eq!(docs[1].number, Some(1));
    assert_eq!(docs[1].entries.len(), 1);
    assert_eq!(docs[1].entries[0].index, 10_000);
    let root = &docs[2];
    assert!(root.is_root);
    assert_eq!(root.link, LinkTarget::IndexPages);
    assert_eq!(root.entries.len(), 2);
    assert_eq!((root.entries[0].index, root.entries[0].first_rank, root.entries[0].last_rank), (0, 1, 100_000));
    assert_eq!(
        (root.entries[1].index, root.entries[1].first_rank, root.entries[1].last_rank),
        (1, 100_001, 100_010)
    );
}

#[test]
fn has_next_flags() {
    let mut it = vec![1, 2, 3].with_has_next();
    assert_eq!(it.next(), Some((1, true)));
    assert_eq!(it.next(), Some((2, true)));
    assert_eq!(it.next(), Some((3, false)));
    assert_eq!(it.next(), None);
    assert_eq!(it.next(), None);
    let mut empty = Vec::<u8>::new().with_has_next();
    assert_eq!(empty.next(), None);
}

#[test]
fn first_rank_needs_only_the_first_rank_to_fit() {
    let info = PageInfo { per_page: 1, page_number: u64::MAX - 1, page_count: 5, has_next: false };
    assert_eq!(info.start_rank(), u64::MAX);
    assert_eq!(info.prev_rank_range(), Some((u64::MAX - 1, u64::MAX - 1)));
    assert_eq!(info.next_rank_range(), None);
    let first = PageInfo { per_page: u64::MAX, page_number: 0, page_count: u64::MAX, has_next: false };
    assert_eq!(first.prev_rank_range(), None);
    let full = PageInfo { per_page: 200, page_number: 0, page_count: 200, has_next: true };
    assert_eq!(full.next_rank_range(), Some((201, 400)));
}
