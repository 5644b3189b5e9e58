use nico_ranking::datetime::UtcDateTime;
use nico_ranking::duration::Duration;
use nico_ranking::html::{
    index_file, index_file_name, ranking_file_name, render_index, render_ranking_page, PageTemplates,
};
use nico_ranking::page::{LinkTarget, PageInfo, RankingPage};
use nico_ranking::records::NewVideoInfo;
use nico_ranking::text::replace_all;

fn templates() -> PageTemplates {
    PageTemplates {
        head: "<title>{title}</title>".to_string(),
        body_head: "BH".to_string(),
        body_foot: "BF".to_string(),
    }
}

fn video(id: &str, views: u32, length: u64) -> NewVideoInfo {
    NewVideoInfo {
        last_modified: UtcDateTime { secs: 0, nanos: 0 },
        content_id: id.to_string(),
        title: String::new(),
        description: None,
        view_counter: views,
        mylist_counter: 0,
        length_seconds: Duration::from_secs(length),
        thumbnail_url: None,
        start_time: UtcDateTime { secs: 0, nanos: 0 },
        last_res_body: None,
        comment_counter: 0,
        last_comment_time: None,
        category_tags: None,
        tags: Vec::new(),
        genre: None,
    }
}

fn prev_cur_next(pn: u64, prev: Option<(u64, u64)>, next: Option<(u64, u64)>, range: (u64, u64)) -> String {
    let mut s = String::new();
    match prev {
        None => s.push_str("    <a href=\"index.html\" class=\"left\">← prev (ランキングトップ)</a>\n"),
        Some((a, b)) => s.push_str(&format!(
            "    <a href=\"ranking-{}.html\" class=\"left\">← prev ({}位〜{}位)</a>\n",
            pn - 1,
            a,
            b
        )),
    }
    match next {
        None => s.push_str("    <a href=\"index.html\" class=\"right\">(ランキングトップ) next →</a>\n"),
        Some((a, b)) => s.push_str(&format!(
            "    <a href=\"ranking-{}.html\" class=\"right\">({}位〜{}位) next →</a>\n",
            pn + 1,
            a,
            b
        )),
    }
    s.push_str(&format!("    <div class=\"center\">{}位〜{}位</div>\n", range.0, range.1));
    s
}

#[test]
fn single_page_with_one_video() {
    let videos = vec![video("sm9", 3, 100)];
    let info = PageInfo { per_page: 2, page_number: 0, page_count: 1, has_next: false };
    let (html, count) = render_ranking_page(&videos, 0, 1, &info, &templates());
    assert_eq!(count, 1);
    let pcn = prev_cur_next(0, None, None, (1, 1));
    let item = "    <li class=\"grid-item\">\n        <div class=\"ranking-header\"><a href=\"https://nicovideo.jp/watch/sm9\" class=\"ranking-header-link\">#0</a></div>\n        <div>\n            <div>5分0秒</div>\n            <div>1分40秒 3回再生</div>\n            <iframe class=\"nico-frame lazy\" width=\"312\" height=\"176\" scrolling=\"no\" data-src=\"https://ext.nicovideo.jp/thumb/sm9\"></iframe>\n        </div>\n    </li>\n";
    let expected = format!(
        "<!DOCTYPE html>\n<html lang=\"en\">\n<head>\n<title>人類が動画にかけた時間のランキング(1位〜1位)</title>\n</head>\n<body>\nBH\n<header class=\"header\">\n{}</header>\n<ul class=\"container\">\n{}</ul>\n<footer class=\"footer\">\n{}</footer>\nBF\n</body>\n</html>\n",
        pcn, item, pcn
    );
    assert_eq!(html, expected);
}

#[test]
fn middle_page_links_both_ways() {
    let videos = vec![video("a", 1, 1), video("b", 2, 2), video("c", 3, 3), video("d", 4, 4), video("e", 5, 5)];
    let info = PageInfo { per_page: 2, page_number: 1, page_count: 2, has_next: true };
    let (html, count) = render_ranking_page(&videos, 2, 4, &info, &templates());
    assert_eq!(count, 2);
    let pcn = prev_cur_next(1, Some((1, 2)), Some((5, 6)), (3, 4));
    assert!(html.contains(&format!("<header class=\"header\">\n{}</header>\n", pcn)));
    assert!(html.contains(&format!("<footer class=\"footer\">\n{}</footer>\n", pcn)));
    assert!(html.contains("ranking-header-link\">#2</a>"));
    assert!(html.contains("ranking-header-link\">#3</a>"));
    assert!(!html.contains("#4</a>"));
    assert!(html.contains("<title>人類が動画にかけた時間のランキング(3位〜4位)</title>"));
}

#[test]
fn root_index_page() {
    let entries = vec![
        RankingPage { index: 0, first_rank: 1, last_rank: 200 },
        RankingPage { index: 1, first_rank: 201, last_rank: 250 },
    ];
    let html = render_index(&entries, true, LinkTarget::RankingPages, &templates());
    let expected = "<!DOCTYPE html>\n<html lang=\"en\">\n<head>\n<title>人類が動画にかけた時間のランキング</title>\n</head>\n<body>\nBH\n<ul class=\"container\">\n    <li class=\"grid-item\"><a href=\"ranking-0.html\">1位~200位</a></li>\n    <li class=\"grid-item\"><a href=\"ranking-1.html\">201位~250位</a></li>\n</ul>\nBF\n</body>\n</html>\n";
    assert_eq!(html, expected);
}

#[test]
fn chunk_index_page_has_a_range() {
    let entries = vec![
        RankingPage { index: 4, first_rank: 801, last_rank: 1000 },
        RankingPage { index: 5, first_rank: 1001, last_rank: 1200 },
    ];
    let html = render_index(&entries, false, LinkTarget::IndexPages, &templates());
    let expected = "<!DOCTYPE html>\n<html lang=\"en\">\n<head>\n<title>人類が動画にかけた時間のランキング(801位~1200位)</title>\n</head>\n<body>\nBH\n<header class=\"header\">\n    <div class=\"center\">801位~1200位</div>\n</header>\n<ul class=\"container\">\n    <li class=\"grid-item\"><a href=\"index-4.html\">801位~1000位</a></li>\n    <li class=\"grid-item\"><a href=\"index-5.html\">1001位~1200位</a></li>\n</ul>\nBF\n</body>\n</html>\n";
    assert_eq!(html, expected);
}

#[test]
fn page_file_names() {
    assert_eq!(ranking_file_name(12), "ranking-12.html");
    assert_eq!(index_file_name(None), "index.html");
    assert_eq!(index_file_name(Some(3)), "index-3.html");
}

#[test]
fn replace_matches_str_replace() {
    for (text, from, to) in [
        ("a{title}b{title}", "{title}", "X"),
        ("no placeholder", "{title}", "X"),
        ("aaa", "aa", "b"),
        ("{title}", "{title}", "人類"),
        ("", "x", "y"),
        ("日本語テキスト", "語", "go"),
    ] {
        assert_eq!(replace_all(text, from, to), text.replace(from, to));
    }
}

#[test]
fn one_chunk_of_pages_makes_only_the_root_index() {
    let pages = vec![
        RankingPage { index: 0, first_rank: 1, last_rank: 200 },
        RankingPage { index: 1, first_rank: 201, last_rank: 250 },
    ];
    let files = index_file(&pages, &templates());
    assert_eq!(files.len(), 1);
    assert_eq!(files[0].0, "index.html");
    assert_eq!(files[0].1, render_index(&pages, true, LinkTarget::RankingPages, &templates()));
}

#[test]
fn many_pages_make_chunk_indexes_and_a_summary_root() {
    let pages: Vec<RankingPage> = (0..10001u64)
        .map(|i| RankingPage { index: i, first_rank: i * 200 + 1, last_rank: i * 200 + 200 })
        .collect();
    let files = index_file(&pages, &templates());
    assert_eq!(files.len(), 3);
    assert_eq!(files[0].0, "index-0.html");
    assert_eq!(files[0].1, render_index(&pages[..10000].to_vec(), false, LinkTarget::RankingPages, &templates()));
    assert_eq!(files[1].0, "index-1.html");
    assert_eq!(files[1].1, render_index(&pages[10000..].to_vec(), false, LinkTarget::RankingPages, &templates()));
    assert_eq!(files[2].0, "index.html");
    let summaries = vec![
        RankingPage { index: 0, first_rank: 1, last_rank: 2_000_000 },
        RankingPage { index: 1, first_rank: 2_000_001, last_rank: 2_000_200 },
    ];
    assert_eq!(files[2].1, render_index(&summaries, true, LinkTarget::IndexPages, &templates()));
    assert!(files[2].1.contains("<a href=\"index-1.html\">2000001位~2000200位</a>"));
}

#[test]
fn no_pages_give_one_root_index_file() {
    let files = index_file(&Vec::new(), &templates());
    assert_eq!(files.len(), 1);
    assert_eq!(files[0].0, "index.html");
    assert!(files[0].1.contains("<ul class=\"container\">\n</ul>"));
}
