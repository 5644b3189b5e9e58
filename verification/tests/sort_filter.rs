use nico_ranking::datetime::UtcDateTime;
use nico_ranking::duration::Duration;
use nico_ranking::filter_expr::{parse, retain_matching, try_parse, FilterExpr, FilterParseError};
use nico_ranking::ranking::{compare_ranking, rank_videos, ranking_key, reversing, sort_ranking, RankingType, Reversing};
use nico_ranking::records::NewVideoInfo;
use std::cmp::Ordering;

fn video(id: &str, views: u32, length: u64, tags: &[&str]) -> NewVideoInfo {
    NewVideoInfo {
        last_modified: UtcDateTime { secs: 0, nanos: 0 },
        content_id: id.to_string(),
        title: String::new(),
        description: None,
        view_counter: views,
        mylist_counter: 0,
        length_seconds: Duration::from_secs(length),
        thumbnail_url: None,
        start_time: UtcDateTime { secs: 0, nanos: 0 },
        last_res_body: None,
        comment_counter: 0,
        last_comment_time: None,
        category_tags: None,
        tags: tags.iter().map(|t| t.to_string()).collect(),
        genre: None,
    }
}

fn ids(v: &[NewVideoInfo]) -> Vec<&str> {
    v.iter().map(|x| x.content_id.as_str()).collect()
}

fn words(s: &str) -> Vec<String> {
    s.split_whitespace().map(|w| w.to_string()).collect()
}

#[test]
fn ranking_keys() {
    let v = video("a", 3, 100, &[]);
    assert_eq!(ranking_key(RankingType::WatchSum, &v), 300);
    assert_eq!(ranking_key(RankingType::WatchCnt, &v), 3);
    assert_eq!(ranking_key(RankingType::WatchLng, &v), 100);
}

#[test]
fn ranking_types_from_arguments() {
    assert_eq!(RankingType::from_arg("watch-sum"), Some(RankingType::WatchSum));
    assert_eq!(RankingType::from_arg("watch-cnt"), Some(RankingType::WatchCnt));
    assert_eq!(RankingType::from_arg("watch-lng"), Some(RankingType::WatchLng));
    assert_eq!(RankingType::from_arg("watch"), None);
}

#[test]
fn reversed_order() {
    assert_eq!(reversing(3).cmp(&reversing(5)), Ordering::Greater);
    assert_eq!(reversing(5).cmp(&reversing(3)), Ordering::Less);
    assert_eq!(reversing(4).cmp(&reversing(4)), Ordering::Equal);
    let a = video("a", 1, 10, &[]);
    let b = video("b", 2, 10, &[]);
    assert_eq!(compare_ranking(RankingType::WatchCnt, &a, &b), Ordering::Greater);
    assert_eq!(compare_ranking(RankingType::WatchLng, &a, &b), Ordering::Equal);
}

#[test]
fn sort_is_descending_and_stable() {
    let mut v = vec![
        video("a", 1, 10, &[]),
        video("b", 5, 1, &[]),
        video("c", 2, 5, &[]),
        video("d", 10, 1, &[]),
        video("e", 1, 5, &[]),
    ];
    sort_ranking(&mut v, RankingType::WatchSum);
    assert_eq!(ids(&v), vec!["a", "c", "d", "b", "e"]);
    sort_ranking(&mut v, RankingType::WatchLng);
    assert_eq!(ids(&v), vec!["a", "c", "e", "d", "b"]);
}

#[test]
fn sort_many_videos_matches_std_stable_sort() {
    let mut v: Vec<NewVideoInfo> = (0..5000u64).map(|i| video(&i.to_string(), ((i * 7919) % 97) as u32, 1, &[])).collect();
    let mut expected: Vec<String> = v.iter().map(|x| x.content_id.clone()).collect();
    let keys: Vec<u64> = v.iter().map(|x| x.view_counter as u64).collect();
    let mut order: Vec<usize> = (0..v.len()).collect();
    order.sort_by(|a, b| keys[*b].cmp(&keys[*a]));
    expected = order.iter().map(|i| expected[*i].clone()).collect();
    sort_ranking(&mut v, RankingType::WatchCnt);
    let got: Vec<String> = v.iter().map(|x| x.content_id.clone()).collect();
    assert_eq!(got, expected);
}

#[test]
fn parse_conditions() {
    assert!(matches!(try_parse(&words("")), Ok(None)));
    assert!(parse(&words("")).is_none());
    let f = parse(&words("in_tags a and not in_tags b")).unwrap();
    match &f {
        FilterExpr::And(l, r) => {
            assert!(matches!(&**l, FilterExpr::InTags(t) if t == "a"));
            assert!(matches!(&**r, FilterExpr::Not(inner) if matches!(&**inner, FilterExpr::InTags(t) if t == "b")));
        }
        _ => panic!("expected and"),
    }
    let g = parse(&words("not in_tags a or in_tags b")).unwrap();
    assert!(matches!(g, FilterExpr::Not(_)));
}

#[test]
fn parse_errors() {
    assert_eq!(try_parse(&words("not")).err(), Some(FilterParseError::MissingExpr));
    assert_eq!(try_parse(&words("in_tags a and")).err(), Some(FilterParseError::MissingExpr));
    assert_eq!(try_parse(&words("in_tags")).err(), Some(FilterParseError::MissingTagName));
    assert_eq!(try_parse(&words("foo")).err(), Some(FilterParseError::UnknownKeyword(0)));
    assert_eq!(try_parse(&words("in_tags a xor in_tags b")).err(), Some(FilterParseError::UnknownKeyword(2)));
    assert_eq!(try_parse(&words("not in_tags a in_tags b")).err(), Some(FilterParseError::UnknownKeyword(3)));
}

#[test]
fn conditions_on_tags() {
    let tags: Vec<String> = words("vocaloid game");
    let f = parse(&words("in_tags game and not in_tags music")).unwrap();
    assert!(f.matches(&tags));
    let g = parse(&words("not in_tags game or in_tags music")).unwrap();
    assert!(!g.matches(&tags));
    let h = parse(&words("in_tags music or in_tags vocaloid")).unwrap();
    assert!(h.matches(&tags));
}

#[test]
fn retain_keeps_order() {
    let v = vec![
        video("a", 1, 1, &["x"]),
        video("b", 1, 1, &["y"]),
        video("c", 1, 1, &["x", "y"]),
        video("d", 1, 1, &[]),
    ];
    let f = parse(&words("in_tags x")).unwrap();
    let kept = retain_matching(v, &f);
    assert_eq!(ids(&kept), vec!["a", "c"]);
}

#[test]
fn rank_with_and_without_filter() {
    let make = || {
        vec![
            video("a", 1, 1, &["x"]),
            video("b", 9, 1, &["y"]),
            video("c", 5, 1, &["x"]),
        ]
    };
    let all = rank_videos(make(), RankingType::WatchCnt, None);
    assert_eq!(ids(&all), vec!["b", "c", "a"]);
    let f = parse(&words("in_tags x")).unwrap();
    let some = rank_videos(make(), RankingType::WatchCnt, Some(&f));
    assert_eq!(ids(&some), vec!["c", "a"]);
}

#[test]
fn reversing_orders_largest_first() {
    assert_eq!(Reversing(1).cmp(&Reversing(2)), Ordering::Greater);
    assert_eq!(Reversing(1).partial_cmp(&Reversing(2)), Some(Ordering::Greater));
    assert_eq!(Reversing(7).partial_cmp(&Reversing(7)), Some(Ordering::Equal));
    assert_eq!(Reversing(u64::MAX).partial_cmp(&Reversing(0)), Some(Ordering::Less));
    let mut keys = vec![Reversing(3), Reversing(9), Reversing(1)];
    keys.sort_by(|a, b| a.cmp(b));
    assert_eq!(keys, vec![Reversing(9), Reversing(3), Reversing(1)]);
}
