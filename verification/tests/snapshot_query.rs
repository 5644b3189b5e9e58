use nico_ranking::datetime::OffsetDateTime;
use nico_ranking::filter_json::{bool_false, bool_not, FilterJson, RangeFilter};
use nico_ranking::query_params::{is_ten, is_zero, QueryParams, RankingSorting, SortingParseError, SortingWithOrder};

fn pairs(q: &QueryParams, filter_text: &str) -> Vec<(String, String)> {
    q.query_pairs(filter_text)
}

fn p(k: &str, v: &str) -> (String, String) {
    (k.to_string(), v.to_string())
}

#[test]
fn new_params_send_only_query_and_sort() {
    let q = QueryParams::new("test", RankingSorting::ViewCounter.decreasing());
    assert_eq!(pairs(&q, ""), vec![p("q", "test"), p("_sort", "-viewCounter")]);
}

#[test]
fn full_params() {
    let mut q = QueryParams::new("", RankingSorting::StartTime.increasing());
    q.with_fields(&["contentId", "title"]);
    q.with_targets(&["tags"]);
    q.with_targets(&["title"]);
    let t = OffsetDateTime { secs: 0, nanos: 0, offset: 0 };
    let mut range = RangeFilter::start_time(t, t);
    range.include_lower();
    q.set_filter(FilterJson::Range(range));
    q.set_limit(100);
    q.set_offset(5);
    q.set_context("ctx");
    assert_eq!(
        pairs(&q, "{\"type\":\"range\"}"),
        vec![
            p("q", ""),
            p("targets", "tags,title"),
            p("fields", "contentId,title"),
            p("jsonFilter", "{\"type\":\"range\"}"),
            p("_sort", "-startTime"),
            p("_offset", "5"),
            p("_limit", "100"),
            p("_context", "ctx"),
        ]
    );
}

#[test]
fn default_limit_and_zero_offset_are_left_out() {
    let mut q = QueryParams::new("x", RankingSorting::LengthSeconds.decreasing());
    q.set_limit(10);
    q.set_offset(0);
    q.set_query("y".to_string());
    q.set_sort(SortingWithOrder::Increasing(RankingSorting::CommentCounter));
    assert_eq!(pairs(&q, "ignored"), vec![p("q", "y"), p("_sort", "+commentCounter")]);
}

#[test]
fn increasing_sorts_largest_first_as_well() {
    assert_eq!(RankingSorting::MylistCounter.increasing(), SortingWithOrder::Decreasing(RankingSorting::MylistCounter));
    assert_eq!(RankingSorting::MylistCounter.decreasing(), SortingWithOrder::Decreasing(RankingSorting::MylistCounter));
}

#[test]
fn sorting_names_round_trip() {
    for s in [
        RankingSorting::ViewCounter,
        RankingSorting::MylistCounter,
        RankingSorting::LengthSeconds,
        RankingSorting::StartTime,
        RankingSorting::CommentCounter,
        RankingSorting::LastCommentTime,
    ] {
        assert_eq!(RankingSorting::from_str(s.to_str()), Some(s));
        for o in [SortingWithOrder::Decreasing(s), SortingWithOrder::Increasing(s)] {
            assert_eq!(SortingWithOrder::parse_param(&o.to_param_string()), Ok(o));
        }
    }
    assert_eq!(RankingSorting::from_str("viewcounter"), None);
}

#[test]
fn sorting_param_errors() {
    assert_eq!(SortingWithOrder::parse_param(""), Err(SortingParseError::TooShort));
    assert_eq!(SortingWithOrder::parse_param("-"), Err(SortingParseError::TooShort));
    assert_eq!(SortingWithOrder::parse_param("*viewCounter"), Err(SortingParseError::NoOrderSign));
    assert_eq!(SortingWithOrder::parse_param("é"), Err(SortingParseError::NoOrderSign));
    assert_eq!(SortingWithOrder::parse_param("+views"), Err(SortingParseError::UnknownSorting));
    assert_eq!(
        SortingWithOrder::parse_param("+lastCommentTime"),
        Ok(SortingWithOrder::Increasing(RankingSorting::LastCommentTime))
    );
}

#[test]
fn skip_helpers() {
    assert!(is_zero(&0));
    assert!(!is_zero(&1));
    assert!(is_ten(&10));
    assert!(!is_ten(&100));
    assert!(bool_not(&false));
    assert!(!bool_not(&true));
    assert!(!bool_false());
}

#[test]
fn range_bounds() {
    let mut r = RangeFilter::view_counter(1, 5);
    match &r {
        RangeFilter::ViewCounter { from, to, include_lower, include_upper } => {
            assert_eq!((*from, *to, *include_lower, *include_upper), (1, 5, false, false));
        }
        _ => panic!("wrong variant"),
    }
    r.include_upper();
    match &r {
        RangeFilter::ViewCounter { include_lower, include_upper, .. } => {
            assert_eq!((*include_lower, *include_upper), (false, true));
        }
        _ => panic!("wrong variant"),
    }
    r.include_lower().include_upper();
    match &r {
        RangeFilter::ViewCounter { include_lower, include_upper, .. } => {
            assert_eq!((*include_lower, *include_upper), (true, true));
        }
        _ => panic!("wrong variant"),
    }
}
