use chrono::TimeZone;
use nico_ranking::datetime::{OffsetDateTime, TimeDelta, UtcDateTime};
use nico_ranking::duration::Duration;
use nico_ranking::fetch::{
    compute_until, end_attempt, first_period, is_end_marker, next_period, retry_wait, to_new_video_info, AttemptEnd, FetchProgress, RetryWait,
    SnapshotVersion, VideoInfo,
};
use nico_ranking::phase::{phase_names, Phase};
use nico_ranking::pipeline::{duration_to_string, get_nico_data_args, get_nico_data_args_with_date};
use std::cmp::Ordering;

const DAY: i64 = 86400;

fn t(secs: i64) -> OffsetDateTime {
    OffsetDateTime { secs, nanos: 0, offset: 9 * 3600 }
}

fn week() -> TimeDelta {
    TimeDelta { secs: 7 * DAY, nanos: 0 }
}

#[test]
fn retry_waits() {
    for code in [500u16, 501, 502, 503, 504, 505, 506, 507, 508, 510, 511] {
        assert_eq!(retry_wait(Some(code), 5, 1), RetryWait::ServerError(5));
    }
    for code in [509u16, 404, 200, 499, 512] {
        assert_eq!(retry_wait(Some(code), 5, 1), RetryWait::UnknownStatus(1));
    }
    assert_eq!(retry_wait(None, 5, 1), RetryWait::Immediately);
}

#[test]
fn fetch_progress_steps() {
    let mut f = FetchProgress::new();
    assert!(f.wants_more());
    assert!(!f.needs_version_check());
    assert_eq!(f.begin_request(), Some(0));
    assert!(!f.record_response(100, 250));
    assert_eq!((f.got, f.full_count, f.loop_counter), (100, 250, 1));
    assert_eq!(f.begin_request(), Some(100));
    assert!(!f.record_response(100, 250));
    assert_eq!(f.begin_request(), Some(200));
    assert!(!f.record_response(50, 250));
    assert!(!f.wants_more());
    assert!(f.record_response(0, 250));
}

#[test]
fn version_checked_every_hundred_requests() {
    let mut f = FetchProgress::new();
    let mut checks = Vec::new();
    for i in 0..300 {
        if f.needs_version_check() {
            checks.push(i);
        }
        f.begin_request();
    }
    assert_eq!(checks, vec![99, 199, 299]);
}

#[test]
fn offsets_stop_past_the_limit() {
    let mut f = FetchProgress { got: 100_000, full_count: 200_000, loop_counter: 0 };
    assert_eq!(f.begin_request(), Some(100_000));
    f.record_response(100, 200_000);
    assert_eq!(f.begin_request(), None);
}

#[test]
fn periods_of_a_range() {
    let until = t(10 * DAY);
    let (a, b) = first_period(t(0), until, week());
    assert_eq!((a.secs, b.secs), (0, 7 * DAY));
    let (c, d) = next_period(b, until, week()).unwrap();
    assert_eq!((c.secs, d.secs), (7 * DAY, 10 * DAY));
    assert!(next_period(d, until, week()).is_none());
}

#[test]
fn short_last_period_is_dropped() {
    let until = t(7 * DAY + 59);
    let (_, b) = first_period(t(0), until, week());
    assert!(next_period(b, until, week()).is_none());
    let until = t(7 * DAY + 60);
    let (c, d) = next_period(b, until, week()).unwrap();
    assert_eq!((c.secs, d.secs), (7 * DAY, 7 * DAY + 60));
}

#[test]
fn period_nanos_carry() {
    let start = OffsetDateTime { secs: 0, nanos: 700_000_000, offset: 0 };
    let per = TimeDelta { secs: 1, nanos: 500_000_000 };
    let (_, end) = first_period(start, OffsetDateTime { secs: 100, nanos: 0, offset: 0 }, per);
    assert_eq!((end.secs, end.nanos), (2, 200_000_000));
}

#[test]
fn range_end_defaults_to_now() {
    let now = UtcDateTime { secs: 1234, nanos: 5 };
    assert_eq!(compute_until(None, now, 9 * 3600), OffsetDateTime { secs: 1234, nanos: 5, offset: 9 * 3600 });
    assert_eq!(compute_until(Some(t(7)), now, 0), t(7));
}

#[test]
fn end_marker() {
    assert!(is_end_marker(&OffsetDateTime { secs: 0, nanos: 0, offset: 0 }));
    assert!(!is_end_marker(&OffsetDateTime { secs: 0, nanos: 0, offset: 3600 }));
    assert!(!is_end_marker(&OffsetDateTime { secs: 1, nanos: 0, offset: 0 }));
}

#[test]
fn snapshot_versions() {
    let a = SnapshotVersion { last_modified: t(5) };
    let b = SnapshotVersion { last_modified: OffsetDateTime { secs: 5, nanos: 0, offset: 0 } };
    let c = SnapshotVersion { last_modified: t(6) };
    assert!(a.same_as(&b));
    assert!(!a.same_as(&c));
}

fn full_video() -> VideoInfo {
    VideoInfo {
        content_id: Some("sm9".to_string()),
        title: Some("title".to_string()),
        description: None,
        view_counter: Some(10),
        mylist_counter: Some(2),
        length_seconds: Some(Duration::from_secs(320)),
        thumbnail_url: Some("u".to_string()),
        start_time: Some(t(100)),
        last_res_body: None,
        comment_counter: Some(3),
        last_comment_time: Some(t(200)),
        category_tags: None,
        tags: Some(vec!["a".to_string()]),
        genre: Some("g".to_string()),
    }
}

#[test]
fn stored_videos() {
    let n = to_new_video_info(&t(50), full_video()).unwrap();
    assert_eq!(n.content_id, "sm9");
    assert_eq!(n.last_modified, UtcDateTime { secs: 50, nanos: 0 });
    assert_eq!(n.start_time, UtcDateTime { secs: 100, nanos: 0 });
    assert_eq!(n.last_comment_time, Some(UtcDateTime { secs: 200, nanos: 0 }));
    assert_eq!(n.length_seconds.as_secs(), 320);
    assert_eq!(n.tags, vec!["a".to_string()]);
    let mut v = full_video();
    v.tags = None;
    assert!(to_new_video_info(&t(50), v).is_none());
    let mut v = full_video();
    v.view_counter = None;
    assert!(to_new_video_info(&t(50), v).is_none());
}

#[test]
fn phases() {
    let all = [Phase::GetNicoData, Phase::MergeNicoData, Phase::SortRanking, Phase::MergeRankings, Phase::HtmlGen];
    let names = phase_names();
    for (i, p) in all.iter().enumerate() {
        assert_eq!(p.index(), i as u8);
        assert_eq!(p.to_str(), names[i]);
        assert_eq!(Phase::from_str(p.to_str()), Some(*p));
        assert_eq!(p.to_string(), names[i].to_string());
    }
    assert_eq!(Phase::from_str("html"), None);
    assert_eq!(Phase::SortRanking.cmp(&Phase::HtmlGen), Ordering::Less);
    assert_eq!(Phase::SortRanking.cmp(&Phase::SortRanking), Ordering::Equal);
    assert_eq!(Phase::SortRanking.cmp(&Phase::GetNicoData), Ordering::Greater);
    assert!(Phase::HtmlGen.runs_from(&Phase::SortRanking));
    assert!(!Phase::GetNicoData.runs_from(&Phase::SortRanking));
}

#[test]
fn duration_text() {
    assert_eq!(duration_to_string(TimeDelta { secs: 604800, nanos: 5 }), "604800 s 5 ns");
}

#[test]
fn gathering_arguments() {
    let jst = chrono::FixedOffset::east_opt(9 * 3600).unwrap();
    let since = jst.with_ymd_and_hms(2020, 3, 6, 0, 0, 0).unwrap();
    let since = OffsetDateTime { secs: since.timestamp(), nanos: 0, offset: 9 * 3600 };
    let until = jst.with_ymd_and_hms(2020, 4, 1, 0, 0, 0).unwrap();
    let until = OffsetDateTime { secs: until.timestamp(), nanos: 0, offset: 9 * 3600 };
    let args = get_nico_data_args(Some(since), Some(until), Some(week()), Some("/tmp/f.json".to_string())).unwrap();
    assert_eq!(
        args,
        vec![
            "--since",
            "2020/03/06",
            "--until",
            "2020/04/01",
            "--duration",
            "604800 s 0 ns",
            "--filter",
            "/tmp/f.json"
        ]
    );
    assert!(get_nico_data_args(None, None, None, None).unwrap().is_empty());
    assert_eq!(get_nico_data_args(None, Some(until), None, None).unwrap(), vec!["--until", "2020/04/01"]);
}

#[test]
fn duration_argument_is_read_back_by_the_span_parser() {
    for (secs, nanos) in [(604800i64, 0u32), (60, 5), (0, 999_999_999), (86400 * 30, 1)] {
        let text = duration_to_string(TimeDelta { secs, nanos });
        assert_eq!(parse_duration::parse(&text).unwrap(), std::time::Duration::new(secs as u64, nanos));
    }
}

#[test]
fn period_query_asks_for_all_fields_of_the_period() {
    let since = t(0);
    let until = t(7 * DAY);
    let q = nico_ranking::fetch::period_query(since, until);
    assert_eq!(q.q, "");
    assert!(q.targets.is_empty());
    assert_eq!(
        q.fields,
        vec![
            "contentId",
            "title",
            "description",
            "viewCounter",
            "mylistCounter",
            "lengthSeconds",
            "thumbnailUrl",
            "startTime",
            "lastResBody",
            "commentCounter",
            "lastCommentTime",
            "categoryTags",
            "tags",
            "genre"
        ]
    );
    assert!(matches!(
        q.json_filter,
        Some(nico_ranking::filter_json::FilterJson::Range(nico_ranking::filter_json::RangeFilter::StartTime {
            from,
            to,
            include_lower: true,
            include_upper: false,
        })) if from == since && to == until
    ));
    assert_eq!(
        q.sort,
        nico_ranking::query_params::SortingWithOrder::Decreasing(nico_ranking::query_params::RankingSorting::StartTime)
    );
    assert_eq!(q.offset, 0);
    assert_eq!(q.limit, 100);
    assert!(q.context.is_none());
    let pairs = q.query_pairs("F");
    let keys: Vec<&str> = pairs.iter().map(|(k, _)| k.as_str()).collect();
    assert_eq!(keys, vec!["q", "fields", "jsonFilter", "_sort", "_limit"]);
    assert_eq!(pairs[1].1, "contentId,title,description,viewCounter,mylistCounter,lengthSeconds,thumbnailUrl,startTime,lastResBody,commentCounter,lastCommentTime,categoryTags,tags,genre");
    assert_eq!(pairs[3].1, "-startTime");
    assert_eq!(pairs[4].1, "100");
}

#[test]
fn gathering_args_put_the_date_texts_given() {
    let args = get_nico_data_args_with_date(Some("D".to_string()), Some("U".to_string()), None, None);
    assert_eq!(args, vec!["--since", "D", "--until", "U"]);
    let args = get_nico_data_args_with_date(None, None, Some(TimeDelta { secs: 60, nanos: 5 }), Some("f".to_string()));
    assert_eq!(args, vec!["--duration", "60 s 5 ns", "--filter", "f"]);
}

#[test]
fn attempts_end_by_the_versions() {
    let pre = SnapshotVersion { last_modified: t(100) };
    let same = SnapshotVersion { last_modified: OffsetDateTime { secs: 100, nanos: 0, offset: 0 } };
    let later = SnapshotVersion { last_modified: t(200) };
    assert_eq!(end_attempt(&pre, &same), AttemptEnd::Send(t(100)));
    assert_eq!(end_attempt(&pre, &later), AttemptEnd::Restart);
}
