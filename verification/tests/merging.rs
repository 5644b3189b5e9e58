use chrono::TimeZone;
use nico_ranking::datetime::OffsetDateTime;
use nico_ranking::file_names::{filter_matching, keep_matched, sort_names, sorted_ls_matches_regex};
use nico_ranking::merge_rankings::{csv_line, csv_row, merge_step, select_next, MergeStep, RankingBinCtx};
use nico_ranking::merge_weeks::{add_week_file, ceil_div, changed_version, MergeWeeks};
use nico_ranking::records::{ranking_json, RankingBin, RankingMeta, RankingVideoData, RankingVideoDataBin, VersionJson};

fn at(secs: i64) -> OffsetDateTime {
    OffsetDateTime { secs, nanos: 0, offset: 9 * 3600 }
}

fn data(id: &str) -> RankingVideoData {
    RankingVideoData { content_id: id.to_string(), length_seconds: 1, view_counter: 1, start_time: at(0) }
}

fn bin_entry(id: &str, counter: u64) -> RankingVideoDataBin {
    RankingVideoDataBin { content_id: id.to_string(), length_seconds: 30, view_counter: 2, start_time: at(0), ranking_counter: counter }
}

fn ctx(counters: &[(&str, u64)], idx: usize) -> RankingBinCtx {
    RankingBinCtx {
        ranking: RankingBin {
            meta: RankingMeta { total_count: counters.len() as u64, last_modified: Some(at(100)) },
            data: counters.iter().map(|(id, c)| bin_entry(id, *c)).collect(),
        },
        idx,
    }
}

#[test]
fn ceil_division() {
    assert_eq!(ceil_div(0, 100), 0);
    assert_eq!(ceil_div(1, 100), 1);
    assert_eq!(ceil_div(100, 100), 1);
    assert_eq!(ceil_div(250, 100), 3);
}

#[test]
fn week_files_need_enough_files() {
    let mut all = Vec::new();
    let file = ranking_json(vec![data("a"), data("b")], at(0));
    assert_eq!(file.meta.total_count, 2);
    assert!(add_week_file(&mut all, file, 1));
    assert_eq!(all.len(), 2);
    let mut file = ranking_json(vec![data("c")], at(0));
    file.meta.total_count = 250;
    assert!(!add_week_file(&mut all, file, 2));
    assert_eq!(all.len(), 2);
    let mut file = ranking_json(vec![data("c")], at(0));
    file.meta.total_count = 250;
    assert!(add_week_file(&mut all, file, 3));
    assert_eq!(all.len(), 3);
}

#[test]
fn version_changes() {
    let v = VersionJson { last_modified: at(10) };
    assert!(!changed_version(&v, &None));
    assert!(!changed_version(&v, &Some(at(10))));
    assert!(!changed_version(&v, &Some(OffsetDateTime { secs: 10, nanos: 0, offset: 0 })));
    assert!(changed_version(&v, &Some(at(11))));
}

#[test]
fn merging_weeks_by_version() {
    let mut m = MergeWeeks::new();
    assert!(m.begin_week(&VersionJson { last_modified: at(1) }).is_none());
    m.data.push(data("a"));
    m.end_week(0, true);
    assert!(m.begin_week(&VersionJson { last_modified: at(1) }).is_none());
    m.data.push(data("b"));
    m.end_week(1, false);
    let out = m.begin_week(&VersionJson { last_modified: at(2) }).unwrap();
    assert_eq!(out.file_name, "merged_0.json");
    assert_eq!(out.data.len(), 2);
    assert_eq!(out.last_modified, at(1));
    m.data.push(data("c"));
    m.end_week(2, true);
    let last = m.finish().unwrap();
    assert_eq!(last.file_name, "merged_1.json");
    assert_eq!(last.data.len(), 1);
    assert_eq!(last.last_modified, at(2));
    assert_eq!(m.will_removes, vec![0, 2]);
}

#[test]
fn no_weeks_no_output() {
    let mut m = MergeWeeks::new();
    assert!(m.finish().is_none());
}

#[test]
fn selecting_the_greatest_current_value() {
    let rankings = vec![ctx(&[("a", 5)], 0), ctx(&[("b", 9), ("c", 1)], 0), ctx(&[("d", 9)], 0), ctx(&[("e", 100)], 1)];
    assert_eq!(select_next(&rankings), Some(2));
    let ended = vec![ctx(&[("a", 5)], 1), ctx(&[], 0)];
    assert_eq!(select_next(&ended), None);
}

#[test]
fn merge_steps_move_on_before_reading() {
    let mut rankings = vec![ctx(&[("a", 5), ("b", 4)], 0), ctx(&[("c", 7)], 0)];
    assert_eq!(merge_step(&mut rankings), MergeStep::Exhausted(1));
    assert_eq!(rankings[1].idx, 1);
    assert_eq!(merge_step(&mut rankings), MergeStep::Row(0));
    assert_eq!(rankings[0].idx, 1);
    assert_eq!(rankings[0].get_cur().unwrap().content_id, "b");
    assert_eq!(merge_step(&mut rankings), MergeStep::Exhausted(0));
    assert!(rankings[0].is_end());
    assert_eq!(merge_step(&mut rankings), MergeStep::Done);
}

#[test]
fn ranking_cursor() {
    let mut c = ctx(&[("a", 1)], 0);
    assert_eq!(c.get_cur().unwrap().content_id, "a");
    assert!(!c.is_end());
    c.move_next();
    assert!(c.get_cur().is_none());
    assert!(c.is_end());
}

#[test]
fn csv_rows_use_chrono_times() {
    let jst = chrono::FixedOffset::east_opt(9 * 3600).unwrap();
    let lm = jst.with_ymd_and_hms(2020, 3, 6, 12, 0, 0).unwrap();
    let st = jst.with_ymd_and_hms(2007, 3, 6, 0, 0, 0).unwrap();
    let lm_model = OffsetDateTime { secs: lm.timestamp(), nanos: 0, offset: 9 * 3600 };
    let mut entry = bin_entry("sm9", 12345);
    entry.start_time = OffsetDateTime { secs: st.timestamp(), nanos: 0, offset: 9 * 3600 };
    let row = csv_row(7, &entry, &Some(lm_model)).unwrap();
    assert_eq!(row, format!("7,12345,sm9,{},{},2,30", lm, st));
    assert_eq!(row, "7,12345,sm9,2020-03-06 12:00:00 +09:00,2007-03-06 00:00:00 +09:00,2,30");
    assert!(csv_row(7, &entry, &None).is_none());
}

#[test]
fn matching_names_sorted() {
    let names: Vec<String> = ["ranking_000002.json", "version.json", "ranking_000001.json", "ranking_1.json", "x_ranking_000003.json"]
        .iter()
        .map(|s| s.to_string())
        .collect();
    let r = sorted_ls_matches_regex(names, r"^ranking_\d{6}\.json$").unwrap();
    assert_eq!(r, vec!["ranking_000001.json", "ranking_000002.json"]);
    let weeks: Vec<String> = ["2020-03-06", "2019-12-31", "merged", "2020-01-01"].iter().map(|s| s.to_string()).collect();
    let w = sorted_ls_matches_regex(weeks, r"^\d{4}-\d{2}-\d{2}$").unwrap();
    assert_eq!(w, vec!["2019-12-31", "2020-01-01", "2020-03-06"]);
}

#[test]
fn bad_pattern_is_refused() {
    assert!(sorted_ls_matches_regex(vec!["a".to_string()], "(").is_none());
    assert_eq!(sorted_ls_matches_regex(Vec::new(), "(").map(|v| v.len()), Some(0));
}

#[test]
fn names_sort_like_str() {
    let mut names: Vec<String> = ["b", "a", "ab", "", "Z", "日本", "aa", "b"].iter().map(|s| s.to_string()).collect();
    let sorted = sort_names(names.clone());
    names.sort();
    assert_eq!(sorted, names);
}

#[test]
fn csv_lines_put_the_times_given() {
    let entry = bin_entry("sm9", 12345);
    assert_eq!(csv_line(1, &entry, "LM", "ST"), "1,12345,sm9,LM,ST,2,30");
}

#[test]
fn kept_names_follow_the_flags() {
    let names: Vec<String> = ["a", "b", "c", "d"].iter().map(|s| s.to_string()).collect();
    assert_eq!(keep_matched(names, &vec![true, false, false, true]), vec!["a", "d"]);
    assert!(keep_matched(Vec::new(), &Vec::new()).is_empty());
}

#[test]
fn matching_keeps_the_given_order() {
    let names: Vec<String> = ["c1", "x", "a1", "b2"].iter().map(|s| s.to_string()).collect();
    assert_eq!(filter_matching(names, r"\d$").unwrap(), vec!["c1", "a1", "b2"]);
}
