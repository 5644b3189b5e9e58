use nico_ranking::duration::{ymd_to_string, Duration, MinDayMonthYears, SECS_PER_YEAR};
use nico_ranking::numeral::numeral_to_string;
use nico_ranking::text::u64_to_string;

fn secs(n: u64) -> Duration {
    Duration::from_secs(n)
}

#[test]
fn ymd_zero_is_zero_seconds() {
    assert_eq!(ymd_to_string(secs(0)), "0秒");
}

#[test]
fn ymd_seconds_only() {
    assert_eq!(ymd_to_string(secs(59)), "59秒");
}

#[test]
fn ymd_minutes_always_show_seconds() {
    assert_eq!(ymd_to_string(secs(60)), "1分0秒");
    assert_eq!(ymd_to_string(secs(3661)), "1時間1分1秒");
}

#[test]
fn ymd_days_months_years() {
    assert_eq!(ymd_to_string(secs(86400)), "1日");
    assert_eq!(ymd_to_string(secs(30 * 86400)), "1ヶ月");
    assert_eq!(ymd_to_string(secs(SECS_PER_YEAR)), "1年");
    assert_eq!(ymd_to_string(secs(SECS_PER_YEAR + 91 * 86400 + 5)), "1年3ヶ月5秒");
    assert_eq!(ymd_to_string(secs(363 * 86400)), "11ヶ月30日");
    assert_eq!(ymd_to_string(secs(2 * SECS_PER_YEAR + 61 * 86400 + 7200)), "2年2ヶ月1日2時間");
}

#[test]
fn ymd_ignores_subsecond_nanos() {
    assert_eq!(ymd_to_string(Duration::new(61, 999_999_999)), "1分1秒");
}

#[test]
fn month_table_boundaries() {
    let starts = [0u64, 30, 60, 91, 121, 151, 182, 212, 242, 273, 303, 333];
    for (m, start) in starts.iter().enumerate() {
        let d = secs(start * 86400);
        assert_eq!(d.subyear_months(), m as u64);
        assert_eq!(d.submonth_days(), 0);
        if *start > 0 {
            let before = secs((start - 1) * 86400);
            assert_eq!(before.subyear_months(), m as u64 - 1);
        }
    }
    assert_eq!(secs(363 * 86400).submonth_days(), 30);
    assert_eq!(secs(90 * 86400).submonth_days(), 30);
}

#[test]
fn duration_parts() {
    let d = secs(SECS_PER_YEAR * 3 + 100 * 86400 + 5 * 3600 + 7 * 60 + 9);
    assert_eq!(d.as_years(), 3);
    assert_eq!(d.subyear_days(), 100);
    assert_eq!(d.subyear_months(), 3);
    assert_eq!(d.submonth_days(), 9);
    assert_eq!(d.as_months(), 3 * 12 + 3);
    assert_eq!(d.subday_hours(), 5);
    assert_eq!(d.subhour_minutes(), 7);
    assert_eq!(d.submin_secs(), 9);
    assert_eq!(d.as_days(), 3 * 364 + 100);
    assert_eq!(d.as_hours(), (3 * 364 + 100) * 24 + 5);
    assert_eq!(d.as_minutes(), ((3 * 364 + 100) * 24 + 5) * 60 + 7);
}

#[test]
fn decomposition_adds_up() {
    for n in [0u64, 1, 59, 3600, 86399, 12_345_678, 987_654_321, u64::MAX] {
        let d = secs(n);
        let total = d.as_years() as u128 * SECS_PER_YEAR as u128
            + d.subyear_days() as u128 * 86400
            + d.subday_hours() as u128 * 3600
            + d.subhour_minutes() as u128 * 60
            + d.submin_secs() as u128;
        assert_eq!(total, n as u128);
    }
}

#[test]
fn duration_times_count() {
    let d = Duration::new(1, 600_000_000).mul_u32(3);
    assert_eq!(d.as_secs(), 4);
    assert_eq!(d.subsec_nanos(), 800_000_000);
    let std_d = std::time::Duration::new(1, 600_000_000) * 3;
    assert_eq!(d.as_secs(), std_d.as_secs());
    assert_eq!(d.subsec_nanos(), std_d.subsec_nanos());
}

#[test]
fn new_duration_carries_nanos() {
    let d = Duration::new(5, 2_500_000_000);
    assert_eq!(d.as_secs(), 7);
    assert_eq!(d.subsec_nanos(), 500_000_000);
}

#[test]
fn decimal_text() {
    assert_eq!(u64_to_string(0), "0");
    assert_eq!(u64_to_string(10), "10");
    assert_eq!(u64_to_string(u64::MAX), u64::MAX.to_string());
}

#[test]
fn numeral_small_counts_are_grouped() {
    assert_eq!(numeral_to_string(0), "0");
    assert_eq!(numeral_to_string(999), "999");
    assert_eq!(numeral_to_string(1000), "1,000");
    assert_eq!(numeral_to_string(9999), "9,999");
}

#[test]
fn numeral_large_counts_in_ten_thousands() {
    assert_eq!(numeral_to_string(10000), "1万");
    assert_eq!(numeral_to_string(12345), "1.2万");
    assert_eq!(numeral_to_string(120_000), "12万");
    assert_eq!(numeral_to_string(99_999_999), "9999.9万");
}

#[test]
fn numeral_matches_float_rendering() {
    for n in [10_000u64, 10_999, 15_000, 23_456, 100_000, 123_456, 1_000_000, 9_876_543, 99_999_999] {
        let expected = format!("{}万", (n / 1000) as f64 / 10.0);
        assert_eq!(numeral_to_string(n), expected);
    }
}
