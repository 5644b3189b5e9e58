use chrono::TimeZone;
use nico_ranking::datetime::{OffsetDateTime, TimeDelta};
use nico_ranking::options::{gathering_options, run_options, OptionError, RunOptions, JST_OFFSET};

fn jst_midnight(y: i32, m: u32, d: u32) -> OffsetDateTime {
    let jst = chrono::FixedOffset::east_opt(9 * 3600).unwrap();
    let t = jst.with_ymd_and_hms(y, m, d, 0, 0, 0).unwrap();
    OffsetDateTime { secs: t.timestamp(), nanos: 0, offset: 9 * 3600 }
}

#[test]
fn gathering_defaults() {
    let o = gathering_options(None, None, None).unwrap();
    assert_eq!(o.since, jst_midnight(2007, 3, 6));
    assert_eq!(o.since, OffsetDateTime { secs: 1_173_106_800, nanos: 0, offset: JST_OFFSET });
    assert_eq!(o.until, None);
    assert_eq!(o.duration, TimeDelta { secs: 604_800, nanos: 0 });
}

#[test]
fn gathering_dates_and_spans_are_read() {
    let o = gathering_options(Some("2020/03/06"), Some("2020/04/01"), Some("1week")).unwrap();
    assert_eq!(o.since, jst_midnight(2020, 3, 6));
    assert_eq!(o.until, Some(jst_midnight(2020, 4, 1)));
    assert_eq!(o.duration, TimeDelta { secs: 604_800, nanos: 0 });
    let o = gathering_options(None, None, Some("2 days")).unwrap();
    assert_eq!(o.duration, TimeDelta { secs: 172_800, nanos: 0 });
    let o = gathering_options(None, None, Some("60 s 5 ns")).unwrap();
    assert_eq!(o.duration, TimeDelta { secs: 60, nanos: 5 });
}

#[test]
fn refused_command_lines() {
    assert_eq!(gathering_options(Some("2020-03-06"), None, None), Err(OptionError::Since));
    assert_eq!(gathering_options(Some("2020/02/30"), Some("x"), None), Err(OptionError::Since));
    assert_eq!(gathering_options(None, Some("tomorrow"), Some("x")), Err(OptionError::Until));
    assert_eq!(gathering_options(None, None, Some("one week")), Err(OptionError::Duration));
    assert_eq!(
        gathering_options(None, None, Some("99999999999999999 s")),
        Err(OptionError::DurationOutOfRange)
    );
}

#[test]
fn run_options_have_no_defaults() {
    assert_eq!(run_options(None, None, None), Ok(RunOptions { since: None, until: None, duration: None }));
    let o = run_options(Some("2021/12/31"), None, Some("1day")).unwrap();
    assert_eq!(o.since, Some(jst_midnight(2021, 12, 31)));
    assert_eq!(o.until, None);
    assert_eq!(o.duration, Some(TimeDelta { secs: 86_400, nanos: 0 }));
    assert_eq!(run_options(None, Some("2021/13/01"), None), Err(OptionError::Until));
}
