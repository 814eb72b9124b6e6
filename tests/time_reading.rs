use bgm_collector::clock::{parse_ago_time, parse_time, today, AgoLang, TimeError};
use bgm_collector::timeline::read_timeline_page;
use chrono::{FixedOffset, Utc};

fn tz() -> FixedOffset {
    FixedOffset::east_opt(8 * 3600).unwrap()
}

#[test]
fn test_parse_time() {
    let now = Utc::now().timestamp();
    println!("{:?} [NOW]", now);
    println!("{:?} [今天]", parse_time("今天", now).unwrap());
    println!("{:?} [昨天]", parse_time("昨天", now).unwrap());
    println!("{:?} [30m ago]", parse_time("30m ago", now).unwrap());
    println!("{:?} [1d ago]", parse_time("1d ago", now).unwrap());
    println!("{:?} [1月20天前]", parse_time("1月20天前", now).unwrap());
    println!("{:?} [5年9月前]", parse_time("5年9月前", now).unwrap());
    println!("{:?} [3年10月前]", parse_time("3年10月前", now).unwrap());
    let eq = |s: &str, format: &str| {
        let parsed = parse_time(s, now).unwrap();
        let parsed = chrono::DateTime::from_timestamp(parsed, 0).unwrap().with_timezone(&tz());
        let formated = parsed.format(format).to_string();
        assert_eq!(formated, s);
    };
    eq("2025-09-12 17:00:05", "%Y-%m-%d %H:%M:%S");
    eq("2025-09-12 17:00", "%Y-%m-%d %H:%M");
    eq("2025-09-12", "%Y-%m-%d");
}

#[test]
fn absolute_times_are_site_local() {
    assert_eq!(parse_time("2025-09-12 17:00:05", 0), Ok(1757667605));
    assert_eq!(parse_time("2016-04-14", 0), Ok(1460563200));
    assert_eq!(parse_time("2016-4-14", 0), Ok(1460563200));
    assert_eq!(parse_time("soon", 0), Err(TimeError::Unreadable));
}

#[test]
fn today_and_yesterday() {
    assert_eq!(today(1_700_000_000), Ok(1_699_891_200));
    assert_eq!(parse_time("今天", 1_700_000_000), Ok(1_699_891_200));
    assert_eq!(parse_time("昨天", 1_700_000_000), Ok(1_699_891_200 - 86400));
    assert_eq!(today(-1), Ok(-86400 - 28800));
    assert_eq!(today(i64::MIN), Err(TimeError::OutOfRange));
}

#[test]
fn relative_times() {
    let now = 1_700_000_000;
    assert_eq!(parse_time("30m ago", now), Ok(now - 1800));
    assert_eq!(parse_time("1d 2h ago", now), Ok(now - 86400 - 7200));
    assert_eq!(parse_time("3天前", now), Ok(now - 3 * 86400));
    assert_eq!(parse_ago_time("2小时前", AgoLang::Chs, now), Ok(now - 7200));
    // 2023-11-14 22:13:20 UTC minus one calendar month
    assert_eq!(parse_time("1mo ago", now), Ok(now - 31 * 86400));
    assert_eq!(parse_ago_time("yesterday", AgoLang::Eng, now), Err(TimeError::Unreadable));
}

#[test]
fn timeline_page_reading() {
    assert!(matches!(read_timeline_page(false, "", vec![], 0), Ok(None)));
    let p = read_timeline_page(true, "2025-09-12", vec!["a".to_string(), "a".to_string()], 0).unwrap().unwrap();
    assert_eq!(p.checkpoint, 1757606400);
    assert_eq!(p.names.to_vec(), vec!["a".to_string()]);
    assert!(read_timeline_page(true, "???", vec![], 0).is_err());
}
