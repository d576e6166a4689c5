use motion_alert::config::DEFAULT_CRONTAB;
use motion_alert::schedule::{
    cron_expression_valid, next_fire_after, rfc2822_of_timestamp, select_crontab, ScheduleCursor,
    MAX_RFC2822_TIMESTAMP,
};

// 2024-01-01 00:00:00 UTC
const TS: i64 = 1704067200;

#[test]
fn the_default_crontab_always_parses() {
    assert!(cron_expression_valid(DEFAULT_CRONTAB));
}

#[test]
fn bad_expressions_do_not_parse() {
    assert!(!cron_expression_valid("bad expr"));
    assert!(!cron_expression_valid(""));
    assert!(!cron_expression_valid("61 * * * * *"));
}

#[test]
fn select_crontab_prefers_a_valid_remote_expression() {
    let remote = "0 30 9,12,15 1,15 May-Aug Mon,Wed,Fri 2018/2".to_string();
    assert_eq!(select_crontab(&remote), remote);
}

#[test]
fn select_crontab_falls_back_on_an_invalid_remote_expression() {
    let remote = "every now and then".to_string();
    assert_eq!(select_crontab(&remote), DEFAULT_CRONTAB);
}

#[test]
fn rfc2822_matches_chrono() {
    for ts in [TS, TS + 59, TS + 86400, 0] {
        let expected = chrono::DateTime::from_timestamp(ts, 0).unwrap().to_rfc2822();
        assert_eq!(rfc2822_of_timestamp(ts), expected);
    }
}

#[test]
fn next_fire_is_strictly_after_and_second_exact_for_the_default_schedule() {
    // the default expression matches every second of 2023-2100: the next
    // fire after any instant in range is the very next second
    for i in 0..40 {
        let next = next_fire_after(DEFAULT_CRONTAB, TS + i).expect("default schedule fires");
        let expected = rfc2822_of_timestamp(TS + i + 1);
        assert_eq!(next, expected, "at offset {}", i);
    }
}

#[test]
fn next_fire_rejects_an_invalid_expression() {
    assert!(next_fire_after("nonsense", TS).is_none());
}

#[test]
fn next_fire_honours_the_schedule_fields() {
    // fires only at minute 30 of hour 12
    let expr = "0 30 12 * * * *";
    let next = next_fire_after(expr, TS).unwrap();
    let expected = rfc2822_of_timestamp(TS + 12 * 3600 + 30 * 60);
    assert_eq!(next, expected);
}

#[test]
fn gate_passes_every_second_of_a_simulated_run() {
    // simulated multi-second run against the every-second default schedule,
    // each second observed on two consecutive fast polls
    let mut cursor =
        ScheduleCursor::new(next_fire_after(DEFAULT_CRONTAB, TS).expect("schedule fires"));
    for i in 1..=30 {
        let now = rfc2822_of_timestamp(TS + i);
        // first poll of this second: matches the freshly computed instant
        assert!(cursor.gate_passes(&now), "first poll of second {}", i);
        let next = next_fire_after(DEFAULT_CRONTAB, TS + i).unwrap();
        cursor.advance(now.clone(), next);
        // second poll of the same second: matches the dedup guard
        assert!(cursor.gate_passes(&now), "second poll of second {}", i);
        let next2 = next_fire_after(DEFAULT_CRONTAB, TS + i).unwrap();
        cursor.advance(now.clone(), next2);
    }
}

#[test]
fn gate_rejects_an_unrelated_instant() {
    let cursor =
        ScheduleCursor::new(next_fire_after(DEFAULT_CRONTAB, TS).expect("schedule fires"));
    let elsewhere = rfc2822_of_timestamp(TS + 7);
    assert!(!cursor.gate_passes(&elsewhere));
}

#[test]
fn rfc2822_covers_the_whole_supported_range() {
    let last = rfc2822_of_timestamp(MAX_RFC2822_TIMESTAMP);
    assert!(last.contains("9999"));
    let first = rfc2822_of_timestamp(0);
    assert!(first.contains("1970"));
}
