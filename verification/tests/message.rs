use passata::config::LongBreakPolicy;
use passata::message::{decimal_string, resume_summary_string, short_break_summary_string};

#[test]
fn decimal_renders_exact_digits() {
    assert_eq!(decimal_string(0), "0");
    assert_eq!(decimal_string(7), "7");
    assert_eq!(decimal_string(10), "10");
    assert_eq!(decimal_string(256), "256");
    assert_eq!(decimal_string(90210), "90210");
}

#[test]
fn short_break_summary_with_and_without_policy() {
    let policy = Some(LongBreakPolicy { threshold: 2, long_break_ms: 1 });
    assert_eq!(short_break_summary_string(1, &policy), "Short break (1/3)");
    assert_eq!(short_break_summary_string(2, &policy), "Short break (2/3)");
    assert_eq!(short_break_summary_string(1, &None), "Short break");
}

#[test]
fn resume_summary_rounds_only_the_text() {
    // 15 minutes exactly: already a whole number of minutes
    assert_eq!(resume_summary_string(900_000), "15m until next break");
    // 95 seconds: rounded down to one minute
    assert_eq!(resume_summary_string(95_000), "1m until next break");
    // under a minute: exact seconds
    assert_eq!(resume_summary_string(45_000), "45s until next break");
    // under a second: shown as zero seconds
    assert_eq!(resume_summary_string(400), "0s until next break");
    // an hour and a half, plus change
    assert_eq!(resume_summary_string(5_432_100), "1h 30m until next break");
}
