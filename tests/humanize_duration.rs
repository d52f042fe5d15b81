use alarm::humanize::{humanize_duration, humanize_secs};
use std::time::Duration;

#[test]
fn test_short_durations() {
    assert_eq!(humanize_duration(Duration::from_secs(0)), "0 seconds");
    assert_eq!(humanize_duration(Duration::from_secs(1)), "1 second");
    assert_eq!(humanize_duration(Duration::from_secs(30)), "30 seconds");
}

#[test]
fn test_exact_minute_durations() {
    assert_eq!(humanize_duration(Duration::from_secs(60)), "1 minute");
    assert_eq!(humanize_duration(Duration::from_secs(180)), "3 minutes");
    assert_eq!(humanize_duration(Duration::from_secs(3600)), "60 minutes");
}

#[test]
fn test_minute_and_second_durations() {
    assert_eq!(
        humanize_duration(Duration::from_secs(61)),
        "1 minute and 1 second"
    );
    assert_eq!(
        humanize_duration(Duration::from_secs(122)),
        "2 minutes and 2 seconds"
    );
    assert_eq!(
        humanize_duration(Duration::from_secs(333)),
        "5 minutes and 33 seconds"
    );
}

#[test]
fn test_edge_cases() {
    assert_eq!(humanize_duration(Duration::from_secs(59)), "59 seconds");
    assert_eq!(
        humanize_duration(Duration::from_secs(119)),
        "1 minute and 59 seconds"
    );
    assert_eq!(
        humanize_duration(Duration::from_secs(3599)),
        "59 minutes and 59 seconds"
    );
}

#[test]
fn fractions_of_a_second_are_dropped() {
    assert_eq!(humanize_duration(Duration::from_millis(61_999)), "1 minute and 1 second");
    assert_eq!(humanize_duration(Duration::from_millis(999)), "0 seconds");
}

#[test]
fn singular_only_for_a_count_of_one() {
    assert_eq!(humanize_secs(2), "2 seconds");
    assert_eq!(humanize_secs(120), "2 minutes");
    assert_eq!(humanize_secs(62), "1 minute and 2 seconds");
    assert_eq!(humanize_secs(121), "2 minutes and 1 second");
    assert_eq!(humanize_secs(600), "10 minutes");
}

#[test]
fn largest_duration() {
    assert_eq!(
        humanize_secs(u64::MAX),
        "307445734561825860 minutes and 15 seconds"
    );
}
