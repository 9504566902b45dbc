use pe_features::stamp::{timestamp, with_utc_suffix};

#[test]
fn timestamp_of_the_epoch() {
    assert_eq!(timestamp(0), "1970-01-01 00:00:00 UTC");
}

#[test]
fn timestamp_of_known_moments() {
    assert_eq!(timestamp(1_000_000_000), "2001-09-09 01:46:40 UTC");
    assert_eq!(timestamp(1_600_000_000), "2020-09-13 12:26:40 UTC");
    assert_eq!(timestamp(951_782_400), "2000-02-29 00:00:00 UTC");
}

#[test]
fn timestamp_of_the_largest_count() {
    assert_eq!(timestamp(u32::MAX), "2106-02-07 06:28:15 UTC");
}

#[test]
fn timestamp_holds_no_comma() {
    for seconds in [0u32, 1, 86_399, 86_400, 1_234_567_890, u32::MAX] {
        let text = timestamp(seconds);
        assert!(!text.contains(','));
        assert_eq!(text.len(), 23);
        assert!(text.ends_with(" UTC"));
    }
}

#[test]
fn suffix_is_set_behind_the_calendar_text() {
    assert_eq!(with_utc_suffix("2001-09-09 01:46:40".to_string()), "2001-09-09 01:46:40 UTC");
}
