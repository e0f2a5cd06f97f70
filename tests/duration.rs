use fetcher::{duration_from_string, duration_to_string};

#[test]
fn duration_reads_minutes_and_seconds() {
    assert_eq!(duration_from_string("4:31"), 271);
    assert_eq!(duration_from_string(" 4 :\t31\n"), 271);
    assert_eq!(duration_from_string("+1:+2"), 62);
    assert_eq!(duration_from_string("0:0"), 0);
    assert_eq!(duration_from_string("\u{3000}2:05\u{A0}"), 125);
}

#[test]
fn duration_sides_that_are_not_numbers_count_zero() {
    assert_eq!(duration_from_string(":"), 0);
    assert_eq!(duration_from_string("x:5"), 5);
    assert_eq!(duration_from_string("3:"), 180);
    assert_eq!(duration_from_string("3:-5"), 180);
    assert_eq!(duration_from_string("3:+"), 180);
    assert_eq!(duration_from_string("1:99999999999999999999"), 60);
    assert_eq!(duration_from_string("1:2:3"), 60);
}

#[test]
fn duration_round_trip() {
    for secs in [0u64, 1, 59, 60, 61, 271, 3599, 3600, 86_399] {
        assert_eq!(duration_from_string(&duration_to_string(secs)), secs);
    }
}
