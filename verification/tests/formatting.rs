use pomo_timer::time_utils::{to_millis, to_string, Duration};

#[test]
fn zero_displays_as_00_00() {
    assert_eq!(to_string(Duration { seconds: 0 }), "00:00");
}

#[test]
fn hundred_seconds_displays_as_01_40() {
    assert_eq!(to_string(Duration { seconds: 100 }), "01:40");
}

#[test]
fn thousand_seconds_displays_as_16_40() {
    assert_eq!(to_string(Duration { seconds: 1000 }), "16:40");
}

#[test]
fn thousand_minutes_displays_with_wide_minutes_field() {
    assert_eq!(to_string(Duration { seconds: 60000 }), "1000:00");
}

#[test]
fn seconds_field_is_zero_padded() {
    assert_eq!(to_string(Duration { seconds: 61 }), "01:01");
    assert_eq!(to_string(Duration { seconds: 59 }), "00:59");
    assert_eq!(to_string(Duration { seconds: 60 }), "01:00");
    assert_eq!(to_string(Duration { seconds: 9 }), "00:09");
}

#[test]
fn minutes_field_grows_past_two_digits() {
    assert_eq!(to_string(Duration { seconds: 5999 }), "99:59");
    assert_eq!(to_string(Duration { seconds: 6000 }), "100:00");
}

#[test]
fn to_millis_scales_seconds() {
    assert_eq!(to_millis(Duration { seconds: 0 }), 0);
    assert_eq!(to_millis(Duration { seconds: 1 }), 1000);
    assert_eq!(to_millis(Duration { seconds: 2 }), 2000);
    assert_eq!(to_millis(Duration { seconds: 1500 }), 1_500_000);
}

#[test]
fn from_seconds_holds_the_count() {
    let d = Duration::from_seconds(90);
    assert_eq!(d.seconds, 90);
}
