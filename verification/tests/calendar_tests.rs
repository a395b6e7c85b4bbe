use orc_view::calendar::{
    civil_from_seconds, days_from_milliseconds, CivilTime, FIRST_SECOND, LAST_SECOND,
};

fn notation_of(seconds: i64) -> Option<String> {
    civil_from_seconds(seconds).map(|t| t.to_rfc3339())
}

#[test]
fn the_epoch_is_the_first_of_january_1970() {
    let t = civil_from_seconds(0).unwrap();
    assert_eq!(t, CivilTime { year: 1970, month: 1, day: 1, hour: 0, minute: 0, second: 0 });
    assert_eq!(t.to_rfc3339(), "1970-01-01T00:00:00+00:00");
}

#[test]
fn instants_before_the_epoch_fall_on_earlier_days() {
    assert_eq!(notation_of(-1).unwrap(), "1969-12-31T23:59:59+00:00");
    assert_eq!(notation_of(-86_400).unwrap(), "1969-12-31T00:00:00+00:00");
    assert_eq!(notation_of(-86_401).unwrap(), "1969-12-30T23:59:59+00:00");
}

#[test]
fn known_instants_have_their_notation() {
    assert_eq!(notation_of(1_700_000_000).unwrap(), "2023-11-14T22:13:20+00:00");
    assert_eq!(notation_of(951_782_400).unwrap(), "2000-02-29T00:00:00+00:00");
    assert_eq!(notation_of(951_868_800).unwrap(), "2000-03-01T00:00:00+00:00");
    assert_eq!(notation_of(1_709_251_199).unwrap(), "2024-02-29T23:59:59+00:00");
    assert_eq!(notation_of(-2_208_988_800).unwrap(), "1900-01-01T00:00:00+00:00");
    assert_eq!(notation_of(-2_203_891_200).unwrap(), "1900-03-01T00:00:00+00:00");
    assert_eq!(notation_of(4_102_444_799).unwrap(), "2099-12-31T23:59:59+00:00");
}

#[test]
fn the_years_0000_to_9999_have_a_notation_and_no_other() {
    assert_eq!(notation_of(FIRST_SECOND).unwrap(), "0000-01-01T00:00:00+00:00");
    assert_eq!(notation_of(LAST_SECOND).unwrap(), "9999-12-31T23:59:59+00:00");
    assert_eq!(notation_of(FIRST_SECOND - 1), None);
    assert_eq!(notation_of(LAST_SECOND + 1), None);
    assert_eq!(notation_of(i64::MIN), None);
    assert_eq!(notation_of(i64::MAX), None);
}

#[test]
fn every_day_of_a_leap_year_follows_the_day_before() {
    let mut seconds: i64 = 1_704_067_200;
    let lengths = [31u8, 29, 31, 30, 31, 30, 31, 31, 30, 31, 30, 31];
    for month in 1..=12u8 {
        for day in 1..=lengths[(month - 1) as usize] {
            let t = civil_from_seconds(seconds).unwrap();
            assert_eq!((t.year, t.month, t.day), (2024, month, day));
            seconds += 86_400;
        }
    }
    let t = civil_from_seconds(seconds).unwrap();
    assert_eq!((t.year, t.month, t.day), (2025, 1, 1));
}

#[test]
fn milliseconds_fall_on_the_day_that_holds_them() {
    assert_eq!(days_from_milliseconds(0), 0);
    assert_eq!(days_from_milliseconds(86_399_999), 0);
    assert_eq!(days_from_milliseconds(86_400_000), 1);
    assert_eq!(days_from_milliseconds(-1), -1);
    assert_eq!(days_from_milliseconds(-86_400_000), -1);
    assert_eq!(days_from_milliseconds(-86_400_001), -2);
    assert_eq!(days_from_milliseconds(1_641_600_000_000), 19_000);
    assert_eq!(days_from_milliseconds(i64::MAX), 106_751_991_167);
    assert_eq!(days_from_milliseconds(i64::MIN), -106_751_991_168);
}
