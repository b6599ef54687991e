use chrono::{DateTime, Datelike, NaiveDate, Utc};
use toggl_rs::timestamp::{Timestamp, EPOCH_DAY, FIRST_DAY, LAST_DAY, MAX_SECS, MIN_SECS};

#[test]
fn days_are_those_of_chrono() {
    assert_eq!(i64::from(NaiveDate::MIN.num_days_from_ce()), FIRST_DAY);
    assert_eq!(i64::from(NaiveDate::MAX.num_days_from_ce()), LAST_DAY);
    assert_eq!(i64::from(NaiveDate::from_ymd_opt(1970, 1, 1).unwrap().num_days_from_ce()), EPOCH_DAY);
    assert_eq!(NaiveDate::MIN, NaiveDate::from_ymd_opt(-262_143, 1, 1).unwrap());
    assert_eq!(NaiveDate::MAX, NaiveDate::from_ymd_opt(262_142, 12, 31).unwrap());
}

#[test]
fn bounds_are_those_of_chrono() {
    assert_eq!(DateTime::<Utc>::MIN_UTC.timestamp(), MIN_SECS);
    assert_eq!(DateTime::<Utc>::MAX_UTC.timestamp(), MAX_SECS);
    assert_eq!(MIN_SECS, -8_334_601_228_800);
    assert_eq!(MAX_SECS, 8_210_266_876_799);
}

#[test]
fn new_accepts_what_chrono_accepts() {
    let seconds = [
        i64::MIN,
        MIN_SECS - 86_400,
        MIN_SECS - 1,
        MIN_SECS,
        MIN_SECS + 59,
        -62_167_219_201,
        -62_167_219_200,
        -61,
        -1,
        0,
        59,
        60,
        119,
        1_431_648_000,
        1_483_228_799,
        253_402_300_799,
        253_402_300_800,
        MAX_SECS - 60,
        MAX_SECS,
        MAX_SECS + 1,
        MAX_SECS + 86_400,
        i64::MAX,
    ];
    let nanos = [
        0,
        1,
        999_999_999,
        1_000_000_000,
        1_500_000_000,
        1_999_999_999,
        2_000_000_000,
        u32::MAX,
    ];
    for secs in seconds {
        for nsecs in nanos {
            let ours = Timestamp::new(secs, nsecs);
            let theirs = DateTime::from_timestamp(secs, nsecs);
            assert_eq!(ours.is_some(), theirs.is_some(), "{} {}", secs, nsecs);
            if let (Some(ours), Some(theirs)) = (ours, theirs) {
                assert_eq!(ours.secs(), theirs.timestamp());
                assert_eq!(ours.nanos(), theirs.timestamp_subsec_nanos());
                assert_eq!(ours.to_rfc3339(), theirs.to_rfc3339());
            }
        }
    }
}

#[test]
fn new_keeps_seconds_and_nanoseconds() {
    let t = Timestamp::new(1_431_648_000, 453_829_000).unwrap();
    assert_eq!(t.secs(), 1_431_648_000);
    assert_eq!(t.nanos(), 453_829_000);
}

#[test]
fn new_rejects_what_lies_outside() {
    assert_eq!(Timestamp::new(MIN_SECS - 1, 0), None);
    assert_eq!(Timestamp::new(MAX_SECS + 1, 0), None);
    assert_eq!(Timestamp::new(0, 2_000_000_000), None);
    assert_eq!(Timestamp::new(0, 1_000_000_000), None);
    assert_eq!(Timestamp::new(58, 1_000_000_000), None);
    assert_eq!(Timestamp::new(-2, 1_000_000_000), None);
}

#[test]
fn new_accepts_a_leap_second_at_the_end_of_a_minute() {
    assert!(Timestamp::new(59, 1_000_000_000).is_some());
    assert!(Timestamp::new(-1, 1_999_999_999).is_some());
    assert!(Timestamp::new(1_483_228_799, 1_000_000_000).is_some());
    assert!(Timestamp::new(MIN_SECS + 59, 1_000_000_000).is_some());
}

#[test]
fn rfc3339_of_known_instants() {
    assert_eq!(Timestamp::new(0, 0).unwrap().to_rfc3339(), "1970-01-01T00:00:00+00:00");
    assert_eq!(Timestamp::new(1_431_648_000, 0).unwrap().to_rfc3339(), "2015-05-15T00:00:00+00:00");
    assert_eq!(
        Timestamp::new(1_516_991_409, 453_000_000).unwrap().to_rfc3339(),
        "2018-01-26T18:30:09.453+00:00"
    );
    assert_eq!(
        Timestamp::new(1_516_991_409, 453_829_000).unwrap().to_rfc3339(),
        "2018-01-26T18:30:09.453829+00:00"
    );
    assert_eq!(
        Timestamp::new(1_516_991_409, 1).unwrap().to_rfc3339(),
        "2018-01-26T18:30:09.000000001+00:00"
    );
    assert_eq!(Timestamp::new(-1, 0).unwrap().to_rfc3339(), "1969-12-31T23:59:59+00:00");
}

#[test]
fn rfc3339_at_the_bounds() {
    assert_eq!(Timestamp::new(MIN_SECS, 0).unwrap().to_rfc3339(), "-262143-01-01T00:00:00+00:00");
    assert_eq!(
        Timestamp::new(MAX_SECS, 999_999_999).unwrap().to_rfc3339(),
        "+262142-12-31T23:59:59.999999999+00:00"
    );
    assert_eq!(
        Timestamp::new(253_402_300_799, 0).unwrap().to_rfc3339(),
        "9999-12-31T23:59:59+00:00"
    );
    assert_eq!(
        Timestamp::new(253_402_300_800, 0).unwrap().to_rfc3339(),
        "+10000-01-01T00:00:00+00:00"
    );
}
