use pellxd::time::{elapsed, fuzzy_datestamp_at, fuzzy_datestamp_of, HumanDuration, WallTime};

// 2024-01-01T00:00:00Z
const NEW_YEAR: i64 = 1_704_067_200;

fn utc(secs: i64) -> WallTime {
    WallTime::new(secs, 0, 0).unwrap()
}

#[test]
fn wall_times_within_chronos_range_are_accepted() {
    let w = WallTime::new(NEW_YEAR, 5, 3600).unwrap();
    assert_eq!(w.timestamp(), NEW_YEAR);
    assert_eq!(w.timestamp_subsec_nanos(), 5);
    assert_eq!(w.offset_secs(), 3600);
    assert!(WallTime::new(NEW_YEAR, 1_000_000_000, 0).is_none());
    assert!(WallTime::new(NEW_YEAR, 0, 86_400).is_none());
    assert!(WallTime::new(NEW_YEAR, 0, -86_400).is_none());
    assert!(WallTime::new(i64::MAX, 0, 0).is_none());
    assert!(WallTime::new(-1, 0, 0).is_some());
}

#[test]
fn recent_times_show_the_time_of_day() {
    let when = utc(NEW_YEAR);
    assert_eq!(fuzzy_datestamp_at(&when, &utc(NEW_YEAR + 3600)), "00:00:00");
    assert_eq!(fuzzy_datestamp_at(&when, &utc(NEW_YEAR + 12 * 3600)), "00:00:00");
    // A time in the future is also recent.
    assert_eq!(fuzzy_datestamp_at(&when, &utc(NEW_YEAR - 3600)), "00:00:00");
}

#[test]
fn older_times_show_the_date() {
    let when = utc(NEW_YEAR + 3723);
    assert_eq!(
        fuzzy_datestamp_at(&when, &WallTime::new(NEW_YEAR + 3723 + 12 * 3600, 1, 0).unwrap()),
        "2024-01-01 01:02:03"
    );
    assert_eq!(fuzzy_datestamp_at(&when, &utc(NEW_YEAR + 3723 + 3 * 86_400)), "2024-01-01 01:02:03");
    assert_eq!(
        fuzzy_datestamp_at(&when, &WallTime::new(NEW_YEAR + 3723 + 3 * 86_400, 1, 0).unwrap()),
        "2024-01-01"
    );
}

#[test]
fn times_are_shown_in_their_own_offset() {
    let when = WallTime::new(NEW_YEAR, 0, -3600).unwrap();
    assert_eq!(fuzzy_datestamp_at(&when, &utc(NEW_YEAR + 60)), "23:00:00");
    assert_eq!(fuzzy_datestamp_at(&when, &utc(NEW_YEAR + 4 * 86_400)), "2023-12-31");
    assert_eq!(when.format("%H:%M"), "23:00");
    assert_eq!(when.format("%Y-%m-%d %H:%M:%S"), "2023-12-31 23:00:00");
}

#[test]
fn the_current_time_is_recent() {
    let now = WallTime::now(3600).unwrap();
    assert_eq!(now.offset_secs(), 3600);
    assert!(now.timestamp() >= 0);
    assert!(WallTime::now(86_400).is_none());
    let shown = fuzzy_datestamp_of(&now).unwrap();
    assert_eq!(shown.len(), 8);
    assert_eq!(shown.as_bytes()[2], b':');
}

#[test]
fn elapsed_time_saturates_at_zero() {
    assert_eq!(elapsed(10, 25), 15);
    assert_eq!(elapsed(25, 10), 0);
    assert_eq!(elapsed(7, 7), 0);
}

#[test]
fn durations_read_like_humans_write_them() {
    assert_eq!(HumanDuration::from_secs(3600).to_human_string(), "1h");
    assert_eq!(HumanDuration::from_secs(480).to_human_string(), "8m");
    assert_eq!(HumanDuration(32_000_000).to_human_string(), "32ms");
    assert_eq!(HumanDuration(0).to_human_string(), "0s");
    assert_eq!(HumanDuration::from_secs(2).as_nanos(), 2_000_000_000);
}

#[test]
fn chrono_range_bounds_wall_times() {
    assert!(WallTime::new(-8_334_601_228_800, 0, 0).is_some());
    assert!(WallTime::new(-8_334_601_228_801, 0, 0).is_none());
    assert!(WallTime::new(8_210_266_876_799, 999_999_999, 0).is_some());
    assert!(WallTime::new(8_210_266_876_800, 0, 0).is_none());
    let w = WallTime::from_clock(1_704_067_200, 7, -3600).unwrap();
    assert_eq!(w.timestamp(), 1_704_067_200);
    assert_eq!(w.timestamp_subsec_nanos(), 7);
    assert_eq!(w.offset_secs(), -3600);
    assert!(WallTime::from_clock(u64::MAX, 0, 0).is_none());
    assert!(WallTime::from_clock(9_000_000_000_000, 0, 0).is_none());
    assert!(WallTime::from_clock(0, 1_000_000_000, 0).is_none());
    assert!(WallTime::from_clock(0, 0, 86_400).is_none());
}
