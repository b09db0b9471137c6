use rustdar_egui::stamp::{age_at, read_typed, write_date, write_time, Age, Stamp, MAX_SECS, MIN_SECS};

/// 2026-07-26 01:48:30 UTC.
const MOMENT: i64 = 1_785_030_510;

#[test]
fn a_moment_has_a_date_and_a_time_of_day() {
    let stamp = Stamp::new(MOMENT, 0).unwrap();
    assert_eq!(write_date(stamp), "2026-07-26");
    assert_eq!(write_time(stamp), "01:48:30");
    let early = Stamp::new(-1, 500_000_000).unwrap();
    assert_eq!(write_date(early), "1969-12-31");
    assert_eq!(write_time(early), "23:59:59");
}

#[test]
fn a_leap_second_reads_as_the_sixtieth() {
    let stamp = Stamp::new(1_483_228_799, 1_000_000_000).unwrap();
    assert_eq!(write_date(stamp), "2016-12-31");
    assert_eq!(write_time(stamp), "23:59:60");
}

#[test]
fn only_moments_that_can_be_named_are_stamps() {
    assert!(Stamp::new(MIN_SECS, 0).is_some());
    assert!(Stamp::new(MAX_SECS, 0).is_some());
    assert!(Stamp::new(MIN_SECS - 1, 0).is_none());
    assert!(Stamp::new(MAX_SECS + 1, 0).is_none());
    assert!(Stamp::new(MOMENT, 1_000_000_000).is_none());
    assert!(Stamp::new(59, 1_999_999_999).is_some());
    assert!(Stamp::new(59, 2_000_000_000).is_none());
    assert!(chrono::DateTime::from_timestamp(MIN_SECS, 0).is_some());
    assert!(chrono::DateTime::from_timestamp(MIN_SECS - 1, 0).is_none());
    assert!(chrono::DateTime::from_timestamp(MAX_SECS, 0).is_some());
    assert!(chrono::DateTime::from_timestamp(MAX_SECS + 1, 0).is_none());
    assert!(chrono::DateTime::from_timestamp(MOMENT, 1_000_000_000).is_none());
    assert!(chrono::DateTime::from_timestamp(59, 1_999_999_999).is_some());
}

#[test]
fn every_extreme_moment_can_be_written() {
    for secs in [MIN_SECS, MAX_SECS] {
        let stamp = Stamp::new(secs, 0).unwrap();
        assert!(write_date(stamp).len() >= 10);
        assert_eq!(write_time(stamp).len(), 8);
    }
}

#[test]
fn the_parts_of_a_stamp_determine_it() {
    let stamp = Stamp::new(MOMENT, 7).unwrap();
    assert_eq!(stamp.secs(), MOMENT);
    assert_eq!(stamp.nanos(), 7);
    assert_eq!(stamp, Stamp::new(MOMENT, 7).unwrap());
    assert_ne!(stamp, Stamp::new(MOMENT, 8).unwrap());
}

#[test]
fn a_moment_is_cut_to_its_minute() {
    let stamp = Stamp::new(MOMENT, 7).unwrap().to_minute();
    assert_eq!((stamp.secs(), stamp.nanos()), (MOMENT - 30, 0));
    let early = Stamp::new(-1, 0).unwrap().to_minute();
    assert_eq!((early.secs(), early.nanos()), (-60, 0));
}

#[test]
fn a_typed_moment_is_read() {
    let stamp = read_typed("2026-07-26", "01:48:30").unwrap();
    assert_eq!((stamp.secs(), stamp.nanos()), (MOMENT, 0));
    let leap = read_typed("2016-12-31", "23:59:60").unwrap();
    assert_eq!((leap.secs(), leap.nanos()), (1_483_228_799, 1_000_000_000));
}

#[test]
fn what_names_no_moment_is_not_read() {
    assert!(read_typed("2026-02-30", "01:48:30").is_none());
    assert!(read_typed("2026-07-26", "25:00:00").is_none());
    assert!(read_typed("2026-07-26", "01:48").is_none());
    assert!(read_typed("yesterday", "noon").is_none());
    assert!(read_typed("", "").is_none());
}

#[test]
fn what_is_written_is_read_back() {
    let stamp = Stamp::new(MOMENT, 0).unwrap();
    assert_eq!(
        read_typed(write_date(stamp).as_str(), write_time(stamp).as_str()),
        Some(stamp)
    );
}

#[test]
fn an_age_keeps_its_sign() {
    let then = Stamp::new(MOMENT, 0).unwrap();
    let later = Stamp::new(MOMENT + 90, 500_000_000).unwrap();
    assert_eq!(age_at(later, then), Age { secs: 90, nanos: 500_000_000 });
    assert_eq!(age_at(then, later), Age { secs: -90, nanos: -500_000_000 });
    assert_eq!(age_at(then, then), Age { secs: 0, nanos: 0 });
    let just_after = Stamp::new(MOMENT + 1, 0).unwrap();
    let just_before = Stamp::new(MOMENT, 999_999_999).unwrap();
    assert_eq!(age_at(just_after, just_before), Age { secs: 0, nanos: 1 });
    assert_eq!(age_at(just_before, just_after), Age { secs: 0, nanos: -1 });
}

#[test]
fn an_age_counts_a_leap_second_it_passes() {
    let leap = Stamp::new(1_483_142_399, 1_500_000_000).unwrap();
    let next = Stamp::new(1_483_142_400 + 10, 0).unwrap();
    assert_eq!(age_at(next, leap), Age { secs: 9, nanos: 500_000_000 });
}
