use rustdar_egui::stamp::Age;
use rustdar_egui::status::{describe_age, format_product_age};

fn age(secs: i64) -> Age {
    Age { secs, nanos: 0 }
}

fn minutes(minutes: i64) -> Age {
    age(minutes * 60)
}

#[test]
fn a_stamp_from_the_future_is_not_reported_as_an_age() {
    assert_eq!(format_product_age(minutes(-5)), "stamped ahead");
    assert_eq!(format_product_age(age(-1)), "stamped ahead");
}

#[test]
fn minutes_below_an_hour_then_hours_above_it() {
    assert_eq!(format_product_age(age(0)), "0 min old");
    assert_eq!(format_product_age(minutes(59)), "59 min old");
    assert_eq!(format_product_age(minutes(60)), "1h 0m old");
    assert_eq!(format_product_age(minutes(1565)), "26h 5m old");
}

#[test]
fn seconds_old_data_reads_as_just_now() {
    assert_eq!(describe_age(0), "just now");
    assert_eq!(describe_age(4), "just now");
    assert_eq!(describe_age(9), "just now");
}

#[test]
fn the_middle_range_reads_in_seconds() {
    assert_eq!(describe_age(10), "10s old");
    assert_eq!(describe_age(89), "89s old");
}

#[test]
fn older_data_reads_in_rounded_minutes() {
    assert_eq!(describe_age(90), "2m old");
    assert_eq!(describe_age(120), "2m old");
    assert_eq!(describe_age(330), "6m old");
}
