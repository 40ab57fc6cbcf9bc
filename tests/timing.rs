use msg_logger::clock::{
    date_range_to_timestamps, fields_with_fallback, range_for_offsets, event_time_fields, floor_div_mod, local_time_fields,
    LocalDate,
};

#[test]
fn epoch_is_thursday_midnight() {
    assert_eq!(local_time_fields(0, 0), (0, 4));
}

#[test]
fn offset_shifts_hour_and_day() {
    // 2024-01-01 00:00:00 UTC was a Monday; at UTC+8 it is 08:00 the same day.
    assert_eq!(local_time_fields(1704067200, 28800), (8, 1));
    // At UTC-5 it is 19:00 on Sunday.
    assert_eq!(local_time_fields(1704067200, -18000), (19, 0));
}

#[test]
fn negative_timestamps_use_floor() {
    assert_eq!(local_time_fields(-1, 0), (23, 3));
    assert_eq!(floor_div_mod(-1, 86400), (-1, 86399));
    assert_eq!(floor_div_mod(-86400, 86400), (-1, 0));
    assert_eq!(floor_div_mod(7, 3), (2, 1));
}

#[test]
fn event_fields_are_in_range() {
    let (h, d) = event_time_fields(1704067200);
    assert!((0..24).contains(&h));
    assert!((0..7).contains(&d));
}

#[test]
fn missing_offsets_open_the_range() {
    let d = LocalDate { days: 19723 };
    assert_eq!(range_for_offsets(d, d, None, None), (0, i64::MAX));
}

#[test]
fn one_day_range_in_utc_and_utc_plus_eight() {
    let d = LocalDate { days: 19723 };
    assert_eq!(range_for_offsets(d, d, Some(0), Some(0)), (1704067200, 1704153599));
    assert_eq!(range_for_offsets(d, d, Some(28800), Some(28800)), (1704038400, 1704124799));
    let e = LocalDate { days: 19724 };
    assert_eq!(range_for_offsets(d, e, Some(0), Some(0)), (1704067200, 1704239999));
}

#[test]
fn single_date_range_covers_one_day() {
    // 2024-01-01 is day 19723 after 1970-01-01.
    let day = LocalDate { days: 19723 };
    let (s, e) = date_range_to_timestamps(day, day);
    assert!((s - 1704067200).abs() < 86400);
    assert_eq!(e - s, 86399);
}

#[test]
fn fallback_fields_use_current_time() {
    assert_eq!(fields_with_fallback(1704067200, Some(28800), 0, None), (8, 1));
    assert_eq!(fields_with_fallback(1704067200, None, 0, Some(3600)), (1, 4));
    assert_eq!(fields_with_fallback(1704067200, None, 0, None), (0, 4));
}
