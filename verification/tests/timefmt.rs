use remi_capture::timefmt::Timestamp;

fn ts(
    year: u32,
    month: u32,
    day: u32,
    hour: u32,
    minute: u32,
    second: u32,
    millisecond: u32,
) -> Timestamp {
    Timestamp { year, month, day, hour, minute, second, millisecond }
}

#[test]
fn session_dir_name_is_zero_padded() {
    let t = ts(2024, 1, 2, 3, 4, 5, 6);
    assert_eq!(t.session_dir_name(), "20240102_030405");
}

#[test]
fn frame_stamp_carries_milliseconds() {
    let t = ts(2024, 1, 2, 3, 4, 5, 6);
    assert_eq!(t.frame_stamp(), "20240102_030405_006");
}

#[test]
fn frame_stamp_at_upper_bounds() {
    let t = ts(9999, 12, 31, 23, 59, 59, 999);
    assert_eq!(t.frame_stamp(), "99991231_235959_999");
}

#[test]
fn frame_stamps_increase_with_capture_time() {
    let a = ts(2024, 5, 6, 7, 8, 9, 100).frame_stamp();
    let b = ts(2024, 5, 6, 7, 8, 9, 101).frame_stamp();
    let c = ts(2024, 5, 6, 7, 8, 10, 0).frame_stamp();
    assert!(a < b);
    assert!(b < c);
}
