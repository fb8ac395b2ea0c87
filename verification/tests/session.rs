use remi_capture::acquire::Chunk;
use remi_capture::session::run_captures;
use remi_capture::session::CaptureDelivery;
use remi_capture::session::IntervalScheduler;
use remi_capture::session::SessionError;
use remi_capture::settings::CameraSettings;
use remi_capture::settings::Encoding;
use remi_capture::timefmt::Timestamp;

fn settings() -> CameraSettings {
    CameraSettings {
        encoding: Encoding::Png,
        width: 8,
        height: 6,
        iso: 100,
        sensor_mode: 1,
        quality: 85,
        zero_copy: true,
        use_encoder: true,
    }
}

fn stamp_at(second: u32, millisecond: u32) -> Timestamp {
    Timestamp { year: 2024, month: 1, day: 2, hour: 3, minute: 4, second, millisecond }
}

fn synthetic_png(width: u32, height: u32) -> Vec<u8> {
    let img = image::RgbImage::from_fn(width, height, |x, y| {
        image::Rgb([(x * 30) as u8, (y * 40) as u8, 200])
    });
    let mut bytes: Vec<u8> = Vec::new();
    let mut cursor = std::io::Cursor::new(&mut bytes);
    img.write_to(&mut cursor, image::ImageFormat::Png).unwrap();
    bytes
}

fn delivery_of(bytes: Vec<u8>, stamp: Timestamp) -> CaptureDelivery {
    // Split the frame across two chunks; only the last carries the final flag.
    let mid = bytes.len() / 2;
    let first = bytes[..mid].to_vec();
    let second = bytes[mid..].to_vec();
    CaptureDelivery {
        chunks: vec![
            Chunk { bytes: first, is_final: false },
            Chunk { bytes: second, is_final: true },
        ],
        stamp,
    }
}

#[test]
fn three_well_formed_frames_yield_three_jpg_files() {
    // n = 3 at a fixed period: one priming acquisition is discarded, then
    // each of the three frames becomes one valid grayscale JPEG at the
    // configured dimensions, named by its capture instant.
    let deliveries = vec![
        delivery_of(synthetic_png(8, 6), stamp_at(0, 0)),
        delivery_of(synthetic_png(8, 6), stamp_at(1, 100)),
        delivery_of(synthetic_png(8, 6), stamp_at(1, 600)),
        delivery_of(synthetic_png(8, 6), stamp_at(2, 100)),
    ];
    let artifacts = run_captures(&deliveries, &settings(), 3).unwrap();
    assert_eq!(artifacts.len(), 3);
    let expected_names =
        vec!["20240102_030401_100.jpg", "20240102_030401_600.jpg", "20240102_030402_100.jpg"];
    for (artifact, expected) in artifacts.iter().zip(expected_names.iter()) {
        assert_eq!(&artifact.filename, expected);
        let reread =
            image::load_from_memory_with_format(&artifact.bytes, image::ImageFormat::Jpeg)
                .unwrap();
        assert_eq!(reread.width(), 8);
        assert_eq!(reread.height(), 6);
        assert_eq!(reread.color(), image::ColorType::L8);
    }
    let mut names: Vec<&String> = artifacts.iter().map(|a| &a.filename).collect();
    names.sort();
    assert_eq!(names[0], "20240102_030401_100.jpg");
}

#[test]
fn zero_frames_need_only_the_priming_acquisition() {
    let deliveries = vec![delivery_of(synthetic_png(4, 4), stamp_at(0, 0))];
    let artifacts = run_captures(&deliveries, &settings(), 0).unwrap();
    assert!(artifacts.is_empty());
}

#[test]
fn missing_priming_acquisition_is_an_acquisition_error() {
    let deliveries: Vec<CaptureDelivery> = Vec::new();
    let err = run_captures(&deliveries, &settings(), 0).unwrap_err();
    assert_eq!(err, SessionError::Acquisition);
}

#[test]
fn too_few_deliveries_abort_as_acquisition_error() {
    let deliveries = vec![
        delivery_of(synthetic_png(4, 4), stamp_at(0, 0)),
        delivery_of(synthetic_png(4, 4), stamp_at(1, 0)),
    ];
    let err = run_captures(&deliveries, &settings(), 5).unwrap_err();
    assert_eq!(err, SessionError::Acquisition);
}

#[test]
fn empty_frame_mid_session_falls_back_and_loop_proceeds() {
    // One frame's channel closes with zero bytes delivered: its decode
    // fails, a zero-byte fallback file is planned, and the loop goes on to
    // the next tick without aborting.
    let empty = CaptureDelivery { chunks: Vec::new(), stamp: stamp_at(1, 500) };
    let deliveries = vec![
        delivery_of(synthetic_png(8, 6), stamp_at(0, 0)),
        delivery_of(synthetic_png(8, 6), stamp_at(1, 0)),
        empty,
        delivery_of(synthetic_png(8, 6), stamp_at(2, 0)),
    ];
    let artifacts = run_captures(&deliveries, &settings(), 3).unwrap();
    assert_eq!(artifacts.len(), 3);
    assert_eq!(artifacts[1].filename, "20240102_030401_500.png");
    assert!(artifacts[1].bytes.is_empty());
    assert_eq!(artifacts[0].filename, "20240102_030401_000.jpg");
    assert_eq!(artifacts[2].filename, "20240102_030402_000.jpg");
}

#[test]
fn camera_selection_takes_the_first_of_at_least_one() {
    assert_eq!(remi_capture::settings::select_camera(0), None);
    assert_eq!(remi_capture::settings::select_camera(1), Some(0));
    assert_eq!(remi_capture::settings::select_camera(3), Some(0));
}

#[test]
fn scheduler_first_tick_is_due_immediately() {
    let sched = IntervalScheduler::new(1000, 500);
    assert_eq!(sched.wait_before_tick(1000), 0);
    assert_eq!(sched.wait_before_tick(2000), 0);
}

#[test]
fn scheduler_spaces_deadlines_by_the_period() {
    let mut sched = IntervalScheduler::new(1000, 500);
    sched.tick_fired();
    assert_eq!(sched.next_deadline_ms, 1500);
    assert_eq!(sched.wait_before_tick(1200), 300);
    sched.tick_fired();
    assert_eq!(sched.next_deadline_ms, 2000);
    assert_eq!(sched.wait_before_tick(2600), 0);
}
