use remi_capture::persist::FramePersister;
use remi_capture::persist::PersistError;
use remi_capture::settings::CameraSettings;
use remi_capture::settings::Encoding;
use remi_capture::timefmt::Timestamp;

fn settings(encoding: Encoding) -> CameraSettings {
    CameraSettings {
        encoding,
        width: 8,
        height: 6,
        iso: 100,
        sensor_mode: 1,
        quality: 85,
        zero_copy: true,
        use_encoder: true,
    }
}

fn stamp() -> Timestamp {
    Timestamp { year: 2024, month: 1, day: 2, hour: 3, minute: 4, second: 5, millisecond: 6 }
}

fn synthetic_png(width: u32, height: u32) -> Vec<u8> {
    let img = image::RgbImage::from_fn(width, height, |x, y| {
        image::Rgb([(x * 30) as u8, (y * 40) as u8, 200])
    });
    let mut bytes: Vec<u8> = Vec::new();
    let mut cursor = std::io::Cursor::new(&mut bytes);
    img.write_to(&mut cursor, image::ImageFormat::Png).unwrap();
    bytes
}

#[test]
fn well_formed_frame_round_trips_with_same_dimensions() {
    // A synthetic well-formed frame, decoded then re-encoded as grayscale,
    // yields a file decodable by the same codec at the source dimensions.
    let frame = synthetic_png(8, 6);
    let persister = FramePersister::new(&settings(Encoding::Png));
    let artifact = persister.plan_artifact(&frame, &stamp()).unwrap();
    assert_eq!(artifact.filename, "20240102_030405_006.jpg");
    let reread =
        image::load_from_memory_with_format(&artifact.bytes, image::ImageFormat::Jpeg).unwrap();
    assert_eq!(reread.width(), 8);
    assert_eq!(reread.height(), 6);
    assert_eq!(reread.color(), image::ColorType::L8);
}

#[test]
fn malformed_frame_is_persisted_verbatim_under_png_extension() {
    let frame: Vec<u8> = vec![0, 1, 2, 3, 254, 255, 17];
    let persister = FramePersister::new(&settings(Encoding::Png));
    let artifact = persister.plan_artifact(&frame, &stamp()).unwrap();
    assert_eq!(artifact.bytes, frame);
    assert_eq!(artifact.filename, "20240102_030405_006.png");
}

#[test]
fn malformed_frame_under_jpeg_settings_gets_jpg_extension() {
    let frame: Vec<u8> = vec![9, 9, 9];
    let persister = FramePersister::new(&settings(Encoding::Jpeg));
    let artifact = persister.plan_artifact(&frame, &stamp()).unwrap();
    assert_eq!(artifact.bytes, frame);
    assert_eq!(artifact.filename, "20240102_030405_006.jpg");
}

#[test]
fn empty_frame_becomes_zero_byte_fallback_file() {
    // A channel that closed with zero bytes delivered: decode fails and a
    // zero-byte fallback file is planned.
    let frame: Vec<u8> = Vec::new();
    let persister = FramePersister::new(&settings(Encoding::Png));
    let artifact = persister.plan_artifact(&frame, &stamp()).unwrap();
    assert!(artifact.bytes.is_empty());
    assert_eq!(artifact.filename, "20240102_030405_006.png");
}

#[test]
fn declared_format_decides_the_decoder() {
    // PNG bytes under declared JPEG settings fail declared-format decoding
    // and fall back to the verbatim bytes.
    let frame = synthetic_png(4, 4);
    let persister = FramePersister::new(&settings(Encoding::Jpeg));
    let artifact = persister.plan_artifact(&frame, &stamp()).unwrap();
    assert_eq!(artifact.bytes, frame);
    assert_eq!(artifact.filename, "20240102_030405_006.jpg");
}

#[test]
fn oversized_frame_exhausts_both_reencodes() {
    // JPEG cannot hold an image 70000 pixels wide: the primary re-encode
    // and the one generic fallback both fail, and persistence gives up on
    // the frame.
    let img = image::GrayImage::from_pixel(70000, 1, image::Luma([77u8]));
    let mut bytes: Vec<u8> = Vec::new();
    let mut cursor = std::io::Cursor::new(&mut bytes);
    img.write_to(&mut cursor, image::ImageFormat::Png).unwrap();
    let persister = FramePersister::new(&settings(Encoding::Png));
    let err = persister.plan_artifact(&bytes, &stamp()).unwrap_err();
    assert_eq!(err, PersistError::EncodeFailed);
}

#[test]
fn grayscale_reencode_differs_from_source_bytes() {
    let frame = synthetic_png(8, 6);
    let persister = FramePersister::new(&settings(Encoding::Png));
    let artifact = persister.plan_artifact(&frame, &stamp()).unwrap();
    assert_ne!(artifact.bytes, frame);
}
