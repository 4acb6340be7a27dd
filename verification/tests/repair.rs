use sidecar_repair::metadata::Coordinate;
use sidecar_repair::metadata::GeoInfo;
use sidecar_repair::metadata::GoogleMetadata;
use sidecar_repair::metadata::TimeInfo;
use sidecar_repair::repair::repair_photo;
use sidecar_repair::repair::repair_video;
use sidecar_repair::repair::stream_copy_command;
use sidecar_repair::repair::verify_repair;
use sidecar_repair::repair::ErrorClass;
use sidecar_repair::repair::RepairError;

fn number(value: f64) -> Coordinate {
    Coordinate::from_bits(value.to_bits())
}

fn metadata(timestamp: &str, latitude: f64, longitude: f64, altitude: f64) -> GoogleMetadata {
    GoogleMetadata {
        title: "IMG.jpg".to_string(),
        description: String::new(),
        photo_taken_time: TimeInfo {
            timestamp: timestamp.to_string(),
            formatted: "Jan 1, 2021, 12:00:00 AM UTC".to_string(),
        },
        geo_data: GeoInfo {
            latitude: number(latitude),
            longitude: number(longitude),
            altitude: number(altitude),
        },
    }
}

#[test]
fn a_number_keeps_its_bits() {
    for value in [0.0f64, -0.0, 1.5, -48.8566, f64::MAX, f64::MIN_POSITIVE, f64::INFINITY] {
        assert_eq!(f64::from_bits(number(value).to_bits()), value);
        assert_eq!(number(value).is_zero(), value == 0.0, "{}", value);
    }
    assert!(!number(f64::NAN).is_zero());
    assert!(Coordinate::from_bits(0).is_zero());
    assert!(Coordinate::from_bits(1).to_bits() == 1);
}

#[test]
fn zero_latitude_and_longitude_mean_no_place() {
    assert!(!metadata("0", 0.0, 0.0, 0.0).geo_data.has_location());
    assert!(!metadata("0", 0.0, 0.0, 250.0).geo_data.has_location());
    assert!(!metadata("0", -0.0, 0.0, 0.0).geo_data.has_location());
    assert!(!metadata("0", 0.0, -0.0, 0.0).geo_data.has_location());
    assert!(metadata("0", 48.8566, 0.0, 0.0).geo_data.has_location());
    assert!(metadata("0", 0.0, 2.3522, 0.0).geo_data.has_location());
    assert!(metadata("0", -33.9, 151.2, 0.0).geo_data.has_location());
    assert!(metadata("0", 1e-300, 0.0, 0.0).geo_data.has_location());
}

#[test]
fn a_photo_gets_its_capture_date() {
    let tags = repair_photo(&metadata("1609459200", 0.0, 0.0, 0.0)).unwrap();
    assert_eq!(tags.capture_date, Some("2021:01:01 00:00:00".to_string()));
    assert!(!tags.gps_restored);
}

#[test]
fn a_photo_with_a_place_counts_as_restored() {
    let tags = repair_photo(&metadata("1609459200", 48.8566, 2.3522, 35.0)).unwrap();
    assert_eq!(tags.capture_date, Some("2021:01:01 00:00:00".to_string()));
    assert!(tags.gps_restored);
    assert!(repair_photo(&metadata("1609459200", 0.0, 2.3522, 0.0)).unwrap().gps_restored);
    assert!(repair_photo(&metadata("1609459200", 48.8566, 0.0, 0.0)).unwrap().gps_restored);
    assert!(!repair_photo(&metadata("1609459200", 0.0, 0.0, 35.0)).unwrap().gps_restored);
}

#[test]
fn a_photo_with_a_bad_capture_time_fails() {
    for timestamp in ["", "yesterday", "1609459200.5", " 1609459200", "9223372036854775808"] {
        let failed = repair_photo(&metadata(timestamp, 1.0, 1.0, 0.0));
        assert_eq!(failed.err(), Some(RepairError::BadTimestamp), "{:?}", timestamp);
    }
}

#[test]
fn a_photo_outside_the_calendar_gets_no_capture_date() {
    let tags = repair_photo(&metadata("9223372036854775807", 1.0, 1.0, 0.0)).unwrap();
    assert_eq!(tags.capture_date, None);
    assert!(tags.gps_restored);
}

#[test]
fn the_video_tool_is_called_with_a_stream_copy() {
    let command = stream_copy_command("in/clip.mp4", "2021-01-01T00:00:00", "out/clip.mp4");
    assert_eq!(command.program, "ffmpeg");
    assert_eq!(
        command.arguments,
        vec![
            "-i",
            "in/clip.mp4",
            "-metadata",
            "creation_time=2021-01-01T00:00:00",
            "-c",
            "copy",
            "-y",
            "out/clip.mp4",
        ]
    );
}

#[test]
fn a_video_gets_its_creation_time() {
    let command =
        repair_video("in/clip.mp4", &metadata("1609459200", 48.0, 2.0, 0.0), "out/clip.mp4").unwrap();
    assert_eq!(command.program, "ffmpeg");
    assert_eq!(command.arguments.len(), 8);
    assert_eq!(command.arguments[1], "in/clip.mp4");
    assert_eq!(command.arguments[3], "creation_time=2021-01-01T00:00:00");
    assert_eq!(command.arguments[7], "out/clip.mp4");
}

#[test]
fn a_video_with_a_bad_capture_time_fails() {
    let failed = repair_video("a.mp4", &metadata("soon", 0.0, 0.0, 0.0), "out/a.mp4");
    assert_eq!(failed.err(), Some(RepairError::BadTimestamp));
    let failed = repair_video("a.mp4", &metadata("", 0.0, 0.0, 0.0), "out/a.mp4");
    assert_eq!(failed.err(), Some(RepairError::BadTimestamp));
}

#[test]
fn a_video_outside_the_calendar_fails() {
    let failed = repair_video("a.mp4", &metadata("9223372036854775807", 0.0, 0.0, 0.0), "out/a.mp4");
    assert_eq!(failed.err(), Some(RepairError::TimestampOutOfRange));
    let failed = repair_video("a.mp4", &metadata("-9223372036854775808", 0.0, 0.0, 0.0), "out/a.mp4");
    assert_eq!(failed.err(), Some(RepairError::TimestampOutOfRange));
}

#[test]
fn a_destination_must_exist_and_hold_data() {
    assert_eq!(verify_repair(true, Some(1)), Ok(()));
    assert_eq!(verify_repair(true, Some(u64::MAX)), Ok(()));
    assert_eq!(verify_repair(true, Some(0)), Err(RepairError::OutputEmpty));
    assert_eq!(verify_repair(true, None), Err(RepairError::OutputUnreadable));
    assert_eq!(verify_repair(false, Some(10)), Err(RepairError::OutputMissing));
    assert_eq!(verify_repair(false, Some(0)), Err(RepairError::OutputMissing));
    assert_eq!(verify_repair(false, None), Err(RepairError::OutputMissing));
}

#[test]
fn every_failure_has_its_kind() {
    assert_eq!(RepairError::InvalidFilename.class(), ErrorClass::Misuse);
    assert_eq!(RepairError::UnexpectedEvent.class(), ErrorClass::Misuse);
    assert_eq!(RepairError::SidecarMalformed.class(), ErrorClass::MetadataParse);
    assert_eq!(RepairError::BadTimestamp.class(), ErrorClass::MetadataParse);
    assert_eq!(RepairError::TimestampOutOfRange.class(), ErrorClass::MetadataParse);
    assert_eq!(RepairError::SidecarUnreadable.class(), ErrorClass::Io);
    assert_eq!(RepairError::CopyFailed.class(), ErrorClass::Io);
    assert_eq!(RepairError::TagWriteFailed.class(), ErrorClass::Io);
    assert_eq!(RepairError::OutputUnreadable.class(), ErrorClass::Io);
    assert_eq!(RepairError::ToolFailed.class(), ErrorClass::ExternalProcess);
    assert_eq!(RepairError::OutputMissing.class(), ErrorClass::Verification);
    assert_eq!(RepairError::OutputEmpty.class(), ErrorClass::Verification);
}
