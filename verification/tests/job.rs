use sidecar_repair::job::repair_single;
use sidecar_repair::job::RepairAction;
use sidecar_repair::job::RepairEvent;
use sidecar_repair::job::RepairJob;
use sidecar_repair::job::RepairStep;
use sidecar_repair::metadata::Coordinate;
use sidecar_repair::metadata::GeoInfo;
use sidecar_repair::metadata::GoogleMetadata;
use sidecar_repair::metadata::TimeInfo;
use sidecar_repair::repair::RepairError;

fn metadata(timestamp: &str, latitude: f64, longitude: f64) -> GoogleMetadata {
    GoogleMetadata {
        title: "title".to_string(),
        description: "description".to_string(),
        photo_taken_time: TimeInfo { timestamp: timestamp.to_string(), formatted: String::new() },
        geo_data: GeoInfo {
            latitude: Coordinate::from_bits(latitude.to_bits()),
            longitude: Coordinate::from_bits(longitude.to_bits()),
            altitude: Coordinate::from_bits(0f64.to_bits()),
        },
    }
}

fn loaded(timestamp: &str, latitude: f64, longitude: f64) -> RepairEvent {
    RepairEvent::SidecarLoaded { metadata: metadata(timestamp, latitude, longitude) }
}

fn seen(size: u64) -> RepairEvent {
    RepairEvent::Inspected { exists: true, size: Some(size) }
}

fn open(media_file: &str, sidecar: bool, copy_solo: bool) -> RepairStep {
    let metadata_file = format!("{}.json", media_file);
    let metadata_file = if sidecar { Some(&metadata_file) } else { None };
    repair_single(media_file, metadata_file, "out", copy_solo)
}

fn outcome_of(step: &RepairStep) -> Result<bool, RepairError> {
    match &step.action {
        RepairAction::Finish { outcome } => {
            assert!(step.job.is_finished());
            *outcome
        },
        other => panic!("the repair has not ended: {:?}", other),
    }
}

fn run(mut step: RepairStep, events: Vec<RepairEvent>) -> RepairStep {
    for event in events {
        assert!(!step.job.is_finished());
        step = step.job.advance(event);
    }
    step
}

#[test]
fn a_photo_takes_four_actions() {
    let step = open("in/IMG.jpg", true, false);
    assert!(matches!(&step.action, RepairAction::ReadSidecar { path } if path == "in/IMG.jpg.json"));
    assert!(matches!(&step.job, RepairJob::ReadingSidecar { video: false, .. }));

    let step = step.job.advance(loaded("1609459200", 48.8566, 2.3522));
    assert!(matches!(&step.action,
        RepairAction::Copy { from, to } if from == "in/IMG.jpg" && to == "out/IMG.jpg"));

    let step = step.job.advance(RepairEvent::Completed);
    assert!(matches!(&step.action,
        RepairAction::WriteCaptureDate { path, capture_date }
            if path == "out/IMG.jpg" && capture_date.as_deref() == Some("2021:01:01 00:00:00")));

    let step = step.job.advance(RepairEvent::Completed);
    assert!(matches!(&step.action, RepairAction::Inspect { path } if path == "out/IMG.jpg"));

    let step = step.job.advance(seen(4096));
    assert_eq!(outcome_of(&step), Ok(true));
}

#[test]
fn a_photo_without_a_place_is_repaired_but_not_located() {
    let step = run(
        open("in/IMG.PNG", true, true),
        vec![loaded("1609459200", 0.0, 0.0), RepairEvent::Completed, RepairEvent::Completed, seen(1)],
    );
    assert_eq!(outcome_of(&step), Ok(false));
}

#[test]
fn a_photo_outside_the_calendar_is_written_without_date() {
    let step = run(
        open("in/IMG.jpg", true, false),
        vec![loaded("9223372036854775807", 0.0, 7.5), RepairEvent::Completed],
    );
    assert!(matches!(&step.action,
        RepairAction::WriteCaptureDate { path, capture_date: None } if path == "out/IMG.jpg"));
    let step = run(step, vec![RepairEvent::Completed, seen(10)]);
    assert_eq!(outcome_of(&step), Ok(true));
}

#[test]
fn a_video_takes_three_actions() {
    let step = open("in/clip.MP4", true, false);
    assert!(matches!(&step.action, RepairAction::ReadSidecar { path } if path == "in/clip.MP4.json"));
    assert!(matches!(&step.job, RepairJob::ReadingSidecar { video: true, .. }));

    let step = step.job.advance(loaded("1609459200", 48.8566, 2.3522));
    match &step.action {
        RepairAction::RunTool { command } => {
            assert_eq!(command.program, "ffmpeg");
            assert_eq!(
                command.arguments,
                vec![
                    "-i",
                    "in/clip.MP4",
                    "-metadata",
                    "creation_time=2021-01-01T00:00:00",
                    "-c",
                    "copy",
                    "-y",
                    "out/clip.MP4",
                ]
            );
        },
        other => panic!("{:?}", other),
    }

    let step = step.job.advance(RepairEvent::ToolExited { success: true });
    assert!(matches!(&step.action, RepairAction::Inspect { path } if path == "out/clip.MP4"));

    let step = step.job.advance(seen(1 << 20));
    assert_eq!(outcome_of(&step), Ok(false));
}

#[test]
fn a_video_never_restores_the_place() {
    for (latitude, longitude) in [(0.0, 0.0), (48.0, 0.0), (0.0, 2.0), (-33.9, 151.2)] {
        let step = run(
            open("clip.mov", true, true),
            vec![
                loaded("1609459200", latitude, longitude),
                RepairEvent::ToolExited { success: true },
                seen(77),
            ],
        );
        assert_eq!(outcome_of(&step), Ok(false));
    }
}

#[test]
fn a_file_without_metadata_file_is_copied_when_asked() {
    let step = open("in/IMG.jpg", false, true);
    assert!(matches!(&step.action,
        RepairAction::Copy { from, to } if from == "in/IMG.jpg" && to == "out/IMG.jpg"));
    assert!(matches!(&step.job, RepairJob::CopyingSolo));
    let step = step.job.advance(RepairEvent::Completed);
    assert_eq!(outcome_of(&step), Ok(false));
}

#[test]
fn a_file_without_metadata_file_is_left_alone_otherwise() {
    let step = open("in/IMG.jpg", false, false);
    assert_eq!(outcome_of(&step), Ok(false));
    let step = open("in/clip.mp4", false, false);
    assert_eq!(outcome_of(&step), Ok(false));
}

#[test]
fn the_destination_bears_the_file_name_of_the_source() {
    let step = repair_single("/photos/2021/trip/IMG.jpg", None, "/backup/fixed", true);
    assert!(matches!(&step.action,
        RepairAction::Copy { from, to }
            if from == "/photos/2021/trip/IMG.jpg" && to == "/backup/fixed/IMG.jpg"));
    let step = repair_single("other/IMG.jpg", None, "/backup/fixed/", true);
    assert!(matches!(&step.action, RepairAction::Copy { to, .. } if to == "/backup/fixed/IMG.jpg"));
}

#[test]
fn a_path_without_file_name_is_refused() {
    for path in ["", "/", "..", "album/.."] {
        for sidecar in [false, true] {
            for copy_solo in [false, true] {
                let step = open(path, sidecar, copy_solo);
                assert_eq!(outcome_of(&step), Err(RepairError::InvalidFilename), "{:?}", path);
            }
        }
    }
}

#[test]
fn an_unreadable_metadata_file_fails_the_repair() {
    let step = run(open("IMG.jpg", true, false), vec![RepairEvent::Failed]);
    assert_eq!(outcome_of(&step), Err(RepairError::SidecarUnreadable));
}

#[test]
fn a_malformed_metadata_file_fails_the_repair() {
    let step = run(open("IMG.jpg", true, false), vec![RepairEvent::SidecarMalformed]);
    assert_eq!(outcome_of(&step), Err(RepairError::SidecarMalformed));
    let step = run(open("clip.mp4", true, false), vec![RepairEvent::SidecarMalformed]);
    assert_eq!(outcome_of(&step), Err(RepairError::SidecarMalformed));
}

#[test]
fn a_failed_copy_fails_the_repair() {
    let step = run(open("IMG.jpg", true, false), vec![loaded("1", 1.0, 1.0), RepairEvent::Failed]);
    assert_eq!(outcome_of(&step), Err(RepairError::CopyFailed));
    let step = run(open("IMG.jpg", false, true), vec![RepairEvent::Failed]);
    assert_eq!(outcome_of(&step), Err(RepairError::CopyFailed));
}

#[test]
fn a_photo_with_a_bad_capture_time_fails_after_the_copy() {
    let step = run(open("IMG.jpg", true, false), vec![loaded("last summer", 1.0, 1.0)]);
    assert!(matches!(&step.action, RepairAction::Copy { .. }));
    let step = run(step, vec![RepairEvent::Completed]);
    assert_eq!(outcome_of(&step), Err(RepairError::BadTimestamp));
}

#[test]
fn a_video_with_a_bad_capture_time_fails_before_the_tool_runs() {
    let step = run(open("clip.mp4", true, false), vec![loaded("last summer", 1.0, 1.0)]);
    assert_eq!(outcome_of(&step), Err(RepairError::BadTimestamp));
    let step = run(open("clip.mp4", true, false), vec![loaded("9223372036854775807", 1.0, 1.0)]);
    assert_eq!(outcome_of(&step), Err(RepairError::TimestampOutOfRange));
}

#[test]
fn a_failed_write_of_the_capture_date_fails_the_repair() {
    let step = run(
        open("IMG.jpg", true, false),
        vec![loaded("1609459200", 1.0, 1.0), RepairEvent::Completed, RepairEvent::Failed],
    );
    assert_eq!(outcome_of(&step), Err(RepairError::TagWriteFailed));
}

#[test]
fn a_failed_tool_fails_the_repair() {
    let step = run(
        open("clip.mkv", true, false),
        vec![loaded("1609459200", 0.0, 0.0), RepairEvent::ToolExited { success: false }],
    );
    assert_eq!(outcome_of(&step), Err(RepairError::ToolFailed));
    let step =
        run(open("clip.mkv", true, false), vec![loaded("1609459200", 0.0, 0.0), RepairEvent::Failed]);
    assert_eq!(outcome_of(&step), Err(RepairError::ToolFailed));
}

#[test]
fn a_bad_destination_fails_the_repair() {
    let photo = || {
        run(
            open("IMG.jpg", true, false),
            vec![loaded("1609459200", 1.0, 1.0), RepairEvent::Completed, RepairEvent::Completed],
        )
    };
    let step = run(photo(), vec![RepairEvent::Inspected { exists: false, size: None }]);
    assert_eq!(outcome_of(&step), Err(RepairError::OutputMissing));
    let step = run(photo(), vec![RepairEvent::Inspected { exists: true, size: Some(0) }]);
    assert_eq!(outcome_of(&step), Err(RepairError::OutputEmpty));
    let step = run(photo(), vec![RepairEvent::Inspected { exists: true, size: None }]);
    assert_eq!(outcome_of(&step), Err(RepairError::OutputUnreadable));
    let step = run(photo(), vec![RepairEvent::Failed]);
    assert_eq!(outcome_of(&step), Err(RepairError::OutputUnreadable));

    let video = run(
        open("clip.avi", true, false),
        vec![loaded("1609459200", 1.0, 1.0), RepairEvent::ToolExited { success: true }],
    );
    let step = run(video, vec![RepairEvent::Inspected { exists: true, size: Some(0) }]);
    assert_eq!(outcome_of(&step), Err(RepairError::OutputEmpty));
}

#[test]
fn a_file_copied_without_metadata_is_not_looked_at() {
    let step = run(open("IMG.jpg", false, true), vec![RepairEvent::Completed]);
    assert_eq!(outcome_of(&step), Ok(false));
}

#[test]
fn a_report_that_answers_nothing_fails_the_repair() {
    let step = run(open("IMG.jpg", true, false), vec![RepairEvent::Completed]);
    assert_eq!(outcome_of(&step), Err(RepairError::UnexpectedEvent));
    let step = run(open("IMG.jpg", true, false), vec![loaded("1", 0.0, 0.0), seen(5)]);
    assert_eq!(outcome_of(&step), Err(RepairError::UnexpectedEvent));
    let step = run(open("IMG.jpg", false, true), vec![RepairEvent::ToolExited { success: true }]);
    assert_eq!(outcome_of(&step), Err(RepairError::UnexpectedEvent));
    let step = run(
        open("clip.mp4", true, false),
        vec![loaded("1", 0.0, 0.0), RepairEvent::Completed],
    );
    assert_eq!(outcome_of(&step), Err(RepairError::UnexpectedEvent));
    let step = run(
        open("IMG.jpg", true, false),
        vec![loaded("1", 0.0, 0.0), RepairEvent::Completed, RepairEvent::SidecarMalformed],
    );
    assert_eq!(outcome_of(&step), Err(RepairError::UnexpectedEvent));
}

#[test]
fn a_repair_that_has_ended_takes_no_more_reports() {
    let step = open("IMG.jpg", false, false);
    assert!(step.job.is_finished());
    let step = step.job.advance(RepairEvent::Completed);
    assert_eq!(outcome_of(&step), Err(RepairError::UnexpectedEvent));
    let step = step.job.advance(RepairEvent::Failed);
    assert_eq!(outcome_of(&step), Err(RepairError::UnexpectedEvent));
}
