//! Repairing one media file.
//!
//! The crate decides what is to be done and in which order; the caller does
//! it. A repair is a short exchange: the crate names an action, the caller
//! carries it out and reports what happened, and the crate names the next
//! action, until it names the outcome.
//!
//! A still image is copied to the destination and its capture date is set
//! there. A video is copied by the external tool, which sets the creation
//! time on the way; its location is never restored. In both cases the
//! destination is looked at afterwards: it has to exist and hold data.

use vstd::prelude::*;
use vstd::string::*;

use crate::calendar::capture_date;
use crate::calendar::capture_date_pattern;
use crate::calendar::creation_time;
use crate::calendar::creation_time_pattern;
use crate::calendar::utc_text;
use crate::metadata::GoogleMetadata;
use crate::metadata::MetadataView;

verus! {

/// Why a repair failed.
#[derive(Clone, Copy, Debug, PartialEq, Eq, Structural)]
pub enum RepairError {
    /// The path of the media file has no file name.
    InvalidFilename,
    /// The metadata file could not be read.
    SidecarUnreadable,
    /// The metadata file is not well formed, or lacks a field.
    SidecarMalformed,
    /// The capture time is not a decimal number of seconds.
    BadTimestamp,
    /// The capture time lies outside the calendar.
    TimestampOutOfRange,
    /// The media file could not be copied to the destination.
    CopyFailed,
    /// The capture date could not be written into the destination.
    TagWriteFailed,
    /// The external tool could not be run, or did not succeed.
    ToolFailed,
    /// The destination does not exist after the repair.
    OutputMissing,
    /// The destination could not be looked at after the repair.
    OutputUnreadable,
    /// The destination holds no data after the repair.
    OutputEmpty,
    /// The caller reported something that does not answer the action asked
    /// for.
    UnexpectedEvent,
}

/// The kinds of failure.
#[derive(Clone, Copy, Debug, PartialEq, Eq, Structural)]
pub enum ErrorClass {
    /// The caller handed in something unusable.
    Misuse,
    /// The metadata file or a value in it could not be understood.
    MetadataParse,
    /// Reading, copying or writing a file failed.
    Io,
    /// The external tool is missing or failed.
    ExternalProcess,
    /// The destination is missing or empty after the repair.
    Verification,
}

impl RepairError {
    /// The kind of a failure.
    pub open spec fn class_of(self) -> ErrorClass {
        match self {
            RepairError::InvalidFilename | RepairError::UnexpectedEvent => ErrorClass::Misuse,
            RepairError::SidecarMalformed
            | RepairError::BadTimestamp
            | RepairError::TimestampOutOfRange => ErrorClass::MetadataParse,
            RepairError::SidecarUnreadable
            | RepairError::CopyFailed
            | RepairError::TagWriteFailed
            | RepairError::OutputUnreadable => ErrorClass::Io,
            RepairError::ToolFailed => ErrorClass::ExternalProcess,
            RepairError::OutputMissing | RepairError::OutputEmpty => ErrorClass::Verification,
        }
    }

    /// The kind of a failure.
    pub fn class(&self) -> (class: ErrorClass)
        ensures
            class == self.class_of(),
    {
        match self {
            RepairError::InvalidFilename | RepairError::UnexpectedEvent => ErrorClass::Misuse,
            RepairError::SidecarMalformed
            | RepairError::BadTimestamp
            | RepairError::TimestampOutOfRange => ErrorClass::MetadataParse,
            RepairError::SidecarUnreadable
            | RepairError::CopyFailed
            | RepairError::TagWriteFailed
            | RepairError::OutputUnreadable => ErrorClass::Io,
            RepairError::ToolFailed => ErrorClass::ExternalProcess,
            RepairError::OutputMissing | RepairError::OutputEmpty => ErrorClass::Verification,
        }
    }
}

/// What is to be written into a still image.
#[derive(Clone, Debug)]
pub struct PhotoRepair {
    /// The capture date, laid out as `YYYY:MM:DD HH:MM:SS`; nothing where
    /// the capture time lies outside the calendar.
    pub capture_date: Option<String>,
    /// Whether the metadata records a place. This says that a place was
    /// there to restore, not that it was written: only the capture date is
    /// written into the image.
    pub gps_restored: bool,
}

/// What is to be written into a still image, as mathematical text.
pub struct PhotoRepairView {
    pub capture_date: Option<Seq<char>>,
    pub gps_restored: bool,
}

impl View for PhotoRepair {
    type V = PhotoRepairView;

    open spec fn view(&self) -> PhotoRepairView {
        PhotoRepairView {
            capture_date: self.capture_date.deep_view(),
            gps_restored: self.gps_restored,
        }
    }
}

/// A call of an external program.
#[derive(Clone, Debug)]
pub struct ToolCommand {
    pub program: String,
    pub arguments: Vec<String>,
}

/// A call of an external program, as mathematical text.
pub struct ToolCommandView {
    pub program: Seq<char>,
    pub arguments: Seq<Seq<char>>,
}

impl View for ToolCommand {
    type V = ToolCommandView;

    open spec fn view(&self) -> ToolCommandView {
        ToolCommandView { program: self.program@, arguments: self.arguments.deep_view() }
    }
}

/// What the metadata asks to be written into a still image: the capture
/// date, and whether a place is recorded. Fails where the capture time is no
/// number.
pub open spec fn photo_repair(metadata: MetadataView) -> Result<PhotoRepairView, RepairError> {
    match metadata.captured_at() {
        Some(seconds) => Ok(
            PhotoRepairView {
                capture_date: utc_text(seconds, capture_date_pattern()),
                gps_restored: metadata.geo_data.located(),
            },
        ),
        None => Err(RepairError::BadTimestamp),
    }
}

/// The call of the video tool that copies all streams of a video as they are
/// into the destination, which it overwrites, and sets the creation time.
pub open spec fn stream_copy(
    media_file: Seq<char>,
    creation_time: Seq<char>,
    dest_path: Seq<char>,
) -> ToolCommandView {
    ToolCommandView {
        program: "ffmpeg"@,
        arguments: seq![
            "-i"@,
            media_file,
            "-metadata"@,
            "creation_time="@ + creation_time,
            "-c"@,
            "copy"@,
            "-y"@,
            dest_path,
        ],
    }
}

/// The call of the video tool that the metadata asks for. Fails where the
/// capture time is no number or lies outside the calendar.
pub open spec fn video_repair(
    media_file: Seq<char>,
    metadata: MetadataView,
    dest_path: Seq<char>,
) -> Result<ToolCommandView, RepairError> {
    match metadata.captured_at() {
        Some(seconds) => match utc_text(seconds, creation_time_pattern()) {
            Some(time) => Ok(stream_copy(media_file, time, dest_path)),
            None => Err(RepairError::TimestampOutOfRange),
        },
        None => Err(RepairError::BadTimestamp),
    }
}

/// The verdict on a destination: it has to exist, its size has to be known,
/// and it has to hold data.
pub open spec fn verification(exists: bool, size: Option<u64>) -> Result<(), RepairError> {
    if !exists {
        Err(RepairError::OutputMissing)
    } else {
        match size {
            None => Err(RepairError::OutputUnreadable),
            Some(bytes) => if bytes == 0 {
                Err(RepairError::OutputEmpty)
            } else {
                Ok(())
            },
        }
    }
}

/// Works out what is to be written into a still image.
pub fn repair_photo(metadata: &GoogleMetadata) -> (repair: Result<PhotoRepair, RepairError>)
    ensures
        match repair {
            Ok(tags) => photo_repair(metadata@) == Ok::<PhotoRepairView, RepairError>(tags@),
            Err(error) => photo_repair(metadata@) == Err::<PhotoRepairView, RepairError>(error),
        },
{
    match metadata.captured_at() {
        Some(seconds) => Ok(
            PhotoRepair {
                capture_date: capture_date(seconds),
                gps_restored: metadata.geo_data.has_location(),
            },
        ),
        None => Err(RepairError::BadTimestamp),
    }
}

/// Makes the call of the video tool for a creation time that is already laid
/// out as text.
pub fn stream_copy_command(media_file: &str, creation_time: &str, dest_path: &str) -> (command:
    ToolCommand)
    ensures
        command@ == stream_copy(media_file@, creation_time@, dest_path@),
{
    let mut arguments: Vec<String> = Vec::new();
    arguments.push("-i".to_owned());
    arguments.push(media_file.to_owned());
    arguments.push("-metadata".to_owned());
    arguments.push("creation_time=".to_owned().concat(creation_time));
    arguments.push("-c".to_owned());
    arguments.push("copy".to_owned());
    arguments.push("-y".to_owned());
    arguments.push(dest_path.to_owned());
    let command: ToolCommand = ToolCommand { program: "ffmpeg".to_owned(), arguments };
    assert(command@.arguments =~= stream_copy(media_file@, creation_time@, dest_path@).arguments);
    command
}

/// Works out the call of the video tool that repairs a video.
pub fn repair_video(media_file: &str, metadata: &GoogleMetadata, dest_path: &str) -> (repair:
    Result<ToolCommand, RepairError>)
    ensures
        match repair {
            Ok(command) => video_repair(media_file@, metadata@, dest_path@) == Ok::<
                ToolCommandView,
                RepairError,
            >(command@),
            Err(error) => video_repair(media_file@, metadata@, dest_path@) == Err::<
                ToolCommandView,
                RepairError,
            >(error),
        },
{
    match metadata.captured_at() {
        Some(seconds) => match creation_time(seconds) {
            Some(time) => Ok(stream_copy_command(media_file, time.as_str(), dest_path)),
            None => Err(RepairError::TimestampOutOfRange),
        },
        None => Err(RepairError::BadTimestamp),
    }
}

/// Judges a destination after the repair by what was seen of it: whether it
/// exists, and its size in bytes where that could be read.
pub fn verify_repair(exists: bool, size: Option<u64>) -> (verdict: Result<(), RepairError>)
    ensures
        verdict == verification(exists, size),
{
    if !exists {
        return Err(RepairError::OutputMissing);
    }
    match size {
        None => Err(RepairError::OutputUnreadable),
        Some(bytes) => if bytes == 0 {
            Err(RepairError::OutputEmpty)
        } else {
            Ok(())
        },
    }
}

} // verus!
