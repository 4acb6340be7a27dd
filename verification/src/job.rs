//! The steps of one repair.
//!
//! `repair_single` opens a repair and names its first action. The caller
//! carries the action out and hands what happened to `RepairJob::advance`,
//! which names the next action, and so on until the action is `Finish`.
//!
//! With a metadata file, a still image takes four actions (read the metadata
//! file, copy the image, write the capture date, look at the destination)
//! and a video three (read the metadata file, run the tool, look at the
//! destination). Without one, the file is copied as it is where that was
//! asked for, and otherwise left alone. The first failure ends the repair.
//!
//! The destination of a repair is the destination folder with the file name
//! of the media file. Two media files of the same name in different folders
//! have the same destination, and the later repair overwrites the earlier.

use vstd::prelude::*;
use vstd::string::*;

use crate::calendar::capture_date_pattern;
use crate::calendar::creation_time_pattern;
use crate::calendar::utc_text;
use crate::classify::is_video_file;
use crate::classify::video_path;
use crate::metadata::GoogleMetadata;
use crate::metadata::MetadataView;
use crate::paths::file_name;
use crate::paths::join;
use crate::paths::path_file_name;
use crate::paths::path_join;
use crate::repair::photo_repair;
use crate::repair::repair_photo;
use crate::repair::repair_video;
use crate::repair::stream_copy;
use crate::repair::verification;
use crate::repair::verify_repair;
use crate::repair::video_repair;
use crate::repair::RepairError;
use crate::repair::ToolCommand;
use crate::repair::ToolCommandView;

verus! {

/// What the caller is asked to do next.
#[derive(Debug)]
pub enum RepairAction {
    /// Read the metadata file and decode it.
    ReadSidecar { path: String },
    /// Copy a file byte for byte, overwriting the destination.
    Copy { from: String, to: String },
    /// Set the capture date in the embedded metadata of a still image; with
    /// no date, write the embedded metadata back without one.
    WriteCaptureDate { path: String, capture_date: Option<String> },
    /// Run the external tool and wait for it.
    RunTool { command: ToolCommand },
    /// See whether a file exists and how large it is.
    Inspect { path: String },
    /// Nothing more: the repair has ended, with the location restored or
    /// not, or with a failure.
    Finish { outcome: Result<bool, RepairError> },
}

/// An action as mathematical text.
pub enum RepairActionView {
    ReadSidecar { path: Seq<char> },
    Copy { from: Seq<char>, to: Seq<char> },
    WriteCaptureDate { path: Seq<char>, capture_date: Option<Seq<char>> },
    RunTool { command: ToolCommandView },
    Inspect { path: Seq<char> },
    Finish { outcome: Result<bool, RepairError> },
}

impl View for RepairAction {
    type V = RepairActionView;

    open spec fn view(&self) -> RepairActionView {
        match *self {
            RepairAction::ReadSidecar { path } => RepairActionView::ReadSidecar { path: path@ },
            RepairAction::Copy { from, to } => RepairActionView::Copy { from: from@, to: to@ },
            RepairAction::WriteCaptureDate {
                path,
                capture_date,
            } => RepairActionView::WriteCaptureDate {
                path: path@,
                capture_date: capture_date.deep_view(),
            },
            RepairAction::RunTool { command } => RepairActionView::RunTool { command: command@ },
            RepairAction::Inspect { path } => RepairActionView::Inspect { path: path@ },
            RepairAction::Finish { outcome } => RepairActionView::Finish { outcome },
        }
    }
}

/// What the caller reports of the action it was asked for.
#[derive(Clone, Debug)]
pub enum RepairEvent {
    /// The metadata file was read and decoded.
    SidecarLoaded { metadata: GoogleMetadata },
    /// The metadata file was read but is not well formed, or lacks a field.
    SidecarMalformed,
    /// The copy was made, or the capture date was written.
    Completed,
    /// The external tool ran and ended, successfully or not.
    ToolExited { success: bool },
    /// The destination was looked at: whether it exists, and its size in
    /// bytes where that could be read.
    Inspected { exists: bool, size: Option<u64> },
    /// The action could not be carried out.
    Failed,
}

/// A report as mathematical text.
pub enum RepairEventView {
    SidecarLoaded { metadata: MetadataView },
    SidecarMalformed,
    Completed,
    ToolExited { success: bool },
    Inspected { exists: bool, size: Option<u64> },
    Failed,
}

impl View for RepairEvent {
    type V = RepairEventView;

    open spec fn view(&self) -> RepairEventView {
        match *self {
            RepairEvent::SidecarLoaded { metadata } => RepairEventView::SidecarLoaded {
                metadata: metadata@,
            },
            RepairEvent::SidecarMalformed => RepairEventView::SidecarMalformed,
            RepairEvent::Completed => RepairEventView::Completed,
            RepairEvent::ToolExited { success } => RepairEventView::ToolExited { success },
            RepairEvent::Inspected { exists, size } => RepairEventView::Inspected { exists, size },
            RepairEvent::Failed => RepairEventView::Failed,
        }
    }
}

/// A repair under way: what it waits for, and what it has to remember.
#[derive(Clone, Debug)]
pub enum RepairJob {
    /// Waits for the metadata.
    ReadingSidecar { media_file: String, dest_path: String, video: bool },
    /// Waits for the copy of a file that has no metadata file.
    CopyingSolo,
    /// Waits for the copy of a still image.
    CopyingPhoto { dest_path: String, metadata: GoogleMetadata },
    /// Waits for the capture date to be written.
    WritingTags { dest_path: String, gps_restored: bool },
    /// Waits for the external tool.
    RunningTool { dest_path: String },
    /// Waits for a look at the destination.
    Inspecting { gps_restored: bool },
    /// Has ended.
    Finished,
}

/// A repair under way, as mathematical text.
pub enum RepairJobView {
    ReadingSidecar { media_file: Seq<char>, dest_path: Seq<char>, video: bool },
    CopyingSolo,
    CopyingPhoto { dest_path: Seq<char>, metadata: MetadataView },
    WritingTags { dest_path: Seq<char>, gps_restored: bool },
    RunningTool { dest_path: Seq<char> },
    Inspecting { gps_restored: bool },
    Finished,
}

impl View for RepairJob {
    type V = RepairJobView;

    open spec fn view(&self) -> RepairJobView {
        match *self {
            RepairJob::ReadingSidecar {
                media_file,
                dest_path,
                video,
            } => RepairJobView::ReadingSidecar {
                media_file: media_file@,
                dest_path: dest_path@,
                video,
            },
            RepairJob::CopyingSolo => RepairJobView::CopyingSolo,
            RepairJob::CopyingPhoto { dest_path, metadata } => RepairJobView::CopyingPhoto {
                dest_path: dest_path@,
                metadata: metadata@,
            },
            RepairJob::WritingTags { dest_path, gps_restored } => RepairJobView::WritingTags {
                dest_path: dest_path@,
                gps_restored,
            },
            RepairJob::RunningTool { dest_path } => RepairJobView::RunningTool {
                dest_path: dest_path@,
            },
            RepairJob::Inspecting { gps_restored } => RepairJobView::Inspecting { gps_restored },
            RepairJob::Finished => RepairJobView::Finished,
        }
    }
}

/// A repair after a step: its new state, and the action it asks for.
#[derive(Debug)]
pub struct RepairStep {
    pub job: RepairJob,
    pub action: RepairAction,
}

/// A step as mathematical text.
pub struct RepairStepView {
    pub job: RepairJobView,
    pub action: RepairActionView,
}

impl View for RepairStep {
    type V = RepairStepView;

    open spec fn view(&self) -> RepairStepView {
        RepairStepView { job: self.job@, action: self.action@ }
    }
}

/// The step that ends a repair.
pub open spec fn finish(outcome: Result<bool, RepairError>) -> RepairStepView {
    RepairStepView { job: RepairJobView::Finished, action: RepairActionView::Finish { outcome } }
}

/// The first step of a repair.
///
/// The destination is the destination folder with the file name of the media
/// file. A path without a file name is refused. Without a metadata file the
/// media file is copied as it is if `copy_solo` says so, and is otherwise
/// done with at once; with one, the metadata file is read first.
pub open spec fn first_step(
    media_file: Seq<char>,
    metadata_file: Option<Seq<char>>,
    dest_folder: Seq<char>,
    copy_solo: bool,
) -> RepairStepView {
    match path_file_name(media_file) {
        None => finish(Err(RepairError::InvalidFilename)),
        Some(name) => {
            let dest_path = path_join(dest_folder, name);
            match metadata_file {
                None => if copy_solo {
                    RepairStepView {
                        job: RepairJobView::CopyingSolo,
                        action: RepairActionView::Copy { from: media_file, to: dest_path },
                    }
                } else {
                    finish(Ok(false))
                },
                Some(sidecar) => RepairStepView {
                    job: RepairJobView::ReadingSidecar {
                        media_file,
                        dest_path,
                        video: video_path(media_file),
                    },
                    action: RepairActionView::ReadSidecar { path: sidecar },
                },
            }
        },
    }
}

/// The step that a repair takes on a report.
///
/// A report of failure ends the repair with the failure of the action that
/// was asked for, and so does a report that does not answer that action.
pub open spec fn next_step(job: RepairJobView, event: RepairEventView) -> RepairStepView {
    match job {
        RepairJobView::ReadingSidecar { media_file, dest_path, video } => match event {
            RepairEventView::SidecarLoaded { metadata } => if video {
                match video_repair(media_file, metadata, dest_path) {
                    Ok(command) => RepairStepView {
                        job: RepairJobView::RunningTool { dest_path },
                        action: RepairActionView::RunTool { command },
                    },
                    Err(error) => finish(Err(error)),
                }
            } else {
                RepairStepView {
                    job: RepairJobView::CopyingPhoto { dest_path, metadata },
                    action: RepairActionView::Copy { from: media_file, to: dest_path },
                }
            },
            RepairEventView::SidecarMalformed => finish(Err(RepairError::SidecarMalformed)),
            RepairEventView::Failed => finish(Err(RepairError::SidecarUnreadable)),
            _ => finish(Err(RepairError::UnexpectedEvent)),
        },
        RepairJobView::CopyingSolo => match event {
            RepairEventView::Completed => finish(Ok(false)),
            RepairEventView::Failed => finish(Err(RepairError::CopyFailed)),
            _ => finish(Err(RepairError::UnexpectedEvent)),
        },
        RepairJobView::CopyingPhoto { dest_path, metadata } => match event {
            RepairEventView::Completed => match photo_repair(metadata) {
                Ok(tags) => RepairStepView {
                    job: RepairJobView::WritingTags {
                        dest_path,
                        gps_restored: tags.gps_restored,
                    },
                    action: RepairActionView::WriteCaptureDate {
                        path: dest_path,
                        capture_date: tags.capture_date,
                    },
                },
                Err(error) => finish(Err(error)),
            },
            RepairEventView::Failed => finish(Err(RepairError::CopyFailed)),
            _ => finish(Err(RepairError::UnexpectedEvent)),
        },
        RepairJobView::WritingTags { dest_path, gps_restored } => match event {
            RepairEventView::Completed => RepairStepView {
                job: RepairJobView::Inspecting { gps_restored },
                action: RepairActionView::Inspect { path: dest_path },
            },
            RepairEventView::Failed => finish(Err(RepairError::TagWriteFailed)),
            _ => finish(Err(RepairError::UnexpectedEvent)),
        },
        RepairJobView::RunningTool { dest_path } => match event {
            RepairEventView::ToolExited { success } => if success {
                RepairStepView {
                    job: RepairJobView::Inspecting { gps_restored: false },
                    action: RepairActionView::Inspect { path: dest_path },
                }
            } else {
                finish(Err(RepairError::ToolFailed))
            },
            RepairEventView::Failed => finish(Err(RepairError::ToolFailed)),
            _ => finish(Err(RepairError::UnexpectedEvent)),
        },
        RepairJobView::Inspecting { gps_restored } => match event {
            RepairEventView::Inspected { exists, size } => match verification(exists, size) {
                Ok(_) => finish(Ok(gps_restored)),
                Err(error) => finish(Err(error)),
            },
            RepairEventView::Failed => finish(Err(RepairError::OutputUnreadable)),
            _ => finish(Err(RepairError::UnexpectedEvent)),
        },
        RepairJobView::Finished => finish(Err(RepairError::UnexpectedEvent)),
    }
}

/// Where a repair stands after it has taken a run of reports, one after the
/// other.
pub open spec fn run(step: RepairStepView, events: Seq<RepairEventView>) -> RepairStepView
    decreases events.len(),
{
    if events.len() == 0 {
        step
    } else {
        run(next_step(step.job, events.first()), events.drop_first())
    }
}

/// The actions that a repair asks for while it takes a run of reports: the
/// one it stands at, and then one after each report.
pub open spec fn actions(step: RepairStepView, events: Seq<RepairEventView>) -> Seq<
    RepairActionView,
>
    decreases events.len(),
{
    if events.len() == 0 {
        seq![step.action]
    } else {
        seq![step.action] + actions(next_step(step.job, events.first()), events.drop_first())
    }
}

/// The most reports that a repair can still take before it has ended.
pub open spec fn steps_left(job: RepairJobView) -> nat {
    match job {
        RepairJobView::ReadingSidecar { .. } => 4,
        RepairJobView::CopyingPhoto { .. } => 3,
        RepairJobView::WritingTags { .. } => 2,
        RepairJobView::RunningTool { .. } => 2,
        RepairJobView::CopyingSolo => 1,
        RepairJobView::Inspecting { .. } => 1,
        RepairJobView::Finished => 0,
    }
}

/// Whether a repair in this state can still end with the location restored.
pub open spec fn can_restore(job: RepairJobView) -> bool {
    match job {
        RepairJobView::ReadingSidecar { video, .. } => !video,
        RepairJobView::CopyingPhoto { metadata, .. } => metadata.geo_data.located(),
        RepairJobView::WritingTags { gps_restored, .. } => gps_restored,
        RepairJobView::Inspecting { gps_restored } => gps_restored,
        _ => false,
    }
}

/// Whether an action is the end of a repair with the location restored.
pub open spec fn restored(action: RepairActionView) -> bool {
    action == (RepairActionView::Finish { outcome: Ok(true) })
}

/// Whether a step names the end of a repair exactly when the repair has
/// ended.
pub open spec fn ends_together(step: RepairStepView) -> bool {
    step.job is Finished <==> step.action is Finish
}

/// A repair has ended exactly when its action is `Finish`: at its first
/// step, and after every report.
pub proof fn lemma_finish_ends()
    ensures
        forall|
            media_file: Seq<char>,
            metadata_file: Option<Seq<char>>,
            dest_folder: Seq<char>,
            copy_solo: bool,
        |
            ends_together(
                #[trigger] first_step(media_file, metadata_file, dest_folder, copy_solo),
            ),
        forall|job: RepairJobView, event: RepairEventView|
            ends_together(#[trigger] next_step(job, event)),
{
}

/// A failed action ends the repair with a failure, whatever the action was.
pub proof fn lemma_failure_ends_repair(job: RepairJobView)
    ensures
        next_step(job, RepairEventView::Failed).job is Finished,
        next_step(job, RepairEventView::Failed).action matches RepairActionView::Finish {
            outcome,
        } && outcome is Err,
{
}

/// Every report brings a repair nearer to its end.
pub proof fn lemma_step_shortens(job: RepairJobView, event: RepairEventView)
    ensures
        steps_left(next_step(job, event).job) < steps_left(job) || job is Finished,
        job is Finished ==> next_step(job, event).job is Finished,
{
}

/// A repair has ended once it has taken as many reports as it had steps
/// left: at most four from the start.
pub proof fn lemma_repair_ends(step: RepairStepView, events: Seq<RepairEventView>)
    requires
        events.len() >= steps_left(step.job),
    ensures
        run(step, events).job is Finished,
        steps_left(step.job) <= 4,
    decreases events.len(),
{
    if events.len() > 0 {
        lemma_step_shortens(step.job, events.first());
        lemma_repair_ends(next_step(step.job, events.first()), events.drop_first());
    }
}

/// A repair ends with the location restored only from a state in which that
/// is still possible.
pub proof fn lemma_restoring_run(step: RepairStepView, events: Seq<RepairEventView>)
    requires
        restored(run(step, events).action),
    ensures
        can_restore(step.job) || (events.len() == 0 && restored(step.action)),
    decreases events.len(),
{
    if events.len() > 0 {
        lemma_restoring_run(next_step(step.job, events.first()), events.drop_first());
    }
}

/// The location is restored only for a still image with a metadata file that
/// records a place: never for a video, never for a file without metadata
/// file, and never where latitude and longitude are both zero.
pub proof fn lemma_location_restored(
    media_file: Seq<char>,
    metadata_file: Option<Seq<char>>,
    dest_folder: Seq<char>,
    copy_solo: bool,
    events: Seq<RepairEventView>,
)
    requires
        restored(run(first_step(media_file, metadata_file, dest_folder, copy_solo), events).action),
    ensures
        metadata_file is Some,
        !video_path(media_file),
        events.len() > 0,
        events[0] matches RepairEventView::SidecarLoaded { metadata }
            && metadata.geo_data.located(),
{
    let start = first_step(media_file, metadata_file, dest_folder, copy_solo);
    lemma_restoring_run(start, events);
    assert(events.len() > 0);
    let second = next_step(start.job, events.first());
    lemma_restoring_run(second, events.drop_first());
}

/// The file that an action writes or looks at, if it does either.
pub open spec fn destination_of(action: RepairActionView) -> Option<Seq<char>> {
    match action {
        RepairActionView::Copy { to, .. } => Some(to),
        RepairActionView::WriteCaptureDate { path, .. } => Some(path),
        RepairActionView::RunTool { command } => if command.arguments.len() > 0 {
            Some(command.arguments.last())
        } else {
            None
        },
        RepairActionView::Inspect { path } => Some(path),
        _ => None,
    }
}

/// Whether a repair under way is bound for the given destination.
pub open spec fn bound_for(job: RepairJobView, destination: Seq<char>) -> bool {
    match job {
        RepairJobView::ReadingSidecar { dest_path, .. } => dest_path == destination,
        RepairJobView::CopyingPhoto { dest_path, .. } => dest_path == destination,
        RepairJobView::WritingTags { dest_path, .. } => dest_path == destination,
        RepairJobView::RunningTool { dest_path } => dest_path == destination,
        _ => true,
    }
}

/// A repair that is bound for a destination stays bound for it, and writes
/// and looks nowhere else.
pub proof fn lemma_stays_bound(
    step: RepairStepView,
    events: Seq<RepairEventView>,
    destination: Seq<char>,
)
    requires
        bound_for(step.job, destination),
        destination_of(step.action) matches Some(path) ==> path == destination,
    ensures
        bound_for(run(step, events).job, destination),
        destination_of(run(step, events).action) matches Some(path) ==> path == destination,
    decreases events.len(),
{
    if events.len() > 0 {
        lemma_stays_bound(next_step(step.job, events.first()), events.drop_first(), destination);
    }
}

/// A repair has one destination: the destination folder with the file name
/// of the media file. Whatever is reported to it, every action that writes
/// a file or looks at one names this path.
pub proof fn lemma_one_destination(
    media_file: Seq<char>,
    metadata_file: Option<Seq<char>>,
    dest_folder: Seq<char>,
    copy_solo: bool,
    events: Seq<RepairEventView>,
)
    ensures
        destination_of(
            run(first_step(media_file, metadata_file, dest_folder, copy_solo), events).action,
        ) matches Some(path) ==> path_file_name(media_file) matches Some(name) && path
            == path_join(dest_folder, name),
{
    let start = first_step(media_file, metadata_file, dest_folder, copy_solo);
    match path_file_name(media_file) {
        Some(name) => {
            lemma_stays_bound(start, events, path_join(dest_folder, name));
        },
        None => {
            lemma_stays_bound(start, events, Seq::empty());
            lemma_finished_stays(start, events);
        },
    }
}

/// A repair that has ended stays ended, and asks for nothing but to end.
pub proof fn lemma_finished_stays(step: RepairStepView, events: Seq<RepairEventView>)
    requires
        step.job is Finished,
        step.action is Finish,
    ensures
        run(step, events).job is Finished,
        run(step, events).action is Finish,
    decreases events.len(),
{
    if events.len() > 0 {
        lemma_finished_stays(next_step(step.job, events.first()), events.drop_first());
    }
}

/// The repair of a still image that meets no failure. The metadata file is
/// read, the image is copied to the destination, the capture date is written
/// into the copy, and the copy is looked at and found in order. The repair
/// ends with the location restored exactly if the metadata records a place.
pub proof fn lemma_photo_repaired(
    media_file: Seq<char>,
    sidecar: Seq<char>,
    dest_folder: Seq<char>,
    copy_solo: bool,
    metadata: MetadataView,
    size: u64,
)
    requires
        path_file_name(media_file) is Some,
        !video_path(media_file),
        metadata.captured_at() is Some,
        size > 0,
    ensures
        ({
            let dest_path = path_join(dest_folder, path_file_name(media_file)->0);
            let events = seq![
                RepairEventView::SidecarLoaded { metadata },
                RepairEventView::Completed,
                RepairEventView::Completed,
                RepairEventView::Inspected { exists: true, size: Some(size) },
            ];
            let start = first_step(media_file, Some(sidecar), dest_folder, copy_solo);
            &&& run(start, events) == finish(Ok(metadata.geo_data.located()))
            &&& actions(start, events) == seq![
                RepairActionView::ReadSidecar { path: sidecar },
                RepairActionView::Copy { from: media_file, to: dest_path },
                RepairActionView::WriteCaptureDate {
                    path: dest_path,
                    capture_date: utc_text(metadata.captured_at()->0, capture_date_pattern()),
                },
                RepairActionView::Inspect { path: dest_path },
                RepairActionView::Finish { outcome: Ok(metadata.geo_data.located()) },
            ]
        }),
{
    let events = seq![
        RepairEventView::SidecarLoaded { metadata },
        RepairEventView::Completed,
        RepairEventView::Completed,
        RepairEventView::Inspected { exists: true, size: Some(size) },
    ];
    let e1 = events.drop_first();
    let e2 = e1.drop_first();
    let e3 = e2.drop_first();
    let e4 = e3.drop_first();
    let s0 = first_step(media_file, Some(sidecar), dest_folder, copy_solo);
    let s1 = next_step(s0.job, events[0]);
    let s2 = next_step(s1.job, events[1]);
    let s3 = next_step(s2.job, events[2]);
    let s4 = next_step(s3.job, events[3]);
    lemma_run_unfolds(s0, events);
    lemma_run_unfolds(s1, e1);
    lemma_run_unfolds(s2, e2);
    lemma_run_unfolds(s3, e3);
    assert(e4.len() == 0);
    assert(actions(s4, e4) =~= seq![s4.action]);
    assert(actions(s3, e3) =~= seq![s3.action, s4.action]);
    assert(actions(s2, e2) =~= seq![s2.action, s3.action, s4.action]);
    assert(actions(s1, e1) =~= seq![s1.action, s2.action, s3.action, s4.action]);
    assert(actions(s0, events) =~= seq![s0.action, s1.action, s2.action, s3.action, s4.action]);
}

/// The repair of a video that meets no failure. The metadata file is read,
/// the tool copies the video to the destination with the creation time set,
/// and the copy is looked at and found in order. The repair ends without the
/// location restored, whatever the metadata says of a place.
pub proof fn lemma_video_repaired(
    media_file: Seq<char>,
    sidecar: Seq<char>,
    dest_folder: Seq<char>,
    copy_solo: bool,
    metadata: MetadataView,
    size: u64,
)
    requires
        path_file_name(media_file) is Some,
        video_path(media_file),
        metadata.captured_at() is Some,
        utc_text(metadata.captured_at()->0, creation_time_pattern()) is Some,
        size > 0,
    ensures
        ({
            let dest_path = path_join(dest_folder, path_file_name(media_file)->0);
            let events = seq![
                RepairEventView::SidecarLoaded { metadata },
                RepairEventView::ToolExited { success: true },
                RepairEventView::Inspected { exists: true, size: Some(size) },
            ];
            let start = first_step(media_file, Some(sidecar), dest_folder, copy_solo);
            &&& run(start, events) == finish(Ok(false))
            &&& actions(start, events) == seq![
                RepairActionView::ReadSidecar { path: sidecar },
                RepairActionView::RunTool {
                    command: stream_copy(
                        media_file,
                        utc_text(metadata.captured_at()->0, creation_time_pattern())->0,
                        dest_path,
                    ),
                },
                RepairActionView::Inspect { path: dest_path },
                RepairActionView::Finish { outcome: Ok(false) },
            ]
        }),
{
    let events = seq![
        RepairEventView::SidecarLoaded { metadata },
        RepairEventView::ToolExited { success: true },
        RepairEventView::Inspected { exists: true, size: Some(size) },
    ];
    let e1 = events.drop_first();
    let e2 = e1.drop_first();
    let e3 = e2.drop_first();
    let s0 = first_step(media_file, Some(sidecar), dest_folder, copy_solo);
    let s1 = next_step(s0.job, events[0]);
    let s2 = next_step(s1.job, events[1]);
    let s3 = next_step(s2.job, events[2]);
    lemma_run_unfolds(s0, events);
    lemma_run_unfolds(s1, e1);
    lemma_run_unfolds(s2, e2);
    assert(e3.len() == 0);
    assert(actions(s3, e3) =~= seq![s3.action]);
    assert(actions(s2, e2) =~= seq![s2.action, s3.action]);
    assert(actions(s1, e1) =~= seq![s1.action, s2.action, s3.action]);
    assert(actions(s0, events) =~= seq![s0.action, s1.action, s2.action, s3.action]);
}

/// A file without metadata file. Where copying is asked for, it is copied
/// to the destination as it is and nothing else is done to it; where not, it
/// is done with at once and nothing is written. Either way the location is
/// not restored.
pub proof fn lemma_solo_handled(media_file: Seq<char>, dest_folder: Seq<char>, copy_solo: bool)
    requires
        path_file_name(media_file) is Some,
    ensures
        ({
            let dest_path = path_join(dest_folder, path_file_name(media_file)->0);
            let start = first_step(media_file, None, dest_folder, copy_solo);
            if copy_solo {
                &&& run(start, seq![RepairEventView::Completed]) == finish(Ok(false))
                &&& actions(start, seq![RepairEventView::Completed]) == seq![
                    RepairActionView::Copy { from: media_file, to: dest_path },
                    RepairActionView::Finish { outcome: Ok(false) },
                ]
            } else {
                start == finish(Ok(false))
            }
        }),
{
    let events = seq![RepairEventView::Completed];
    let s0 = first_step(media_file, None, dest_folder, copy_solo);
    let s1 = next_step(s0.job, events[0]);
    lemma_run_unfolds(s0, events);
    assert(events.drop_first().len() == 0);
    assert(actions(s1, events.drop_first()) =~= seq![s1.action]);
    assert(actions(s0, events) =~= seq![s0.action, s1.action]);
}

/// A run with at least one report is the run of the rest of the reports
/// after the step on the first, and so are its actions.
proof fn lemma_run_unfolds(step: RepairStepView, events: Seq<RepairEventView>)
    requires
        events.len() > 0,
    ensures
        run(step, events) == run(next_step(step.job, events[0]), events.drop_first()),
        actions(step, events) == seq![step.action] + actions(
            next_step(step.job, events[0]),
            events.drop_first(),
        ),
{
}

/// Ends a repair.
fn finished(outcome: Result<bool, RepairError>) -> (step: RepairStep)
    ensures
        step@ == finish(outcome),
{
    RepairStep { job: RepairJob::Finished, action: RepairAction::Finish { outcome } }
}

/// Opens the repair of one media file and names its first action.
pub fn repair_single(
    media_file: &str,
    metadata_file: Option<&String>,
    dest_folder: &str,
    copy_solo: bool,
) -> (step: RepairStep)
    ensures
        step@ == first_step(media_file@, metadata_file.deep_view(), dest_folder@, copy_solo),
{
    let name: String = match file_name(media_file) {
        Some(name) => name,
        None => {
            return finished(Err(RepairError::InvalidFilename));
        },
    };
    let dest_path: String = join(dest_folder, name.as_str());
    match metadata_file {
        None => {
            if copy_solo {
                RepairStep {
                    job: RepairJob::CopyingSolo,
                    action: RepairAction::Copy { from: media_file.to_owned(), to: dest_path },
                }
            } else {
                finished(Ok(false))
            }
        },
        Some(sidecar) => RepairStep {
            job: RepairJob::ReadingSidecar {
                media_file: media_file.to_owned(),
                dest_path,
                video: is_video_file(media_file),
            },
            action: RepairAction::ReadSidecar { path: sidecar.clone() },
        },
    }
}

impl RepairJob {
    /// Whether the repair has ended.
    pub fn is_finished(&self) -> (finished: bool)
        ensures
            finished == (self@ is Finished),
    {
        match self {
            RepairJob::Finished => true,
            _ => false,
        }
    }

    /// Takes the caller's report of the last action and names the next one.
    pub fn advance(self, event: RepairEvent) -> (step: RepairStep)
        ensures
            step@ == next_step(self@, event@),
    {
        match self {
            RepairJob::ReadingSidecar { media_file, dest_path, video } => match event {
                RepairEvent::SidecarLoaded { metadata } => {
                    if video {
                        match repair_video(media_file.as_str(), &metadata, dest_path.as_str()) {
                            Ok(command) => RepairStep {
                                job: RepairJob::RunningTool { dest_path },
                                action: RepairAction::RunTool { command },
                            },
                            Err(error) => finished(Err(error)),
                        }
                    } else {
                        RepairStep {
                            job: RepairJob::CopyingPhoto { dest_path: dest_path.clone(), metadata },
                            action: RepairAction::Copy { from: media_file, to: dest_path },
                        }
                    }
                },
                RepairEvent::SidecarMalformed => finished(Err(RepairError::SidecarMalformed)),
                RepairEvent::Failed => finished(Err(RepairError::SidecarUnreadable)),
                _ => finished(Err(RepairError::UnexpectedEvent)),
            },
            RepairJob::CopyingSolo => match event {
                RepairEvent::Completed => finished(Ok(false)),
                RepairEvent::Failed => finished(Err(RepairError::CopyFailed)),
                _ => finished(Err(RepairError::UnexpectedEvent)),
            },
            RepairJob::CopyingPhoto { dest_path, metadata } => match event {
                RepairEvent::Completed => match repair_photo(&metadata) {
                    Ok(tags) => RepairStep {
                        job: RepairJob::WritingTags {
                            dest_path: dest_path.clone(),
                            gps_restored: tags.gps_restored,
                        },
                        action: RepairAction::WriteCaptureDate {
                            path: dest_path,
                            capture_date: tags.capture_date,
                        },
                    },
                    Err(error) => finished(Err(error)),
                },
                RepairEvent::Failed => finished(Err(RepairError::CopyFailed)),
                _ => finished(Err(RepairError::UnexpectedEvent)),
            },
            RepairJob::WritingTags { dest_path, gps_restored } => match event {
                RepairEvent::Completed => RepairStep {
                    job: RepairJob::Inspecting { gps_restored },
                    action: RepairAction::Inspect { path: dest_path },
                },
                RepairEvent::Failed => finished(Err(RepairError::TagWriteFailed)),
                _ => finished(Err(RepairError::UnexpectedEvent)),
            },
            RepairJob::RunningTool { dest_path } => match event {
                RepairEvent::ToolExited { success } => {
                    if success {
                        RepairStep {
                            job: RepairJob::Inspecting { gps_restored: false },
                            action: RepairAction::Inspect { path: dest_path },
                        }
                    } else {
                        finished(Err(RepairError::ToolFailed))
                    }
                },
                RepairEvent::Failed => finished(Err(RepairError::ToolFailed)),
                _ => finished(Err(RepairError::UnexpectedEvent)),
            },
            RepairJob::Inspecting { gps_restored } => match event {
                RepairEvent::Inspected { exists, size } => match verify_repair(exists, size) {
                    Ok(_) => finished(Ok(gps_restored)),
                    Err(error) => finished(Err(error)),
                },
                RepairEvent::Failed => finished(Err(RepairError::OutputUnreadable)),
                _ => finished(Err(RepairError::UnexpectedEvent)),
            },
            RepairJob::Finished => finished(Err(RepairError::UnexpectedEvent)),
        }
    }
}

} // verus!
