//! Repairing a list of media files, one after the other.
//!
//! A batch takes its records in the order of the list, and each record in
//! two steps. First it hands out the notification that announces the record:
//! the caller sends it, whether or not anyone listens, and says so. Only
//! then it hands out the first step of the repair: the caller carries the
//! repair to its end as `job` describes and settles the record with the
//! outcome. After the last record the batch hands out the report. A repair
//! that fails is counted and the batch goes on.

use vstd::prelude::*;
use vstd::string::*;

use crate::classify::is_video_file;
use crate::classify::video_path;
use crate::job::first_step;
use crate::job::lemma_location_restored;
use crate::job::repair_single;
use crate::job::run;
use crate::job::RepairActionView;
use crate::job::RepairEventView;
use crate::job::RepairStep;
use crate::job::RepairStepView;
use crate::paths::file_name;
use crate::paths::path_file_name;
use crate::repair::RepairError;
use crate::scan::ScanRecord;
use crate::scan::ScanResult;

verus! {

/// The counts of a batch.
#[derive(Clone, Copy, Debug, PartialEq, Eq, Structural)]
pub struct RepairReport {
    /// Still images repaired from their metadata file.
    pub fixed_photos: usize,
    /// Videos repaired from their metadata file.
    pub fixed_videos: usize,
    /// Repairs that found a place recorded in the metadata, whether or not
    /// the place was written into the file.
    pub gps_restored: usize,
    /// Files without metadata file that were copied as they are.
    pub solo_copied: usize,
    /// Repairs that failed.
    pub failed: usize,
}

/// The notification that announces a record.
#[derive(Clone, Debug)]
pub struct ProgressEvent {
    /// The number of the record in the batch, counted from one.
    pub current: usize,
    /// The number of records in the batch.
    pub total: usize,
    /// The file name of the media file, empty where its path has none.
    pub filename: String,
    pub status: String,
}

/// A notification as mathematical text.
pub struct ProgressView {
    pub current: nat,
    pub total: nat,
    pub filename: Seq<char>,
    pub status: Seq<char>,
}

impl View for ProgressEvent {
    type V = ProgressView;

    open spec fn view(&self) -> ProgressView {
        ProgressView {
            current: self.current as nat,
            total: self.total as nat,
            filename: self.filename@,
            status: self.status@,
        }
    }
}

/// The counts of a batch as numbers without bound, together with the count
/// that the report leaves out: the files without metadata file that were
/// left alone because copying them was not asked for.
pub struct Tally {
    pub fixed_photos: nat,
    pub fixed_videos: nat,
    pub gps_restored: nat,
    pub solo_copied: nat,
    pub failed: nat,
    pub skipped: nat,
}

impl Tally {
    /// The number of records counted: each record is in exactly one of
    /// these five counts.
    pub open spec fn records(self) -> nat {
        self.fixed_photos + self.fixed_videos + self.solo_copied + self.failed + self.skipped
    }
}

/// The counts of an executable report and a number of skipped files.
pub open spec fn tally_of(report: RepairReport, skipped: usize) -> Tally {
    Tally {
        fixed_photos: report.fixed_photos as nat,
        fixed_videos: report.fixed_videos as nat,
        gps_restored: report.gps_restored as nat,
        solo_copied: report.solo_copied as nat,
        failed: report.failed as nat,
        skipped: skipped as nat,
    }
}

/// The counts before any record is settled.
pub open spec fn empty_tally() -> Tally {
    Tally {
        fixed_photos: 0,
        fixed_videos: 0,
        gps_restored: 0,
        solo_copied: 0,
        failed: 0,
        skipped: 0,
    }
}

/// The counts after one more record is settled.
///
/// A failure counts as failed. A success counts by what the record is: with
/// a metadata file as a repaired video or still image, and in addition as a
/// place restored where the outcome says so; without one as copied where
/// copying was asked for, and as skipped where it was not.
pub open spec fn tally_one(
    tally: Tally,
    record: ScanRecord,
    copy_solo: bool,
    outcome: Result<bool, RepairError>,
) -> Tally {
    match outcome {
        Err(_) => Tally { failed: tally.failed + 1, ..tally },
        Ok(gps_restored) => if record.metadata_file is Some {
            let counted = if video_path(record.media_file) {
                Tally { fixed_videos: tally.fixed_videos + 1, ..tally }
            } else {
                Tally { fixed_photos: tally.fixed_photos + 1, ..tally }
            };
            if gps_restored {
                Tally { gps_restored: counted.gps_restored + 1, ..counted }
            } else {
                counted
            }
        } else if copy_solo {
            Tally { solo_copied: tally.solo_copied + 1, ..tally }
        } else {
            Tally { skipped: tally.skipped + 1, ..tally }
        },
    }
}

/// The notification that announces the record at a position of the list.
pub open spec fn progress_of(files: Seq<ScanRecord>, position: int) -> ProgressView {
    ProgressView {
        current: (position + 1) as nat,
        total: files.len(),
        filename: match path_file_name(files[position].media_file) {
            Some(name) => name,
            None => Seq::empty(),
        },
        status: "Processing..."@,
    }
}

/// A batch as mathematical values: the list, the settings, how many records
/// are settled, whether the next record has been announced, and the counts
/// so far.
pub struct BatchView {
    pub files: Seq<ScanRecord>,
    pub dest_folder: Seq<char>,
    pub copy_solo: bool,
    pub settled: nat,
    pub announced: bool,
    pub tally: Tally,
}

/// What a batch asks of the caller.
pub enum BatchStepView {
    /// Send the notification and say so.
    Announce { batch: BatchView, progress: ProgressView },
    /// Carry out the repair and settle the record.
    Repair { batch: BatchView, repair: RepairStepView },
    /// Nothing more: these are the counts.
    Finished { tally: Tally },
}

/// A batch with nothing settled and nothing announced.
pub open spec fn opening(files: Seq<ScanRecord>, dest_folder: Seq<char>, copy_solo: bool) -> BatchView {
    BatchView {
        files,
        dest_folder,
        copy_solo,
        settled: 0,
        announced: false,
        tally: empty_tally(),
    }
}

/// What a batch asks next: to announce the first record that is not
/// settled, or to repair it once it is announced, or nothing more once all
/// records are settled.
pub open spec fn pending(batch: BatchView) -> BatchStepView {
    if batch.settled >= batch.files.len() {
        BatchStepView::Finished { tally: batch.tally }
    } else if !batch.announced {
        BatchStepView::Announce { batch, progress: progress_of(batch.files, batch.settled as int) }
    } else {
        let record = batch.files[batch.settled as int];
        BatchStepView::Repair {
            batch,
            repair: first_step(
                record.media_file,
                record.metadata_file,
                batch.dest_folder,
                batch.copy_solo,
            ),
        }
    }
}

/// A batch after the notification it handed out is sent.
pub open spec fn after_announcing(batch: BatchView) -> BatchView {
    if batch.settled < batch.files.len() {
        BatchView { announced: true, ..batch }
    } else {
        batch
    }
}

/// A batch after the record it handed out for repair is settled with an
/// outcome.
pub open spec fn settled_with(batch: BatchView, outcome: Result<bool, RepairError>) -> BatchView {
    if batch.settled < batch.files.len() && batch.announced {
        BatchView {
            settled: batch.settled + 1,
            announced: false,
            tally: tally_one(
                batch.tally,
                batch.files[batch.settled as int],
                batch.copy_solo,
                outcome,
            ),
            ..batch
        }
    } else {
        batch
    }
}

/// A batch after its first records are announced and settled with the given
/// outcomes, in order.
pub open spec fn batch_after(
    files: Seq<ScanRecord>,
    dest_folder: Seq<char>,
    copy_solo: bool,
    outcomes: Seq<Result<bool, RepairError>>,
) -> BatchView
    decreases outcomes.len(),
{
    if outcomes.len() == 0 {
        opening(files, dest_folder, copy_solo)
    } else {
        settled_with(
            after_announcing(batch_after(files, dest_folder, copy_solo, outcomes.drop_last())),
            outcomes.last(),
        )
    }
}

/// What a batch under way holds: the list, the settings and the counts.
#[derive(Debug)]
struct Ledger {
    files: Vec<ScanResult>,
    dest_folder: String,
    copy_solo: bool,
    settled: usize,
    report: RepairReport,
    skipped: usize,
}

impl Ledger {
    /// A record waits to be settled, and every settled record is counted
    /// once.
    spec fn well_formed(self) -> bool {
        &&& self.settled < self.files.len()
        &&& tally_of(self.report, self.skipped).records() == self.settled
        &&& self.report.gps_restored <= self.report.fixed_photos + self.report.fixed_videos
    }

    /// The batch as mathematical values, the next record announced or not.
    spec fn model(self, announced: bool) -> BatchView {
        BatchView {
            files: self.files.deep_view(),
            dest_folder: self.dest_folder@,
            copy_solo: self.copy_solo,
            settled: self.settled as nat,
            announced,
            tally: tally_of(self.report, self.skipped),
        }
    }
}

/// A batch whose next record waits to be announced.
#[derive(Debug)]
pub struct Announcing {
    ledger: Ledger,
}

/// A batch whose next record is announced and waits to be repaired.
#[derive(Debug)]
pub struct Repairing {
    ledger: Ledger,
}

impl View for Announcing {
    type V = BatchView;

    closed spec fn view(&self) -> BatchView {
        self.ledger.model(false)
    }
}

impl View for Repairing {
    type V = BatchView;

    closed spec fn view(&self) -> BatchView {
        self.ledger.model(true)
    }
}

/// What a batch asks of the caller.
#[derive(Debug)]
pub enum BatchStep {
    /// Send `progress`, then call `batch.announce()`.
    Announce { batch: Announcing, progress: ProgressEvent },
    /// Carry out the repair that `repair` opens, then call `batch.settle`
    /// with its outcome.
    Repair { batch: Repairing, repair: RepairStep },
    /// Nothing more: `report` holds the counts, and `skipped` the number of
    /// files without metadata file that were left alone.
    Finished { report: RepairReport, skipped: usize },
}

impl View for BatchStep {
    type V = BatchStepView;

    open spec fn view(&self) -> BatchStepView {
        match *self {
            BatchStep::Announce { batch, progress } => BatchStepView::Announce {
                batch: batch@,
                progress: progress@,
            },
            BatchStep::Repair { batch, repair } => BatchStepView::Repair {
                batch: batch@,
                repair: repair@,
            },
            BatchStep::Finished { report, skipped } => BatchStepView::Finished {
                tally: tally_of(report, skipped),
            },
        }
    }
}

/// Hands out the notification of the record that waits to be settled.
fn announce_next(ledger: Ledger) -> (step: BatchStep)
    requires
        ledger.well_formed(),
    ensures
        step@ == pending(ledger.model(false)),
{
    let record: &ScanResult = &ledger.files[ledger.settled];
    let filename: String = match file_name(record.media_file.as_str()) {
        Some(name) => name,
        None => String::new(),
    };
    let notice: ProgressEvent = ProgressEvent {
        current: ledger.settled + 1,
        total: ledger.files.len(),
        filename,
        status: "Processing...".to_owned(),
    };
    BatchStep::Announce { batch: Announcing { ledger }, progress: notice }
}

/// Opens a batch on a list of scan results and asks for its first record to
/// be announced, or hands out an empty report at once where the list is
/// empty.
pub fn start_batch(files: Vec<ScanResult>, dest_folder: String, copy_solo: bool) -> (step:
    BatchStep)
    ensures
        step@ == pending(opening(files.deep_view(), dest_folder@, copy_solo)),
{
    let report: RepairReport = RepairReport {
        fixed_photos: 0,
        fixed_videos: 0,
        gps_restored: 0,
        solo_copied: 0,
        failed: 0,
    };
    if files.len() == 0 {
        BatchStep::Finished { report, skipped: 0 }
    } else {
        announce_next(
            Ledger { files, dest_folder, copy_solo, settled: 0, report, skipped: 0 },
        )
    }
}

impl Announcing {
    /// A record waits to be settled, and every settled record is counted
    /// once.
    #[verifier::type_invariant]
    spec fn well_formed(self) -> bool {
        self.ledger.well_formed()
    }

    /// Takes note that the notification is sent, and hands out the repair of
    /// the record.
    pub fn announce(self) -> (step: BatchStep)
        ensures
            step@ == pending(after_announcing(self@)),
            step is Repair,
    {
        proof {
            use_type_invariant(&self);
        }
        let ledger: Ledger = self.ledger;
        let record: &ScanResult = &ledger.files[ledger.settled];
        let repair: RepairStep = repair_single(
            record.media_file.as_str(),
            record.metadata_file.as_ref(),
            ledger.dest_folder.as_str(),
            ledger.copy_solo,
        );
        BatchStep::Repair { batch: Repairing { ledger }, repair }
    }
}

impl Repairing {
    /// A record waits to be settled, and every settled record is counted
    /// once.
    #[verifier::type_invariant]
    spec fn well_formed(self) -> bool {
        self.ledger.well_formed()
    }

    /// Settles the record that was handed out with the outcome of its
    /// repair, and asks for the next record to be announced or hands out the
    /// report.
    ///
    /// When the report is handed out, every record of the list is counted in
    /// exactly one of repaired still images, repaired videos, copied, failed
    /// and skipped.
    pub fn settle(self, outcome: Result<bool, RepairError>) -> (step: BatchStep)
        ensures
            step@ == pending(settled_with(self@, outcome)),
            !(step is Repair),
            step matches BatchStep::Finished { report, skipped } ==> (report.fixed_photos
                + report.fixed_videos + report.solo_copied + report.failed + skipped
                == self@.files.len()),
    {
        proof {
            use_type_invariant(&self);
        }
        let Ledger { files, dest_folder, copy_solo, settled, report, skipped } = self.ledger;
        let mut report: RepairReport = report;
        let mut skipped: usize = skipped;
        let record: &ScanResult = &files[settled];
        match outcome {
            Err(_) => {
                report.failed += 1;
            },
            Ok(gps_restored) => {
                if record.metadata_file.is_some() {
                    if is_video_file(record.media_file.as_str()) {
                        report.fixed_videos += 1;
                    } else {
                        report.fixed_photos += 1;
                    }
                    if gps_restored {
                        report.gps_restored += 1;
                    }
                } else if copy_solo {
                    report.solo_copied += 1;
                } else {
                    skipped += 1;
                }
            },
        }
        if settled + 1 < files.len() {
            announce_next(
                Ledger { files, dest_folder, copy_solo, settled: settled + 1, report, skipped },
            )
        } else {
            BatchStep::Finished { report, skipped }
        }
    }
}

/// Settling a record counts it once.
pub proof fn lemma_tally_counts_one(
    tally: Tally,
    record: ScanRecord,
    copy_solo: bool,
    outcome: Result<bool, RepairError>,
)
    ensures
        tally_one(tally, record, copy_solo, outcome).records() == tally.records() + 1,
{
}

/// After any outcomes of its first records, a batch has settled that many
/// records and counted each of them once: repaired still images, repaired
/// videos, copied, failed and skipped add up to the number of outcomes, and
/// so to the number of records once all are settled. No more places are
/// counted as restored than files as repaired.
pub proof fn lemma_every_record_counted(
    files: Seq<ScanRecord>,
    dest_folder: Seq<char>,
    copy_solo: bool,
    outcomes: Seq<Result<bool, RepairError>>,
)
    requires
        outcomes.len() <= files.len(),
    ensures
        batch_after(files, dest_folder, copy_solo, outcomes) == (BatchView {
            settled: outcomes.len(),
            tally: batch_after(files, dest_folder, copy_solo, outcomes).tally,
            ..opening(files, dest_folder, copy_solo)
        }),
        batch_after(files, dest_folder, copy_solo, outcomes).tally.records() == outcomes.len(),
        batch_after(files, dest_folder, copy_solo, outcomes).tally.gps_restored <= batch_after(
            files,
            dest_folder,
            copy_solo,
            outcomes,
        ).tally.fixed_photos + batch_after(
            files,
            dest_folder,
            copy_solo,
            outcomes,
        ).tally.fixed_videos,
        outcomes.len() == files.len() ==> pending(
            batch_after(files, dest_folder, copy_solo, outcomes),
        ) == (BatchStepView::Finished {
            tally: batch_after(files, dest_folder, copy_solo, outcomes).tally,
        }),
    decreases outcomes.len(),
{
    if outcomes.len() > 0 {
        lemma_every_record_counted(files, dest_folder, copy_solo, outcomes.drop_last());
    }
}

/// Each record is announced once, before its repair, in the order of the
/// list and numbered from one. Whatever the outcomes of the records before
/// it, the batch first asks to announce the record at their count, with the
/// notification that bears its number and the size of the list; once that is
/// done it asks for the repair of the same record; and it never asks for a
/// repair that is not announced.
pub proof fn lemma_progress_counts_up(
    files: Seq<ScanRecord>,
    dest_folder: Seq<char>,
    copy_solo: bool,
    outcomes: Seq<Result<bool, RepairError>>,
)
    requires
        outcomes.len() < files.len(),
    ensures
        pending(batch_after(files, dest_folder, copy_solo, outcomes)) matches BatchStepView::Announce {
            progress,
            ..
        } && progress == progress_of(files, outcomes.len() as int) && progress.current
            == outcomes.len() + 1 && progress.total == files.len(),
        pending(
            after_announcing(batch_after(files, dest_folder, copy_solo, outcomes)),
        ) matches BatchStepView::Repair { repair, .. } && repair == first_step(
            files[outcomes.len() as int].media_file,
            files[outcomes.len() as int].metadata_file,
            dest_folder,
            copy_solo,
        ),
        forall|batch: BatchView| #[trigger] pending(batch) is Repair ==> batch.announced,
{
    lemma_every_record_counted(files, dest_folder, copy_solo, outcomes);
}

/// Whether a repair of the record can end with the outcome, under some run
/// of reports.
pub open spec fn repair_can_end_with(
    record: ScanRecord,
    dest_folder: Seq<char>,
    copy_solo: bool,
    outcome: Result<bool, RepairError>,
) -> bool {
    exists|events: Seq<RepairEventView>|
        (#[trigger] run(
            first_step(record.media_file, record.metadata_file, dest_folder, copy_solo),
            events,
        )).action == (RepairActionView::Finish { outcome })
}

/// Where every record is settled with an outcome of its own repair, places
/// are counted as restored for still images only: no more of them than still
/// images repaired, however many videos there are.
pub proof fn lemma_places_are_of_photos(
    files: Seq<ScanRecord>,
    dest_folder: Seq<char>,
    copy_solo: bool,
    outcomes: Seq<Result<bool, RepairError>>,
)
    requires
        outcomes.len() <= files.len(),
        forall|i: int|
            0 <= i < outcomes.len() ==> repair_can_end_with(
                files[i],
                dest_folder,
                copy_solo,
                #[trigger] outcomes[i],
            ),
    ensures
        batch_after(files, dest_folder, copy_solo, outcomes).tally.gps_restored <= batch_after(
            files,
            dest_folder,
            copy_solo,
            outcomes,
        ).tally.fixed_photos,
    decreases outcomes.len(),
{
    if outcomes.len() > 0 {
        let earlier = outcomes.drop_last();
        let last = outcomes.len() - 1;
        assert forall|i: int| 0 <= i < earlier.len() implies repair_can_end_with(
            files[i],
            dest_folder,
            copy_solo,
            #[trigger] earlier[i],
        ) by {
            assert(earlier[i] == outcomes[i]);
        }
        lemma_places_are_of_photos(files, dest_folder, copy_solo, earlier);
        lemma_every_record_counted(files, dest_folder, copy_solo, earlier);
        assert(repair_can_end_with(files[last], dest_folder, copy_solo, outcomes[last]));
        if outcomes[last] == Ok::<bool, RepairError>(true) {
            let record = files[last];
            let events = choose|events: Seq<RepairEventView>|
                (#[trigger] run(
                    first_step(record.media_file, record.metadata_file, dest_folder, copy_solo),
                    events,
                )).action == (RepairActionView::Finish { outcome: outcomes[last] });
            lemma_location_restored(
                record.media_file,
                record.metadata_file,
                dest_folder,
                copy_solo,
                events,
            );
        }
    }
}

/// A failure does not stop a batch: the record is counted as failed, no
/// other count moves, and the batch asks to announce the next record of the
/// list, or hands out the counts if the record was the last.
pub proof fn lemma_failure_passes_on(batch: BatchView, error: RepairError)
    requires
        batch.settled < batch.files.len(),
        batch.announced,
    ensures
        settled_with(batch, Err(error)).settled == batch.settled + 1,
        settled_with(batch, Err(error)).tally == (Tally {
            failed: batch.tally.failed + 1,
            ..batch.tally
        }),
        batch.settled + 1 < batch.files.len() ==> (pending(
            settled_with(batch, Err(error)),
        ) matches BatchStepView::Announce { progress, .. } && progress.current == batch.settled
            + 2),
        batch.settled + 1 == batch.files.len() ==> pending(settled_with(batch, Err(error)))
            is Finished,
{
}

} // verus!
