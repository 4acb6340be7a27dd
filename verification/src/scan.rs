//! Scanning a directory tree for media files and their metadata files.

use vstd::prelude::*;
use vstd::string::*;
use walkdir::WalkDir;

use crate::classify::is_media_file;
use crate::classify::media_path;
use crate::sidecar::find_metadata_json;
use crate::sidecar::is_candidate_of;

verus! {

/// A media file found by a scan, with its metadata file where it has one.
#[derive(Clone, Debug)]
pub struct ScanResult {
    pub media_file: String,
    pub metadata_file: Option<String>,
    /// `Ready` with a metadata file, `Missing JSON` without.
    pub status: String,
}

/// A scan result as mathematical text.
pub struct ScanRecord {
    pub media_file: Seq<char>,
    pub metadata_file: Option<Seq<char>>,
    pub status: Seq<char>,
}

impl View for ScanResult {
    type V = ScanRecord;

    open spec fn view(&self) -> ScanRecord {
        ScanRecord {
            media_file: self.media_file@,
            metadata_file: self.metadata_file.deep_view(),
            status: self.status@,
        }
    }
}

impl DeepView for ScanResult {
    type V = ScanRecord;

    open spec fn deep_view(&self) -> ScanRecord {
        self@
    }
}

/// The status of a media file that has a metadata file.
pub open spec fn ready_status() -> Seq<char> {
    "Ready"@
}

/// The status of a media file that has none.
pub open spec fn missing_status() -> Seq<char> {
    "Missing JSON"@
}

/// The record of a media file and the metadata file found for it, if any.
pub open spec fn scan_record(media_file: Seq<char>, metadata_file: Option<Seq<char>>) -> ScanRecord {
    ScanRecord {
        media_file,
        metadata_file,
        status: if metadata_file is Some {
            ready_status()
        } else {
            missing_status()
        },
    }
}

impl ScanRecord {
    /// What holds of every record that a scan makes: the file is a media
    /// file, the metadata file is one of its two candidates, and the status
    /// says whether there is one.
    pub open spec fn scanned(self) -> bool {
        &&& media_path(self.media_file)
        &&& self == scan_record(self.media_file, self.metadata_file)
        &&& match self.metadata_file {
            Some(sidecar) => is_candidate_of(sidecar, self.media_file),
            None => true,
        }
    }
}

impl ScanResult {
    /// The record of a media file and the metadata file found for it, if any.
    pub fn new(media_file: String, metadata_file: Option<String>) -> (record: ScanResult)
        ensures
            record@ == scan_record(media_file@, metadata_file.deep_view()),
    {
        let status: &str = if metadata_file.is_some() {
            "Ready"
        } else {
            "Missing JSON"
        };
        ScanResult { media_file, metadata_file, status: status.to_owned() }
    }
}

/// What a walk through a directory tree comes upon.
#[derive(Clone, Debug)]
pub enum WalkEntry {
    /// An entry that could not be read.
    Unreadable,
    /// An entry with its path; `is_file` says whether it is a regular file,
    /// as opposed to a directory or a symbolic link.
    Found { path: String, is_file: bool },
}

/// An entry of a walk as mathematical text.
pub enum WalkEntryView {
    Unreadable,
    Found { path: Seq<char>, is_file: bool },
}

impl View for WalkEntry {
    type V = WalkEntryView;

    open spec fn view(&self) -> WalkEntryView {
        match *self {
            WalkEntry::Unreadable => WalkEntryView::Unreadable,
            WalkEntry::Found { path, is_file } => WalkEntryView::Found { path: path@, is_file },
        }
    }
}

impl DeepView for WalkEntry {
    type V = WalkEntryView;

    open spec fn deep_view(&self) -> WalkEntryView {
        self@
    }
}

/// The path of an entry that is a regular file and a media file.
pub open spec fn regular_media(entry: WalkEntryView) -> Option<Seq<char>> {
    match entry {
        WalkEntryView::Found { path, is_file } if is_file && media_path(path) => Some(path),
        _ => None,
    }
}

/// The media files among the entries of a walk, in the order of the walk.
pub open spec fn listed_media(entries: Seq<WalkEntryView>) -> Seq<Seq<char>> {
    entries.filter_map(|entry: WalkEntryView| regular_media(entry))
}

/// The media files that a list of records speaks of, in its order.
pub open spec fn media_files_of(records: Seq<ScanRecord>) -> Seq<Seq<char>> {
    records.map_values(|record: ScanRecord| record.media_file)
}

/// Walks a directory tree with walkdir's `WalkDir::new`, which follows no
/// symbolic link but the root itself, and lists what it comes upon in the
/// order of the walk.
///
/// What is found depends on what is on disk, so nothing is stated of it. A
/// path that is not Unicode text is listed with replacement characters.
#[verifier::external_body]
pub(crate) fn walk(root: &str) -> (entries: Vec<WalkEntry>) {
    let mut entries = Vec::new();
    for entry in WalkDir::new(root) {
        entries.push(
            match entry {
                Ok(found) => WalkEntry::Found {
                    path: found.path().to_string_lossy().into_owned(),
                    is_file: found.file_type().is_file(),
                },
                Err(_) => WalkEntry::Unreadable,
            },
        );
    }
    entries
}

/// Makes the scan records of what a walk came upon: one for each regular
/// file that is a media file, in the order of the walk, each with the
/// metadata file that is found for it on disk at that moment.
pub fn scan_entries(entries: &Vec<WalkEntry>) -> (records: Vec<ScanResult>)
    ensures
        media_files_of(records.deep_view()) == listed_media(entries.deep_view()),
        forall|i: int| 0 <= i < records.len() ==> (#[trigger] records[i])@.scanned(),
{
    let mut records: Vec<ScanResult> = Vec::new();
    let mut i: usize = 0;
    assert(entries.deep_view().take(0) =~= Seq::empty());
    assert(media_files_of(records.deep_view()) =~= Seq::empty());
    while i < entries.len()
        invariant
            i <= entries.len(),
            media_files_of(records.deep_view()) == listed_media(entries.deep_view().take(i as int)),
            forall|j: int| 0 <= j < records.len() ==> (#[trigger] records[j])@.scanned(),
        decreases entries.len() - i,
    {
        let ghost before = records.deep_view();
        proof {
            entries.deep_view().lemma_filter_map_take_succ(
                |entry: WalkEntryView| regular_media(entry),
                i as int,
            );
            assert(entries.deep_view()[i as int] == entries[i as int]@);
        }
        match &entries[i] {
            WalkEntry::Found { path, is_file } => {
                if *is_file && is_media_file(path.as_str()) {
                    let sidecar: Option<String> = find_metadata_json(path.as_str());
                    let record: ScanResult = ScanResult::new(path.clone(), sidecar);
                    records.push(record);
                    assert(media_files_of(records.deep_view()) =~= media_files_of(before) + seq![
                        path@,
                    ]);
                }
            },
            WalkEntry::Unreadable => {},
        }
        i += 1;
    }
    assert(entries.deep_view().take(i as int) =~= entries.deep_view());
    records
}

/// Scans a directory tree for media files.
///
/// Every regular file under the folder that is a media file gets a record,
/// in the order of the walk; symbolic links below the folder are not
/// followed. What the walk finds is the file system's to say: of the result
/// it holds that every record is of a media file and bears the status of its
/// metadata file.
pub fn analyze(folder_path: &str) -> (records: Vec<ScanResult>)
    ensures
        forall|i: int| 0 <= i < records.len() ==> (#[trigger] records[i])@.scanned(),
{
    let entries: Vec<WalkEntry> = walk(folder_path);
    scan_entries(&entries)
}

} // verus!
