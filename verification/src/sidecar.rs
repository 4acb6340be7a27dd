//! Which metadata file belongs to a media file.
//!
//! An export writes the metadata of `IMG.jpg` to `IMG.jpg.json` beside it, or
//! to `IMG.json`. The first name is preferred. No other spelling is tried.

use vstd::prelude::*;
use vstd::string::*;

use crate::paths::file_name;
use crate::paths::is_present;
use crate::paths::name_stem;
use crate::paths::path_file_name;
use crate::paths::path_with_file_name;
use crate::paths::stem_of;
use crate::paths::with_file_name;

verus! {

/// The two places where the metadata of a media file may lie.
pub struct SidecarCandidates {
    /// The file name of the media file with `.json` appended.
    pub full_name: String,
    /// The stem of the media file with `.json` appended.
    pub stem_name: String,
}

/// The first place to look: beside the media file, under its whole file name
/// with `.json` appended. `None` where the path has no file name.
pub open spec fn full_name_candidate(media_path: Seq<char>) -> Option<Seq<char>> {
    match path_file_name(media_path) {
        Some(name) => Some(path_with_file_name(media_path, name + ".json"@)),
        None => None,
    }
}

/// The second place to look: in the same directory, under the stem of the
/// media file's name with `.json` appended.
pub open spec fn stem_name_candidate(media_path: Seq<char>) -> Option<Seq<char>> {
    match path_file_name(media_path) {
        Some(name) => Some(
            path_with_file_name(
                path_with_file_name(media_path, name + ".json"@),
                name_stem(name) + ".json"@,
            ),
        ),
        None => None,
    }
}

/// The choice between the two places, given which of them exist.
pub open spec fn chosen_sidecar(
    full_name: Seq<char>,
    full_name_exists: bool,
    stem_name: Seq<char>,
    stem_name_exists: bool,
) -> Option<Seq<char>> {
    if full_name_exists {
        Some(full_name)
    } else if stem_name_exists {
        Some(stem_name)
    } else {
        None
    }
}

/// Whether a path is one of the two places where the metadata of a media file
/// may lie.
pub open spec fn is_candidate_of(sidecar: Seq<char>, media_path: Seq<char>) -> bool {
    full_name_candidate(media_path) == Some(sidecar) || stem_name_candidate(media_path) == Some(
        sidecar,
    )
}

/// Names the two places where the metadata of a media file may lie, or
/// nothing where the path has no file name.
pub fn sidecar_candidates(media_path: &str) -> (candidates: Option<SidecarCandidates>)
    ensures
        match candidates {
            Some(both) => {
                &&& full_name_candidate(media_path@) == Some(both.full_name@)
                &&& stem_name_candidate(media_path@) == Some(both.stem_name@)
            },
            None => {
                &&& path_file_name(media_path@) is None
                &&& full_name_candidate(media_path@) is None
                &&& stem_name_candidate(media_path@) is None
            },
        },
{
    match file_name(media_path) {
        Some(name) => {
            let stem: String = stem_of(name.as_str());
            let full_name: String = with_file_name(media_path, name.concat(".json").as_str());
            let stem_name: String = with_file_name(
                full_name.as_str(),
                stem.concat(".json").as_str(),
            );
            Some(SidecarCandidates { full_name, stem_name })
        },
        None => None,
    }
}

/// Chooses between the two places, given which of them exist: the one under
/// the whole file name wins over the one under the stem.
pub fn choose_sidecar(
    candidates: SidecarCandidates,
    full_name_exists: bool,
    stem_name_exists: bool,
) -> (sidecar: Option<String>)
    ensures
        sidecar.deep_view() == chosen_sidecar(
            candidates.full_name@,
            full_name_exists,
            candidates.stem_name@,
            stem_name_exists,
        ),
        full_name_exists ==> sidecar.deep_view() == Some(candidates.full_name@),
{
    if full_name_exists {
        Some(candidates.full_name)
    } else if stem_name_exists {
        Some(candidates.stem_name)
    } else {
        None
    }
}

/// Finds the metadata file of a media file on disk.
///
/// Looks under the whole file name first and under the stem second, and
/// answers with the first that exists. What exists is the file system's to
/// say: the result is one of the two candidates or nothing, and nothing where
/// the path has no file name.
pub fn find_metadata_json(media_path: &str) -> (sidecar: Option<String>)
    ensures
        match sidecar {
            Some(found) => is_candidate_of(found@, media_path@),
            None => true,
        },
        path_file_name(media_path@) is None ==> sidecar is None,
{
    match sidecar_candidates(media_path) {
        Some(candidates) => {
            let full_name_exists: bool = is_present(candidates.full_name.as_str());
            let stem_name_exists: bool = !full_name_exists && is_present(
                candidates.stem_name.as_str(),
            );
            choose_sidecar(candidates, full_name_exists, stem_name_exists)
        },
        None => None,
    }
}

} // verus!
