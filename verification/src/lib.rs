//! Repairs capture time and location of exported photos and videos from the
//! metadata files that an export writes beside them.
//!
//! The crate holds the decisions: which files are media, which metadata file
//! belongs to which media file, what has to be written where, and how a batch
//! is counted. Reading and writing files and running the video tool are left
//! to the caller, who carries out the actions that the crate hands out and
//! reports back what happened.
//!
//! - `classify` tells media files from other files, and videos from still
//!   images.
//! - `sidecar` names the metadata file of a media file.
//! - `scan` lists the media files of a directory tree.
//! - `metadata` holds what a metadata file says.
//! - `timestamp` and `calendar` read a capture time and lay it out as text.
//! - `repair` works out what a still image and a video need.
//! - `job` leads one repair through its actions.
//! - `batch` leads a list of repairs and counts their outcomes.
//! - `paths` and `text` hold what the others share.

pub mod batch;
pub mod calendar;
pub mod classify;
pub mod job;
pub mod metadata;
pub mod paths;
pub mod repair;
pub mod scan;
pub mod sidecar;
pub mod text;
pub mod timestamp;
