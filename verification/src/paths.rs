//! Paths as text.
//!
//! A path is held as a `String`. How a path splits into directories and a
//! final component is the platform's business and is asked of `std::path`;
//! how a file name splits into stem and extension is decided here.

use std::path::Path;
use std::path::PathBuf;
use vstd::prelude::*;
use vstd::string::*;

use crate::text::same_text;

verus! {

/// The final component of a path, as `Path::file_name` gives it on the
/// platform the crate is built for: `None` where the path has none, as for a
/// path that ends in `..`.
pub uninterp spec fn path_file_name(path: Seq<char>) -> Option<Seq<char>>;

/// The path that `PathBuf::set_file_name` leaves when it is given `name` on
/// `path`.
pub uninterp spec fn path_with_file_name(path: Seq<char>, name: Seq<char>) -> Seq<char>;

/// The path that `Path::join` makes of a directory and a further part.
pub uninterp spec fn path_join(base: Seq<char>, part: Seq<char>) -> Seq<char>;

/// Takes the final component of a path with `Path::file_name`.
///
/// Not proved: that the result depends on the text of the path alone.
#[verifier::external_body]
pub(crate) fn file_name(path: &str) -> (name: Option<String>)
    ensures
        name.deep_view() == path_file_name(path@),
{
    match Path::new(path).file_name() {
        Some(name) => Some(name.to_string_lossy().into_owned()),
        None => None,
    }
}

/// Replaces the final component of a path with `PathBuf::set_file_name`.
///
/// Not proved: that the result depends on the two texts alone.
#[verifier::external_body]
pub(crate) fn with_file_name(path: &str, name: &str) -> (changed: String)
    ensures
        changed@ == path_with_file_name(path@, name@),
{
    let mut changed = PathBuf::from(path);
    changed.set_file_name(name);
    changed.to_string_lossy().into_owned()
}

/// Appends a part to a directory with `Path::join`.
///
/// Not proved: that the result depends on the two texts alone.
#[verifier::external_body]
pub(crate) fn join(base: &str, part: &str) -> (joined: String)
    ensures
        joined@ == path_join(base@, part@),
{
    Path::new(base).join(part).to_string_lossy().into_owned()
}

/// Asks the file system with `Path::exists` whether a path leads anywhere.
///
/// The answer depends on what is on disk at the moment of the call, so
/// nothing is stated of it.
#[verifier::external_body]
pub(crate) fn is_present(path: &str) -> (found: bool) {
    Path::new(path).exists()
}

/// The position of the last `.` in a file name, if it holds one.
pub open spec fn last_dot(name: Seq<char>) -> Option<int>
    decreases name.len(),
{
    if name.len() == 0 {
        None
    } else if name.last() == '.' {
        Some(name.len() - 1)
    } else {
        last_dot(name.drop_last())
    }
}

/// The extension of a file name: what follows its last `.`, unless the name
/// has no `.`, or only the one it begins with, or is `..`.
pub open spec fn name_extension(name: Seq<char>) -> Option<Seq<char>> {
    match last_dot(name) {
        Some(dot) if dot > 0 && name != seq!['.', '.'] => Some(name.skip(dot + 1)),
        _ => None,
    }
}

/// The stem of a file name: what precedes its last `.`, or the whole name
/// where it has no extension.
pub open spec fn name_stem(name: Seq<char>) -> Seq<char> {
    match last_dot(name) {
        Some(dot) if dot > 0 && name != seq!['.', '.'] => name.take(dot),
        _ => name,
    }
}

/// `last_dot` finds a `.` that no other `.` follows.
pub proof fn lemma_last_dot_found(name: Seq<char>, dot: int)
    requires
        0 <= dot < name.len(),
        name[dot] == '.',
        forall|j: int| dot < j < name.len() ==> name[j] != '.',
    ensures
        last_dot(name) == Some(dot),
    decreases name.len(),
{
    if name.last() != '.' {
        lemma_last_dot_found(name.drop_last(), dot);
    }
}

/// `last_dot` finds nothing in a name without a `.`.
pub proof fn lemma_last_dot_missing(name: Seq<char>)
    requires
        forall|j: int| 0 <= j < name.len() ==> name[j] != '.',
    ensures
        last_dot(name) is None,
    decreases name.len(),
{
    if name.len() > 0 {
        lemma_last_dot_missing(name.drop_last());
    }
}

/// What `last_dot` finds is a `.` of the name that no other `.` follows.
pub proof fn lemma_last_dot_is_last(name: Seq<char>)
    ensures
        match last_dot(name) {
            Some(dot) => {
                &&& 0 <= dot < name.len()
                &&& name[dot] == '.'
                &&& forall|j: int| dot < j < name.len() ==> name[j] != '.'
            },
            None => forall|j: int| 0 <= j < name.len() ==> name[j] != '.',
        },
    decreases name.len(),
{
    if name.len() > 0 && name.last() != '.' {
        let shorter = name.drop_last();
        lemma_last_dot_is_last(shorter);
        assert(forall|j: int| 0 <= j < shorter.len() ==> shorter[j] == name[j]);
        match last_dot(shorter) {
            Some(dot) => {
                assert forall|j: int| dot < j < name.len() implies name[j] != '.' by {
                    if j < shorter.len() {
                        assert(shorter[j] != '.');
                    }
                }
            },
            None => {
                assert forall|j: int| 0 <= j < name.len() implies name[j] != '.' by {
                    if j < shorter.len() {
                        assert(shorter[j] != '.');
                    }
                }
            },
        }
    }
}

/// A file name with an extension is made of its stem, a `.` and its
/// extension, of which the stem is not empty and the extension holds no `.`.
/// A file name without extension is its own stem.
pub proof fn lemma_name_splits(name: Seq<char>)
    ensures
        match name_extension(name) {
            Some(extension) => {
                &&& name == name_stem(name) + seq!['.'] + extension
                &&& name_stem(name).len() > 0
                &&& forall|j: int| 0 <= j < extension.len() ==> extension[j] != '.'
            },
            None => name_stem(name) == name,
        },
{
    lemma_last_dot_is_last(name);
    match name_extension(name) {
        Some(extension) => {
            assert(name =~= name_stem(name) + seq!['.'] + extension);
        },
        None => {},
    }
}

/// Finds the last `.` of a file name.
fn find_last_dot(name: &str) -> (dot: Option<usize>)
    ensures
        match dot {
            Some(at) => last_dot(name@) == Some(at as int) && at < name@.len(),
            None => last_dot(name@) is None,
        },
{
    let n: usize = name.unicode_len();
    let mut i: usize = n;
    while i > 0
        invariant
            i <= n,
            n == name@.len(),
            forall|j: int| i <= j < n ==> name@[j] != '.',
        decreases i,
    {
        if name.get_char(i - 1) == '.' {
            proof {
                lemma_last_dot_found(name@, i - 1);
            }
            return Some(i - 1);
        }
        i -= 1;
    }
    proof {
        lemma_last_dot_missing(name@);
    }
    None
}

/// Whether a file name splits into stem and extension, and where.
fn split_point(name: &str) -> (dot: Option<usize>)
    ensures
        match dot {
            Some(at) => {
                &&& 0 < at < name@.len()
                &&& name_extension(name@) == Some(name@.skip(at + 1))
                &&& name_stem(name@) == name@.take(at as int)
            },
            None => name_extension(name@) is None && name_stem(name@) == name@,
        },
{
    proof {
        reveal_strlit("..");
        assert(".."@ =~= seq!['.', '.']);
    }
    match find_last_dot(name) {
        Some(at) => {
            if at == 0 || same_text(name, "..") {
                None
            } else {
                Some(at)
            }
        },
        None => None,
    }
}

/// The extension of a file name, without its `.`.
pub fn extension_of(name: &str) -> (extension: Option<String>)
    ensures
        extension.deep_view() == name_extension(name@),
{
    match split_point(name) {
        Some(at) => {
            let n: usize = name.unicode_len();
            let tail: &str = name.substring_char(at + 1, n);
            assert(tail@ =~= name@.skip(at + 1));
            Some(tail.to_owned())
        },
        None => None,
    }
}

/// The stem of a file name.
pub fn stem_of(name: &str) -> (stem: String)
    ensures
        stem@ == name_stem(name@),
{
    match split_point(name) {
        Some(at) => {
            let head: &str = name.substring_char(0, at);
            assert(head@ =~= name@.take(at as int));
            head.to_owned()
        },
        None => name.to_owned(),
    }
}

} // verus!
