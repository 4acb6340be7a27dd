//! Which files are media, and which of those are videos.
//!
//! A file is classified by the extension of its name alone, without regard to
//! letter case. Nothing is read from disk.

use vstd::prelude::*;
use vstd::string::*;
use vstd::utf8::is_ascii_chars;

use crate::paths::extension_of;
use crate::paths::file_name;
use crate::paths::name_extension;
use crate::paths::path_file_name;
use crate::text::ascii_lower;
use crate::text::ascii_lowercase;
use crate::text::lowercase;
use crate::text::lowercase_of;
use crate::text::same_text;

verus! {

/// The lower-case extensions of still images.
pub open spec fn photo_extension(extension: Seq<char>) -> bool {
    ||| extension == "jpg"@
    ||| extension == "jpeg"@
    ||| extension == "png"@
    ||| extension == "heic"@
    ||| extension == "webp"@
    ||| extension == "gif"@
    ||| extension == "tiff"@
    ||| extension == "bmp"@
}

/// The lower-case extensions of videos.
pub open spec fn video_extension(extension: Seq<char>) -> bool {
    ||| extension == "mp4"@
    ||| extension == "mov"@
    ||| extension == "m4v"@
    ||| extension == "mkv"@
    ||| extension == "avi"@
    ||| extension == "wmv"@
}

/// The lower-case extensions of all supported media.
pub open spec fn media_extension(extension: Seq<char>) -> bool {
    photo_extension(extension) || video_extension(extension)
}

/// The text by which a path is classified: the extension of its file name in
/// lower case, empty where the path has no file name or the name no extension.
pub open spec fn classifying_extension(path: Seq<char>) -> Seq<char> {
    lowercase_of(
        match path_file_name(path) {
            Some(name) => match name_extension(name) {
                Some(extension) => extension,
                None => Seq::empty(),
            },
            None => Seq::empty(),
        },
    )
}

/// Whether a path names a supported media file.
pub open spec fn media_path(path: Seq<char>) -> bool {
    media_extension(classifying_extension(path))
}

/// Whether a path names a video.
pub open spec fn video_path(path: Seq<char>) -> bool {
    video_extension(classifying_extension(path))
}

/// Whether a lower-case extension is that of a still image.
pub fn is_photo_extension(extension: &str) -> (supported: bool)
    ensures
        supported == photo_extension(extension@),
{
    same_text(extension, "jpg") || same_text(extension, "jpeg") || same_text(extension, "png")
        || same_text(extension, "heic") || same_text(extension, "webp") || same_text(
        extension,
        "gif",
    ) || same_text(extension, "tiff") || same_text(extension, "bmp")
}

/// Whether a lower-case extension is that of a video.
pub fn is_video_extension(extension: &str) -> (supported: bool)
    ensures
        supported == video_extension(extension@),
{
    same_text(extension, "mp4") || same_text(extension, "mov") || same_text(extension, "m4v")
        || same_text(extension, "mkv") || same_text(extension, "avi") || same_text(
        extension,
        "wmv",
    )
}

/// The extension by which a path is classified.
fn lowered_extension(path: &str) -> (extension: String)
    ensures
        extension@ == classifying_extension(path@),
{
    let raw: String = match file_name(path) {
        Some(name) => match extension_of(name.as_str()) {
            Some(extension) => extension,
            None => String::new(),
        },
        None => String::new(),
    };
    lowercase(raw.as_str())
}

/// Whether a path names a supported media file: a still image or a video.
pub fn is_media_file(path: &str) -> (media: bool)
    ensures
        media == media_path(path@),
{
    let extension: String = lowered_extension(path);
    is_photo_extension(extension.as_str()) || is_video_extension(extension.as_str())
}

/// Whether a path names a video.
pub fn is_video_file(path: &str) -> (video: bool)
    ensures
        video == video_path(path@),
        video ==> media_path(path@),
{
    let extension: String = lowered_extension(path);
    is_video_extension(extension.as_str())
}

/// A text whose ASCII lower-case form is a supported extension is ASCII.
proof fn lemma_supported_is_ascii(extension: Seq<char>)
    requires
        media_extension(ascii_lowercase(extension)),
    ensures
        is_ascii_chars(extension),
{
    reveal_strlit("jpg");
    reveal_strlit("jpeg");
    reveal_strlit("png");
    reveal_strlit("heic");
    reveal_strlit("webp");
    reveal_strlit("gif");
    reveal_strlit("tiff");
    reveal_strlit("bmp");
    reveal_strlit("mp4");
    reveal_strlit("mov");
    reveal_strlit("m4v");
    reveal_strlit("mkv");
    reveal_strlit("avi");
    reveal_strlit("wmv");
    let lowered = ascii_lowercase(extension);
    assert(lowered.len() <= 4);
    assert forall|i: int| 0 <= i < extension.len() implies '\0' <= #[trigger] extension[i]
        <= '\u{7f}' by {
        assert(lowered[i] == ascii_lower(extension[i]));
        assert(lowered[i] <= '\u{7f}');
    }
}

/// Letter case does not matter: a supported extension is recognised however
/// its letters are cased, and among ASCII extensions no other is.
pub proof fn lemma_extension_case_insensitive(extension: Seq<char>)
    ensures
        media_extension(ascii_lowercase(extension)) ==> media_extension(lowercase_of(extension)),
        video_extension(ascii_lowercase(extension)) ==> video_extension(lowercase_of(extension)),
        is_ascii_chars(extension) ==> (media_extension(lowercase_of(extension))
            <==> media_extension(ascii_lowercase(extension))),
        is_ascii_chars(extension) ==> (video_extension(lowercase_of(extension))
            <==> video_extension(ascii_lowercase(extension))),
{
    if media_extension(ascii_lowercase(extension)) {
        lemma_supported_is_ascii(extension);
    }
}

/// The empty text is no supported extension.
proof fn lemma_empty_is_unsupported()
    ensures
        !media_extension(lowercase_of(Seq::empty())),
{
    reveal_strlit("jpg");
    reveal_strlit("jpeg");
    reveal_strlit("png");
    reveal_strlit("heic");
    reveal_strlit("webp");
    reveal_strlit("gif");
    reveal_strlit("tiff");
    reveal_strlit("bmp");
    reveal_strlit("mp4");
    reveal_strlit("mov");
    reveal_strlit("m4v");
    reveal_strlit("mkv");
    reveal_strlit("avi");
    reveal_strlit("wmv");
    assert(ascii_lowercase(Seq::<char>::empty()) =~= Seq::<char>::empty());
}

/// A path is classified by the extension of its file name, in any letter
/// case. Where the extension is a supported one with its letters in upper or
/// lower case, the path is a media file, and a video if the extension is a
/// video's. Where it is any other ASCII text, the path is no media file. A
/// path without file name, or whose file name has no extension, is none
/// either.
pub proof fn lemma_media_by_extension(path: Seq<char>)
    ensures
        match path_file_name(path) {
            Some(name) => match name_extension(name) {
                Some(extension) => {
                    &&& media_extension(ascii_lowercase(extension)) ==> media_path(path)
                    &&& video_extension(ascii_lowercase(extension)) ==> video_path(path)
                    &&& is_ascii_chars(extension) && !media_extension(ascii_lowercase(extension))
                        ==> !media_path(path)
                    &&& is_ascii_chars(extension) && !video_extension(ascii_lowercase(extension))
                        ==> !video_path(path)
                },
                None => !media_path(path) && !video_path(path),
            },
            None => !media_path(path) && !video_path(path),
        },
{
    lemma_empty_is_unsupported();
    match path_file_name(path) {
        Some(name) => match name_extension(name) {
            Some(extension) => {
                lemma_extension_case_insensitive(extension);
            },
            None => {},
        },
        None => {},
    }
}

} // verus!
