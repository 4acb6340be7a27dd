use sidecar_repair::classify::is_media_file;
use sidecar_repair::classify::is_photo_extension;
use sidecar_repair::classify::is_video_extension;
use sidecar_repair::classify::is_video_file;
use sidecar_repair::paths::extension_of;
use sidecar_repair::paths::stem_of;

const PHOTO: [&str; 8] = ["jpg", "jpeg", "png", "heic", "webp", "gif", "tiff", "bmp"];
const VIDEO: [&str; 6] = ["mp4", "mov", "m4v", "mkv", "avi", "wmv"];

#[test]
fn supported_extensions_are_media() {
    for ext in PHOTO {
        let path = format!("/photos/album/picture.{}", ext);
        assert!(is_media_file(&path), "{}", path);
        assert!(!is_video_file(&path), "{}", path);
    }
    for ext in VIDEO {
        let path = format!("/photos/album/clip.{}", ext);
        assert!(is_media_file(&path), "{}", path);
        assert!(is_video_file(&path), "{}", path);
    }
}

#[test]
fn letter_case_does_not_matter() {
    for ext in PHOTO.iter().chain(VIDEO.iter()) {
        let upper = format!("IMG_0001.{}", ext.to_uppercase());
        assert!(is_media_file(&upper), "{}", upper);
        let mut mixed = String::new();
        for (i, c) in ext.chars().enumerate() {
            if i % 2 == 0 {
                mixed.push(c.to_ascii_uppercase());
            } else {
                mixed.push(c);
            }
        }
        let path = format!("album/IMG_0001.{}", mixed);
        assert!(is_media_file(&path), "{}", path);
        assert_eq!(is_video_file(&path), VIDEO.contains(ext), "{}", path);
    }
}

#[test]
fn other_extensions_are_not_media() {
    for path in [
        "notes.txt",
        "picture.jpg.json",
        "picture.json",
        "picture.jpgx",
        "picture.jp",
        "picture.",
        "picture",
        "archive.tar.gz",
        "clip.mpeg",
        "clip.mp3",
    ] {
        assert!(!is_media_file(path), "{}", path);
        assert!(!is_video_file(path), "{}", path);
    }
}

#[test]
fn only_the_file_name_is_looked_at() {
    assert!(!is_media_file("/photos/album.jpg/readme"));
    assert!(!is_media_file("/photos/album.mp4/notes.txt"));
    assert!(is_media_file("/photos/album.txt/picture.png"));
    assert!(is_media_file("relative/dir/clip.MOV"));
    assert!(is_media_file("a.b.c.gif"));
}

#[test]
fn paths_without_extension_are_not_media() {
    assert!(!is_media_file(""));
    assert!(!is_media_file("/"));
    assert!(!is_media_file(".."));
    assert!(!is_media_file("album/.."));
    assert!(!is_media_file(".jpg"));
    assert!(!is_media_file("album/.mp4"));
    assert!(!is_video_file(".mp4"));
}

#[test]
fn lower_case_follows_unicode() {
    // The Kelvin sign is a capital letter whose lower case is the letter k.
    assert!(is_media_file("clip.M\u{212A}V"));
    assert!(is_video_file("clip.m\u{212A}v"));
    // A letter that merely looks like one of the extension's is another letter.
    assert!(!is_media_file("picture.\u{0458}pg"));
}

#[test]
fn extensions_are_told_apart() {
    for ext in PHOTO {
        assert!(is_photo_extension(ext));
        assert!(!is_video_extension(ext));
    }
    for ext in VIDEO {
        assert!(is_video_extension(ext));
        assert!(!is_photo_extension(ext));
    }
    assert!(!is_photo_extension("JPG"));
    assert!(!is_video_extension("MP4"));
    assert!(!is_photo_extension(""));
    assert!(!is_video_extension(""));
}

#[test]
fn a_name_splits_at_its_last_dot() {
    assert_eq!(extension_of("picture.jpg"), Some("jpg".to_string()));
    assert_eq!(stem_of("picture.jpg"), "picture");
    assert_eq!(extension_of("a.b.c"), Some("c".to_string()));
    assert_eq!(stem_of("a.b.c"), "a.b");
    assert_eq!(extension_of("picture."), Some(String::new()));
    assert_eq!(stem_of("picture."), "picture");
    assert_eq!(extension_of(".a.b"), Some("b".to_string()));
    assert_eq!(stem_of(".a.b"), ".a");
    assert_eq!(extension_of("gr\u{00fc}\u{00df}e.\u{00e4}\u{00f6}"), Some("\u{00e4}\u{00f6}".to_string()));
    assert_eq!(stem_of("gr\u{00fc}\u{00df}e.\u{00e4}\u{00f6}"), "gr\u{00fc}\u{00df}e");
}

#[test]
fn a_name_without_extension_is_its_own_stem() {
    for name in ["picture", ".bashrc", "..", ".", ""] {
        assert_eq!(extension_of(name), None, "{:?}", name);
        assert_eq!(stem_of(name), name, "{:?}", name);
    }
}

#[test]
fn splitting_agrees_with_the_standard_library() {
    for name in [
        "picture.jpg", "a.b.c", "picture.", ".a.b", "picture", ".bashrc", "...", "a..b", "..a",
        "x.", ".x.", "IMG 0001.JPEG", "clip.tar.gz",
    ] {
        let path = std::path::Path::new(name);
        let extension = path.extension().map(|e| e.to_str().unwrap().to_string());
        let stem = path.file_stem().map(|s| s.to_str().unwrap().to_string());
        assert_eq!(extension_of(name), extension, "{:?}", name);
        assert_eq!(Some(stem_of(name)), stem, "{:?}", name);
    }
}
