use audio_organizer::tags::RequiredTags;
use audio_organizer::target::{file_extension, generate_target_path, TargetPath};
use std::path::{Path, PathBuf};

fn tags(artist: &str, album: &str, title: &str) -> RequiredTags {
    RequiredTags { artist: artist.to_string(), album: album.to_string(), title: title.to_string() }
}

fn joined(target: &TargetPath) -> PathBuf {
    let mut path = PathBuf::new();
    path.push(&target.root);
    path.push(&target.artist);
    path.push(&target.album);
    path.push(&target.file_name);
    path
}

#[test]
fn target_of_a_tagged_track() {
    let target = generate_target_path("track.mp3", "/music", tags("AC/DC", "Who Made Who", "CON"));
    assert_eq!(target.root, "/music");
    assert_eq!(target.artist, "AC_DC");
    assert_eq!(target.album, "Who Made Who");
    assert_eq!(target.file_name, "_.mp3");
    assert_eq!(joined(&target), PathBuf::from("/music/AC_DC/Who Made Who/_.mp3"));
}

#[test]
fn reserved_title_keeps_its_extension() {
    let target = generate_target_path("song.mp3", "out", tags("a", "b", "NUL"));
    assert_eq!(target.file_name, "_.mp3");
    let stem = target.file_name.splitn(2, '.').next().unwrap().to_string();
    assert_eq!(stem, "_");
}

#[test]
fn source_without_extension_adds_none() {
    let target = generate_target_path("track", "/music", tags("a", "b", "Title"));
    assert_eq!(target.file_name, "Title");
    let hidden = generate_target_path(".hidden", "/music", tags("a", "b", "Title"));
    assert_eq!(hidden.file_name, "Title");
}

#[test]
fn extension_is_kept_as_it_is() {
    let target = generate_target_path("odd.m?3", "/music", tags("a", "b", "Title"));
    assert_eq!(target.file_name, "Title.m?3");
    let upper = generate_target_path("LOUD.MP3", "/music", tags("a", "b", "Title"));
    assert_eq!(upper.file_name, "Title.MP3");
    let reserved = generate_target_path("x.CON", "/music", tags("a", "b", "Title"));
    assert_eq!(reserved.file_name, "Title.CON");
}

#[test]
fn only_the_last_extension_is_taken() {
    let target = generate_target_path("archive.tar.gz", "/music", tags("a", "b", "Title"));
    assert_eq!(target.file_name, "Title.gz");
}

#[test]
fn empty_extension_leaves_a_dot() {
    let target = generate_target_path("track.", "/music", tags("a", "b", "Title"));
    assert_eq!(target.file_name, "Title.");
}

#[test]
fn title_with_dots_is_kept_before_the_extension() {
    let target = generate_target_path("a.flac", "/music", tags("a", "b", "Mr. Blue Sky"));
    assert_eq!(target.file_name, "Mr. Blue Sky.flac");
    let reserved = generate_target_path("a.flac", "/music", tags("a", "b", "AUX.in"));
    assert_eq!(reserved.file_name, "_.in.flac");
}

#[test]
fn root_is_taken_as_it_is() {
    let target = generate_target_path("t.mp3", "C:\\music?/", tags("a", "b", "c"));
    assert_eq!(target.root, "C:\\music?/");
    let empty = generate_target_path("t.mp3", "", tags("a", "b", "c"));
    assert_eq!(empty.root, "");
}

#[test]
fn every_part_is_sanitized_on_its_own() {
    let target = generate_target_path("t.ogg", "r", tags("COM1", "LPT9.x", "a|b\u{7}"));
    assert_eq!(target.artist, "_");
    assert_eq!(target.album, "_.x");
    assert_eq!(target.file_name, "a_b.ogg");
}

#[test]
fn empty_tags_give_empty_parts() {
    let target = generate_target_path("t.mp3", "/music", tags("", "\u{1}", ""));
    assert_eq!(target.artist, "");
    assert_eq!(target.album, "");
    assert_eq!(target.file_name, ".mp3");
}

#[test]
fn two_sources_may_share_a_target() {
    let first = generate_target_path("one.mp3", "/music", tags("AC/DC", "Live?", "T.N.T."));
    let second = generate_target_path("two.mp3", "/music", tags("AC\\DC", "Live*", "T.N.T."));
    assert_eq!(first, second);
    assert_eq!(joined(&first), joined(&second));
}

#[test]
fn extension_of_plain_names() {
    assert_eq!(file_extension("track.mp3"), Some("mp3".to_string()));
    assert_eq!(file_extension("a.b.c"), Some("c".to_string()));
    assert_eq!(file_extension("track."), Some(String::new()));
    assert_eq!(file_extension("track"), None);
    assert_eq!(file_extension(""), None);
}

#[test]
fn extension_of_names_that_begin_with_a_dot() {
    assert_eq!(file_extension(".hidden"), None);
    assert_eq!(file_extension("."), None);
    assert_eq!(file_extension(".."), None);
    assert_eq!(file_extension("..."), Some(String::new()));
    assert_eq!(file_extension(".hidden.txt"), Some("txt".to_string()));
    assert_eq!(file_extension("..a"), Some("a".to_string()));
}

#[test]
fn extension_agrees_with_the_path_of_the_name() {
    let names = [
        "track.mp3", "a.b.c", "track.", "track", ".hidden", ".hidden.txt", "...", "..a", "a..",
        "x.y z", "ünï.cödé", "no dots here", ".a.", "a.", "a.b.", "..a.b",
    ];
    for name in names {
        let expected = Path::new(name).extension().map(|e| e.to_str().unwrap().to_string());
        assert_eq!(file_extension(name), expected);
    }
}
