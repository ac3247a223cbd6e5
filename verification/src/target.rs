//! Where a file goes: under the root, in the directory of its artist and of
//! its album, under its title, with the extension that its source had.

use vstd::prelude::*;
use vstd::string::StringExecFns;

use crate::sanitize::{
    first_dot_from, is_path_segment, is_reserved, lemma_first_dot, lemma_first_dot_unique,
    lemma_sanitized_is_path_segment, normalize_path_entry, sanitized, stem,
};
use crate::tags::{RequiredTags, RequiredTagsView};
use crate::text::{chars_of, push_chars_from};

verus! {

/// The destination of one file: the root directory, the two directories
/// below it, and the name of the file in them.
#[derive(Clone, Debug, PartialEq, Eq)]
pub struct TargetPath {
    pub root: String,
    pub artist: String,
    pub album: String,
    pub file_name: String,
}

/// A `TargetPath` as plain values.
pub struct TargetPathView {
    pub root: Seq<char>,
    pub artist: Seq<char>,
    pub album: Seq<char>,
    pub file_name: Seq<char>,
}

impl View for TargetPath {
    type V = TargetPathView;

    open spec fn view(&self) -> TargetPathView {
        TargetPathView {
            root: self.root@,
            artist: self.artist@,
            album: self.album@,
            file_name: self.file_name@,
        }
    }
}

/// The position of the last dot before `end`, or -1 when there is none.
pub open spec fn last_dot_before(name: Seq<char>, end: int) -> int
    decreases end,
{
    if end <= 0 || end > name.len() {
        -1
    } else if name[end - 1] == '.' {
        end - 1
    } else {
        last_dot_before(name, end - 1)
    }
}

/// The extension of a file name: what follows its last dot. A name without
/// a dot has none, nor has one whose only dot is its first character, nor
/// has the name `..`.
pub open spec fn extension_of(file_name: Seq<char>) -> Option<Seq<char>> {
    let dot = last_dot_before(file_name, file_name.len() as int);
    if dot <= 0 || file_name == seq!['.', '.'] {
        None
    } else {
        Some(file_name.skip(dot + 1))
    }
}

/// The name of the file at its destination: the sanitized title, and after
/// it a dot and the extension, as it is, where there is one.
pub open spec fn target_file_name(title: Seq<char>, extension: Option<Seq<char>>) -> Seq<char> {
    match extension {
        Some(ext) => sanitized(title) + seq!['.'] + ext,
        None => sanitized(title),
    }
}

/// The destination of a file with the given name and tags under `root`.
pub open spec fn target_of(
    source_file_name: Seq<char>,
    root: Seq<char>,
    tags: RequiredTagsView,
) -> TargetPathView {
    TargetPathView {
        root,
        artist: sanitized(tags.artist),
        album: sanitized(tags.album),
        file_name: target_file_name(tags.title, extension_of(source_file_name)),
    }
}

/// Where the last dot is: a dot there and none after it.
pub proof fn lemma_last_dot(name: Seq<char>, end: int)
    requires
        0 <= end <= name.len(),
    ensures
        -1 <= last_dot_before(name, end) < end,
        last_dot_before(name, end) >= 0 ==> name[last_dot_before(name, end)] == '.',
        forall|i: int| last_dot_before(name, end) < i < end ==> name[i] != '.',
    decreases end,
{
    if end > 0 && name[end - 1] != '.' {
        lemma_last_dot(name, end - 1);
    }
}

/// What an extension is: the name is a part that is not empty, a dot, and
/// the extension, which holds no dot itself. A name has no extension
/// exactly when it is `..` or has no dot after its first character.
pub proof fn lemma_extension_splits_name(file_name: Seq<char>)
    ensures
        extension_of(file_name) matches Some(ext) ==> {
            &&& ext.len() < file_name.len() - 1
            &&& file_name == file_name.take(file_name.len() - ext.len() - 1) + seq!['.'] + ext
            &&& forall|i: int| 0 <= i < ext.len() ==> ext[i] != '.'
        },
        extension_of(file_name) is None <==> file_name == seq!['.', '.'] || forall|i: int|
            1 <= i < file_name.len() ==> file_name[i] != '.',
{
    lemma_last_dot(file_name, file_name.len() as int);
    let dot = last_dot_before(file_name, file_name.len() as int);
    if let Some(ext) = extension_of(file_name) {
        assert(file_name =~= file_name.take(dot) + seq!['.'] + ext);
        assert(file_name[dot] == '.');
    }
}

/// The name of the file at its destination has the stem of the sanitized
/// title, whatever the extension: its stem is never a reserved name.
pub proof fn lemma_target_file_name_stem(title: Seq<char>, extension: Option<Seq<char>>)
    ensures
        stem(target_file_name(title, extension)) == stem(sanitized(title)),
        !is_reserved(stem(target_file_name(title, extension))),
{
    lemma_sanitized_is_path_segment(title);
    let safe = sanitized(title);
    lemma_first_dot(safe, 0);
    let dot = first_dot_from(safe, 0);
    if let Some(ext) = extension {
        let full = safe + seq!['.'] + ext;
        assert forall|i: int| 0 <= i < dot implies full[i] != '.' by {
            assert(full[i] == safe[i]);
        }
        if dot < safe.len() {
            assert(full[dot] == safe[dot]);
        }
        lemma_first_dot_unique(full, dot);
        assert(full.take(dot) =~= safe.take(dot));
    }
}

/// The extension of a file name, as `extension_of` gives it.
pub fn file_extension(file_name: &str) -> (extension: Option<String>)
    ensures
        match extension {
            Some(ext) => extension_of(file_name@) == Some(ext@),
            None => extension_of(file_name@) is None,
        },
{
    let chars = chars_of(file_name);
    let mut end: usize = chars.len();
    while end > 0 && chars[end - 1] != '.'
        invariant
            end <= chars.len(),
            last_dot_before(chars@, chars@.len() as int) == last_dot_before(chars@, end as int),
        decreases end,
    {
        end = end - 1;
    }
    // `end` is now one past the last dot, or 0 where there is no dot.
    if end <= 1 {
        return None;
    }
    if chars.len() == 2 && chars[0] == '.' {
        assert(chars@ =~= seq!['.', '.']);
        return None;
    }
    assert(chars@ != seq!['.', '.']) by {
        if chars@ == seq!['.', '.'] {
            assert(chars@.len() == 2 && chars@[0] == '.');
        }
    }
    let mut extension = String::new();
    push_chars_from(&mut extension, &chars, end);
    assert(extension@ =~= chars@.skip(end as int));
    Some(extension)
}

/// Builds the destination of a file from the name of its source, the root
/// directory and its tags.
///
/// Artist, album and title are sanitized; the extension of the source is
/// kept as it is. Nothing checks whether another file has the same
/// destination.
pub fn generate_target_path(source_file_name: &str, root_folder: &str, tags: RequiredTags) -> (target:
    TargetPath)
    ensures
        target@ == target_of(source_file_name@, root_folder@, tags@),
        is_path_segment(target.artist@),
        is_path_segment(target.album@),
        !is_reserved(stem(target.file_name@)),
{
    proof {
        lemma_sanitized_is_path_segment(tags.artist@);
        lemma_sanitized_is_path_segment(tags.album@);
        lemma_target_file_name_stem(tags.title@, extension_of(source_file_name@));
    }
    let artist = normalize_path_entry(tags.artist.as_str());
    let album = normalize_path_entry(tags.album.as_str());
    let mut full_target_filename = normalize_path_entry(tags.title.as_str());
    match file_extension(source_file_name) {
        Some(ext) => {
            full_target_filename.append(".");
            full_target_filename.append(ext.as_str());
            proof {
                reveal_strlit(".");
                assert("."@ =~= seq!['.']);
            }
        },
        None => {},
    }
    TargetPath { root: String::from_str(root_folder), artist, album, file_name: full_target_filename }
}

} // verus!
