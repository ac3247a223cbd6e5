//! The three tags that every file must carry, and the gathering of all that
//! are absent into one list of errors.

use id3::{Tag, TagLike};
use vstd::prelude::*;
use vstd::string::StringExecFns;

use crate::errors::{error_views, missing_field_error, Field, FileError, FileErrorView};
use crate::text::texts;

verus! {

/// The tags of a file on which all three required ones were found.
#[derive(Clone, Debug, PartialEq, Eq)]
pub struct RequiredTags {
    pub artist: String,
    pub album: String,
    pub title: String,
}

/// `RequiredTags` as plain values.
pub struct RequiredTagsView {
    pub artist: Seq<char>,
    pub album: Seq<char>,
    pub title: Seq<char>,
}

impl View for RequiredTags {
    type V = RequiredTagsView;

    open spec fn view(&self) -> RequiredTagsView {
        RequiredTagsView { artist: self.artist@, album: self.album@, title: self.title@ }
    }
}

/// One looked-up tag as plain values: its text, or the error for its absence.
pub type Lookup = Result<Seq<char>, FileErrorView>;

/// The plain values of one looked-up tag.
pub open spec fn lookup_view(lookup: Result<&str, FileError>) -> Lookup {
    match lookup {
        Ok(text) => Ok(text@),
        Err(error) => Err(error@),
    }
}

/// The plain values of a list of looked-up tags.
pub open spec fn lookup_views(lookups: Seq<Result<&str, FileError>>) -> Seq<Lookup> {
    lookups.map_values(|l: Result<&str, FileError>| lookup_view(l))
}

/// Whether every tag was found.
pub open spec fn all_found(lookups: Seq<Lookup>) -> bool {
    forall|i: int| 0 <= i < lookups.len() ==> (#[trigger] lookups[i]) is Ok
}

/// The texts of the tags, in their order, where every tag was found.
pub open spec fn found_texts(lookups: Seq<Lookup>) -> Seq<Seq<char>> {
    lookups.map_values(|l: Lookup| l->Ok_0)
}

/// The errors of the tags that were not found, in the order of the tags.
pub open spec fn absent_errors(lookups: Seq<Lookup>) -> Seq<FileErrorView> {
    lookups.filter(|l: Lookup| l is Err).map_values(|l: Lookup| l->Err_0)
}

/// What gathering gives: every text where all tags were found, and else
/// every error, none left out and none added.
pub open spec fn gathered(lookups: Seq<Lookup>) -> Result<Seq<Seq<char>>, Seq<FileErrorView>> {
    if all_found(lookups) {
        Ok(found_texts(lookups))
    } else {
        Err(absent_errors(lookups))
    }
}

/// The plain values of what `handle_tags` returns.
pub open spec fn gathered_view(result: Result<Vec<String>, Vec<FileError>>) -> Result<
    Seq<Seq<char>>,
    Seq<FileErrorView>,
> {
    match result {
        Ok(values) => Ok(texts(values@)),
        Err(errors) => Err(error_views(errors@)),
    }
}

/// The errors of the absent tags go through the list one tag at a time.
pub proof fn lemma_absent_errors_push(lookups: Seq<Lookup>, next: Lookup)
    ensures
        absent_errors(lookups.push(next)) == match next {
            Ok(_) => absent_errors(lookups),
            Err(error) => absent_errors(lookups).push(error),
        },
{
    reveal(Seq::filter);
    assert(lookups.push(next).drop_last() =~= lookups);
    let errs = lookups.filter(|l: Lookup| l is Err);
    match next {
        Ok(_) => {},
        Err(error) => {
            assert(errs.push(next).map_values(|l: Lookup| l->Err_0) =~= errs.map_values(
                |l: Lookup| l->Err_0,
            ).push(error));
        },
    }
}

/// There are as many errors as absent tags: none where all were found, and
/// at least one where one was not.
pub proof fn lemma_absent_errors_count(lookups: Seq<Lookup>)
    ensures
        absent_errors(lookups).len() == lookups.filter(|l: Lookup| l is Err).len(),
        absent_errors(lookups).len() <= lookups.len(),
        all_found(lookups) <==> absent_errors(lookups).len() == 0,
    decreases lookups.len(),
{
    reveal(Seq::filter);
    if lookups.len() > 0 {
        let front = lookups.drop_last();
        lemma_absent_errors_count(front);
        lemma_absent_errors_push(front, lookups.last());
        assert(front.push(lookups.last()) =~= lookups);
        if all_found(front) && lookups.last() is Ok {
            assert forall|i: int| 0 <= i < lookups.len() implies (#[trigger] lookups[i]) is Ok by {
                if i < front.len() {
                    assert(front[i] is Ok);
                }
            }
        }
        if all_found(lookups) {
            assert forall|i: int| 0 <= i < front.len() implies (#[trigger] front[i]) is Ok by {
                assert(lookups[i] is Ok);
            }
            assert(lookups[lookups.len() - 1] is Ok);
        }
    }
}

/// Gathers looked-up tags: the texts of all of them where none is absent,
/// and otherwise the error of every absent one, in the order of the tags.
/// The first absent tag does not end the gathering.
pub fn handle_tags(tags: Vec<Result<&str, FileError>>) -> (result: Result<
    Vec<String>,
    Vec<FileError>,
>)
    ensures
        gathered_view(result) == gathered(lookup_views(tags@)),
{
    let ghost all = lookup_views(tags@);
    let mut result: Result<Vec<String>, Vec<FileError>> = Ok(Vec::new());
    proof {
        reveal(Seq::filter);
        assert(all.take(0) =~= Seq::<Lookup>::empty());
        assert(texts(Seq::<String>::empty()) =~= found_texts(all.take(0)));
    }
    for current_tag in it: tags
        invariant
            it.seq() == tags@,
            all == lookup_views(tags@),
            gathered_view(result) == gathered(all.take(it.index())),
    {
        let ghost seen = all.take(it.index());
        let ghost next = lookup_view(current_tag);
        proof {
            assert(all.take(it.index() + 1) =~= seen.push(next));
            lemma_absent_errors_push(seen, next);
            lemma_absent_errors_count(seen);
            lemma_absent_errors_count(seen.push(next));
        }
        match result {
            Ok(mut values) => {
                match current_tag {
                    Ok(tag_value) => {
                        let ghost before = values@;
                        values.push(String::from_str(tag_value));
                        proof {
                            assert(texts(values@) =~= texts(before).push(tag_value@));
                            assert(found_texts(seen.push(next)) =~= found_texts(seen).push(
                                tag_value@,
                            ));
                        }
                        result = Ok(values);
                    },
                    Err(tag_error) => {
                        let mut errors: Vec<FileError> = Vec::new();
                        errors.push(tag_error);
                        proof {
                            assert(error_views(errors@) =~= seq![tag_error@]);
                            assert(absent_errors(seen) =~= Seq::<FileErrorView>::empty());
                        }
                        result = Err(errors);
                    },
                }
            },
            Err(mut errors) => {
                match current_tag {
                    Ok(_) => {
                        result = Err(errors);
                    },
                    Err(tag_error) => {
                        let ghost before = errors@;
                        errors.push(tag_error);
                        proof {
                            assert(error_views(errors@) =~= error_views(before).push(tag_error@));
                        }
                        result = Err(errors);
                    },
                }
            },
        }
    }
    proof {
        assert(all.take(all.len() as int) =~= all);
    }
    result
}

/// The text of a tag that may be absent.
pub open spec fn text_of(tag: Option<&str>) -> Option<Seq<char>> {
    match tag {
        Some(text) => Some(text@),
        None => None,
    }
}

/// The three tags as they are looked up: album artist, album, title, each
/// with its text or with the error for its absence.
pub open spec fn required_lookups(
    album_artist: Option<Seq<char>>,
    album: Option<Seq<char>>,
    title: Option<Seq<char>>,
) -> Seq<Lookup> {
    seq![
        looked_up(album_artist, Field::Artist),
        looked_up(album, Field::Album),
        looked_up(title, Field::Title),
    ]
}

/// One tag as it is looked up.
pub open spec fn looked_up(tag: Option<Seq<char>>, field: Field) -> Lookup {
    match tag {
        Some(text) => Ok(text),
        None => Err(missing_field_error(field)),
    }
}

/// The error for `field` where its tag is absent, and nothing where it is
/// present.
pub open spec fn missing_if_absent(tag: Option<Seq<char>>, field: Field) -> Seq<FileErrorView> {
    if tag is None {
        seq![missing_field_error(field)]
    } else {
        Seq::empty()
    }
}

/// One error for each absent tag, in the order artist, album, title.
pub open spec fn missing_errors(
    album_artist: Option<Seq<char>>,
    album: Option<Seq<char>>,
    title: Option<Seq<char>>,
) -> Seq<FileErrorView> {
    missing_if_absent(album_artist, Field::Artist) + missing_if_absent(album, Field::Album)
        + missing_if_absent(title, Field::Title)
}

/// How many of the three tags are absent.
pub open spec fn absent_count(
    album_artist: Option<Seq<char>>,
    album: Option<Seq<char>>,
    title: Option<Seq<char>>,
) -> nat {
    (if album_artist is None {
        1nat
    } else {
        0nat
    }) + (if album is None {
        1nat
    } else {
        0nat
    }) + (if title is None {
        1nat
    } else {
        0nat
    })
}

/// What validation gives: the three tags where all are present, and else
/// the error of every absent one.
pub open spec fn validated(
    album_artist: Option<Seq<char>>,
    album: Option<Seq<char>>,
    title: Option<Seq<char>>,
) -> Result<RequiredTagsView, Seq<FileErrorView>> {
    if album_artist is Some && album is Some && title is Some {
        Ok(RequiredTagsView { artist: album_artist->0, album: album->0, title: title->0 })
    } else {
        Err(missing_errors(album_artist, album, title))
    }
}

/// The plain values of what validation returns.
pub open spec fn validation_view(result: Result<RequiredTags, Vec<FileError>>) -> Result<
    RequiredTagsView,
    Seq<FileErrorView>,
> {
    match result {
        Ok(tags) => Ok(tags@),
        Err(errors) => Err(error_views(errors@)),
    }
}

/// The place of a field in the order in which the tags are read.
pub open spec fn field_rank(field: Field) -> int {
    match field {
        Field::Artist => 0,
        Field::Album => 1,
        Field::Title => 2,
    }
}

/// Gathering the three looked-up tags gives what validation is said to give.
pub proof fn lemma_gathered_required(
    album_artist: Option<Seq<char>>,
    album: Option<Seq<char>>,
    title: Option<Seq<char>>,
)
    ensures
        match gathered(required_lookups(album_artist, album, title)) {
            Ok(values) => {
                &&& validated(album_artist, album, title) is Ok
                &&& values == seq![album_artist->0, album->0, title->0]
            },
            Err(errors) => validated(album_artist, album, title) == Err::<RequiredTagsView, _>(
                errors,
            ),
        },
{
    let lookups = required_lookups(album_artist, album, title);
    let none = Seq::<Lookup>::empty();
    let one = none.push(lookups[0]);
    let two = one.push(lookups[1]);
    assert(two.push(lookups[2]) =~= lookups);
    assert(absent_errors(none) =~= Seq::<FileErrorView>::empty()) by {
        reveal(Seq::filter);
    }
    lemma_absent_errors_push(none, lookups[0]);
    lemma_absent_errors_push(one, lookups[1]);
    lemma_absent_errors_push(two, lookups[2]);
    assert(absent_errors(lookups) =~= missing_errors(album_artist, album, title));
    if all_found(lookups) {
        assert(lookups[0] is Ok && lookups[1] is Ok && lookups[2] is Ok);
        assert(found_texts(lookups) =~= seq![album_artist->0, album->0, title->0]);
    } else {
        assert(!(album_artist is Some && album is Some && title is Some));
    }
}

/// Validation is total and keeps the order of the tags: whatever is present
/// and whatever is absent, there is one error for each absent tag and no
/// other, the errors stand in the order artist, album, title, and there is
/// none exactly when all three tags are present.
pub proof fn lemma_validation_total(
    album_artist: Option<Seq<char>>,
    album: Option<Seq<char>>,
    title: Option<Seq<char>>,
)
    ensures
        validated(album_artist, album, title) is Ok <==> absent_count(album_artist, album, title)
            == 0,
        validated(album_artist, album, title) is Ok <==> album_artist is Some && album is Some
            && title is Some,
        validated(album_artist, album, title) matches Err(errors) ==> {
            &&& errors.len() == absent_count(album_artist, album, title)
            &&& 1 <= errors.len() <= 3
            &&& forall|i: int|
                0 <= i < errors.len() ==> (#[trigger] errors[i]).field is Some && errors[i]
                    == missing_field_error(errors[i].field->0)
            &&& forall|i: int, j: int|
                0 <= i < j < errors.len() ==> field_rank((#[trigger] errors[i]).field->0)
                    < field_rank((#[trigger] errors[j]).field->0)
            &&& (album_artist is None <==> exists|i: int|
                0 <= i < errors.len() && (#[trigger] errors[i]).field == Some(Field::Artist))
            &&& (album is None <==> exists|i: int|
                0 <= i < errors.len() && (#[trigger] errors[i]).field == Some(Field::Album))
            &&& (title is None <==> exists|i: int|
                0 <= i < errors.len() && (#[trigger] errors[i]).field == Some(Field::Title))
        },
{
    let errors = missing_errors(album_artist, album, title);
    let a = missing_if_absent(album_artist, Field::Artist);
    let b = missing_if_absent(album, Field::Album);
    let c = missing_if_absent(title, Field::Title);
    assert(errors.len() == a.len() + b.len() + c.len());
    if album_artist is None {
        assert(errors[0].field == Some(Field::Artist));
    }
    if album is None {
        assert(errors[a.len() as int].field == Some(Field::Album));
    }
    if title is None {
        assert(errors[(a.len() + b.len()) as int].field == Some(Field::Title));
    }
}

/// Checks the three required tags of a file.
///
/// Returns them where all three are present; an empty text counts as
/// present. Otherwise returns one error for each absent tag, in the order
/// artist, album, title.
pub fn validate(album_artist: Option<&str>, album: Option<&str>, title: Option<&str>) -> (result:
    Result<RequiredTags, Vec<FileError>>)
    ensures
        validation_view(result) == validated(text_of(album_artist), text_of(album), text_of(title)),
{
    let mut lookups: Vec<Result<&str, FileError>> = Vec::new();
    lookups.push(
        match album_artist {
            Some(text) => Ok(text),
            None => Err(FileError::missing_field(Field::Artist)),
        },
    );
    lookups.push(
        match album {
            Some(text) => Ok(text),
            None => Err(FileError::missing_field(Field::Album)),
        },
    );
    lookups.push(
        match title {
            Some(text) => Ok(text),
            None => Err(FileError::missing_field(Field::Title)),
        },
    );
    proof {
        assert(lookup_views(lookups@) =~= required_lookups(
            text_of(album_artist),
            text_of(album),
            text_of(title),
        ));
        lemma_gathered_required(text_of(album_artist), text_of(album), text_of(title));
    }
    match handle_tags(lookups) {
        Ok(mut values) => {
            assert(texts(values@).len() == 3);
            assert(texts(values@)[0] == values@[0]@ && texts(values@)[1] == values@[1]@ && texts(
                values@,
            )[2] == values@[2]@);
            let title = values.pop().unwrap();
            let album = values.pop().unwrap();
            let artist = values.pop().unwrap();
            Ok(RequiredTags { artist, album, title })
        },
        Err(errors) => Err(errors),
    }
}

/// Tag data of one file, as the tag reader hands it out. The library looks
/// into it only through the three lookups below.
#[verifier::external_type_specification]
#[verifier::external_body]
pub struct ExTag(Tag);

/// What `album_artist` finds in a tag.
pub uninterp spec fn album_artist_text(tag: Tag) -> Option<Seq<char>>;

/// What `album` finds in a tag.
pub uninterp spec fn album_text(tag: Tag) -> Option<Seq<char>>;

/// What `title` finds in a tag.
pub uninterp spec fn title_text(tag: Tag) -> Option<Seq<char>>;

/// `TagLike::album_artist` on a `Tag`: the text of the tag's first
/// album-artist frame, or nothing where it has none or where that frame
/// holds no text. The contract claims only that the answer depends on the
/// tag alone, and gives it a name.
#[verifier::external_body]
fn tag_album_artist(tag: &Tag) -> (text: Option<&str>)
    ensures
        text_of(text) == album_artist_text(*tag),
{
    tag.album_artist()
}

/// `TagLike::album` on a `Tag`: the text of the tag's first album frame, or
/// nothing where it has none or where that frame holds no text. The
/// contract claims only that the answer depends on the tag alone, and gives
/// it a name.
#[verifier::external_body]
fn tag_album(tag: &Tag) -> (text: Option<&str>)
    ensures
        text_of(text) == album_text(*tag),
{
    tag.album()
}

/// `TagLike::title` on a `Tag`: the text of the tag's first title frame, or
/// nothing where it has none or where that frame holds no text. The
/// contract claims only that the answer depends on the tag alone, and gives
/// it a name.
#[verifier::external_body]
fn tag_title(tag: &Tag) -> (text: Option<&str>)
    ensures
        text_of(text) == title_text(*tag),
{
    tag.title()
}

/// Reads album artist, album and title out of `tag`, in that order, and
/// checks them as `validate` does.
pub fn required_tags(tag: &Tag) -> (result: Result<RequiredTags, Vec<FileError>>)
    ensures
        validation_view(result) == validated(
            album_artist_text(*tag),
            album_text(*tag),
            title_text(*tag),
        ),
{
    validate(tag_album_artist(tag), tag_album(tag), tag_title(tag))
}

} // verus!
