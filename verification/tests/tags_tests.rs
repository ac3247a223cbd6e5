use audio_organizer::errors::{ErrorKind, Field, FileError};
use audio_organizer::tags::{handle_tags, required_tags, validate, RequiredTags};
use id3::{Content, Frame, Tag, TagLike};

fn fields_of(errors: &[FileError]) -> Vec<Option<Field>> {
    errors.iter().map(|e| e.field).collect()
}

#[test]
fn all_three_tags_give_the_record() {
    let tags = validate(Some("AC/DC"), Some("Who Made Who"), Some("CON")).unwrap();
    assert_eq!(
        tags,
        RequiredTags {
            artist: "AC/DC".to_string(),
            album: "Who Made Who".to_string(),
            title: "CON".to_string(),
        }
    );
}

#[test]
fn empty_text_counts_as_present() {
    let tags = validate(Some(""), Some(""), Some("")).unwrap();
    assert_eq!(tags.artist, "");
    assert_eq!(tags.album, "");
    assert_eq!(tags.title, "");
}

#[test]
fn only_artist_present_gives_two_errors_in_order() {
    let errors = validate(Some("Artist"), None, None).unwrap_err();
    assert_eq!(errors.len(), 2);
    assert_eq!(errors[0], FileError::missing_field(Field::Album));
    assert_eq!(errors[1], FileError::missing_field(Field::Title));
    assert_eq!(errors[0].message, "No album found");
    assert_eq!(errors[1].message, "No title found");
}

#[test]
fn nothing_present_gives_three_errors_in_order() {
    let errors = validate(None, None, None).unwrap_err();
    assert_eq!(
        fields_of(&errors),
        vec![Some(Field::Artist), Some(Field::Album), Some(Field::Title)]
    );
    assert_eq!(errors[0].message, "No album artist found");
    assert_eq!(errors[1].message, "No album found");
    assert_eq!(errors[2].message, "No title found");
    for error in &errors {
        assert_eq!(error.kind, ErrorKind::MissingField);
        assert_eq!(error.cause, "");
    }
}

#[test]
fn every_combination_counts_the_absent_tags() {
    for mask in 0u8..8 {
        let artist = if mask & 1 != 0 { Some("a") } else { None };
        let album = if mask & 2 != 0 { Some("b") } else { None };
        let title = if mask & 4 != 0 { Some("c") } else { None };
        let mut expected = Vec::new();
        if artist.is_none() {
            expected.push(Some(Field::Artist));
        }
        if album.is_none() {
            expected.push(Some(Field::Album));
        }
        if title.is_none() {
            expected.push(Some(Field::Title));
        }
        match validate(artist, album, title) {
            Ok(tags) => {
                assert_eq!(mask, 7);
                assert_eq!((tags.artist.as_str(), tags.album.as_str(), tags.title.as_str()), ("a", "b", "c"));
            }
            Err(errors) => {
                assert_ne!(mask, 7);
                assert_eq!(fields_of(&errors), expected);
            }
        }
    }
}

#[test]
fn missing_field_errors_carry_their_message() {
    let artist = FileError::missing_field(Field::Artist);
    assert_eq!(artist.kind, ErrorKind::MissingField);
    assert_eq!(artist.field, Some(Field::Artist));
    assert_eq!(artist.message, "No album artist found");
    assert_eq!(FileError::missing_field(Field::Album).message, "No album found");
    assert_eq!(FileError::missing_field(Field::Title).message, "No title found");
}

#[test]
fn gathering_keeps_every_value_in_order() {
    let values = handle_tags(vec![Ok("one"), Ok("two"), Ok("three"), Ok("four")]).unwrap();
    assert_eq!(values, vec!["one", "two", "three", "four"]);
}

#[test]
fn gathering_nothing_gives_nothing() {
    assert_eq!(handle_tags(Vec::new()), Ok(Vec::new()));
}

#[test]
fn gathering_does_not_stop_at_the_first_error() {
    let first = FileError::read_failure("Parsing", "first");
    let second = FileError::copy_failure("second");
    let errors = handle_tags(vec![
        Ok("kept out"),
        Err(first.clone()),
        Ok("also kept out"),
        Err(second.clone()),
    ])
    .unwrap_err();
    assert_eq!(errors, vec![first, second]);
}

#[test]
fn gathering_one_late_error() {
    let late = FileError::missing_field(Field::Title);
    let errors = handle_tags(vec![Ok("a"), Ok("b"), Err(late.clone())]).unwrap_err();
    assert_eq!(errors, vec![late]);
}

#[test]
fn tags_are_read_out_of_a_tag() {
    let mut tag = Tag::new();
    tag.set_album_artist("AC/DC");
    tag.set_album("Who Made Who");
    tag.set_title("Hells Bells");
    tag.set_artist("someone else");
    let tags = required_tags(&tag).unwrap();
    assert_eq!(tags.artist, "AC/DC");
    assert_eq!(tags.album, "Who Made Who");
    assert_eq!(tags.title, "Hells Bells");
}

#[test]
fn an_empty_tag_lacks_all_three() {
    let errors = required_tags(&Tag::new()).unwrap_err();
    assert_eq!(
        fields_of(&errors),
        vec![Some(Field::Artist), Some(Field::Album), Some(Field::Title)]
    );
}

#[test]
fn the_track_artist_is_no_album_artist() {
    let mut tag = Tag::new();
    tag.set_artist("Artist");
    tag.set_album("Album");
    tag.set_title("Title");
    let errors = required_tags(&tag).unwrap_err();
    assert_eq!(errors, vec![FileError::missing_field(Field::Artist)]);
}

#[test]
fn a_tag_with_only_an_album_artist() {
    let mut tag = Tag::new();
    tag.set_album_artist("Artist");
    let errors = required_tags(&tag).unwrap_err();
    assert_eq!(fields_of(&errors), vec![Some(Field::Album), Some(Field::Title)]);
}

#[test]
fn a_frame_without_text_counts_as_absent() {
    let mut tag = Tag::new();
    tag.set_album_artist("Artist");
    tag.set_album("Album");
    tag.add_frame(Frame::with_content("TIT2", Content::Link("http://example.org".to_string())));
    let errors = required_tags(&tag).unwrap_err();
    assert_eq!(errors, vec![FileError::missing_field(Field::Title)]);
}

#[test]
fn removed_tags_are_absent_again() {
    let mut tag = Tag::new();
    tag.set_album_artist("Artist");
    tag.set_album("Album");
    tag.set_title("Title");
    assert!(required_tags(&tag).is_ok());
    tag.remove_album();
    let errors = required_tags(&tag).unwrap_err();
    assert_eq!(fields_of(&errors), vec![Some(Field::Album)]);
}
