use audio_organizer::errors::{Field, FileError};
use audio_organizer::outcome::FileOutcome;
use audio_organizer::pipeline::{step, Action, Event, FileState, Job};
use audio_organizer::report::{handling_status, removal_warning, Tone};
use audio_organizer::target::TargetPath;
use id3::{Tag, TagLike};

fn job(remove_source: bool) -> Job {
    Job {
        source_file_name: "track.mp3".to_string(),
        root: "/music".to_string(),
        remove_source,
    }
}

fn full_tag() -> Tag {
    let mut tag = Tag::new();
    tag.set_album_artist("AC/DC");
    tag.set_album("Who Made Who");
    tag.set_title("CON");
    tag
}

fn expected_target() -> TargetPath {
    TargetPath {
        root: "/music".to_string(),
        artist: "AC_DC".to_string(),
        album: "Who Made Who".to_string(),
        file_name: "_.mp3".to_string(),
    }
}

fn copying(job: &Job) -> FileState {
    let (state, _) = step(FileState::Start, Event::Begin, job);
    let (state, _) = step(state, Event::TagsRead { tag: full_tag() }, job);
    let (state, _) = step(state, Event::DirectoriesReady, job);
    state
}

#[test]
fn handling_begins_by_reading_the_tags() {
    let (state, action) = step(FileState::Start, Event::Begin, &job(false));
    assert_eq!(state, FileState::Validating);
    assert_eq!(action, Action::ReadTags);
}

#[test]
fn a_file_without_removal_goes_straight_through() {
    let job = job(false);
    let (state, action) = step(FileState::Start, Event::Begin, &job);
    assert_eq!(action, Action::ReadTags);
    let (state, action) = step(state, Event::TagsRead { tag: full_tag() }, &job);
    assert_eq!(state, FileState::PathBuilt { target: expected_target() });
    assert_eq!(state.target(), Some(&expected_target()));
    assert_eq!(action, Action::CreateDirectories);
    let (state, action) = step(state, Event::DirectoriesReady, &job);
    assert_eq!(state, FileState::Copying { target: expected_target() });
    assert_eq!(action, Action::CopyFile);
    assert!(!state.is_done());
    let (state, action) = step(state, Event::Copied, &job);
    assert_eq!(state, FileState::Done { outcome: FileOutcome::Success, warning: None });
    assert_eq!(action, Action::Report);
    assert!(state.is_done());
    assert_eq!(state.target(), None);
}

#[test]
fn the_source_is_removed_where_asked() {
    let job = job(true);
    let (state, action) = step(copying(&job), Event::Copied, &job);
    assert_eq!(state, FileState::RemovingSource);
    assert_eq!(action, Action::RemoveSource);
    let (state, action) = step(state, Event::SourceRemoved, &job);
    assert_eq!(state, FileState::Done { outcome: FileOutcome::Success, warning: None });
    assert_eq!(action, Action::Report);
}

#[test]
fn missing_tags_end_the_handling_before_any_copy() {
    let job = job(true);
    let mut tag = Tag::new();
    tag.set_album_artist("Artist");
    let (state, _) = step(FileState::Start, Event::Begin, &job);
    let (state, action) = step(state, Event::TagsRead { tag }, &job);
    assert_eq!(action, Action::Report);
    assert_eq!(
        state,
        FileState::Done {
            outcome: FileOutcome::Failure(vec![
                FileError::missing_field(Field::Album),
                FileError::missing_field(Field::Title),
            ]),
            warning: None,
        }
    );
    let (state, action) = step(state, Event::DirectoriesReady, &job);
    assert_eq!(action, Action::Report);
    let (state, action) = step(state, Event::Copied, &job);
    assert_eq!(action, Action::Report);
    assert!(state.is_done());
    assert_eq!(state.target(), None);
}

#[test]
fn unreadable_tags_give_one_read_failure() {
    let job = job(false);
    let (state, _) = step(FileState::Start, Event::Begin, &job);
    let event = Event::TagsUnreadable {
        cause: "NoTag".to_string(),
        message: "reader does not contain an id3 tag".to_string(),
    };
    let (state, action) = step(state, event, &job);
    assert_eq!(action, Action::Report);
    let expected = FileError::read_failure("NoTag", "reader does not contain an id3 tag");
    assert_eq!(state, FileState::Done { outcome: FileOutcome::failed_with(expected), warning: None });
}

#[test]
fn a_directory_that_cannot_be_made_ends_the_handling() {
    let job = job(true);
    let (state, _) = step(FileState::Start, Event::Begin, &job);
    let (state, _) = step(state, Event::TagsRead { tag: full_tag() }, &job);
    let event = Event::DirectoriesFailed {
        directory: "/music/AC_DC/Who Made Who".to_string(),
        cause: "Permission denied (os error 13)".to_string(),
    };
    let (state, action) = step(state, event, &job);
    assert_eq!(action, Action::Report);
    let expected = FileError::directory_failure(
        "/music/AC_DC/Who Made Who",
        "Permission denied (os error 13)",
    );
    assert_eq!(expected.message, "Cannot create directory '/music/AC_DC/Who Made Who'");
    assert_eq!(state, FileState::Done { outcome: FileOutcome::failed_with(expected), warning: None });
}

#[test]
fn a_target_without_parent_ends_the_handling() {
    let job = job(false);
    let (state, _) = step(FileState::Start, Event::Begin, &job);
    let (state, _) = step(state, Event::TagsRead { tag: full_tag() }, &job);
    let (state, action) = step(state, Event::TargetHasNoParent { target: "/".to_string() }, &job);
    assert_eq!(action, Action::Report);
    let expected = FileError::invalid_target("/");
    assert_eq!(state, FileState::Done { outcome: FileOutcome::failed_with(expected), warning: None });
}

#[test]
fn a_failed_copy_gives_one_error_and_no_removal() {
    let job = job(true);
    let event = Event::CopyFailed { cause: "No space left on device (os error 28)".to_string() };
    let (state, action) = step(copying(&job), event, &job);
    assert_eq!(action, Action::Report);
    let expected = FileError::copy_failure("No space left on device (os error 28)");
    assert_eq!(state, FileState::Done { outcome: FileOutcome::failed_with(expected), warning: None });
}

#[test]
fn a_failed_removal_is_a_warning_beside_the_success() {
    let job = job(true);
    let (state, action) = step(copying(&job), Event::Copied, &job);
    assert_eq!(action, Action::RemoveSource);
    let event = Event::RemovalFailed { cause: "Permission denied (os error 13)".to_string() };
    let (state, action) = step(state, event, &job);
    assert_eq!(action, Action::Report);
    match state {
        FileState::Done { outcome, warning } => {
            assert!(outcome.is_success());
            let lines = handling_status("track.mp3", 9, &outcome);
            assert_eq!(lines.len(), 1);
            assert_eq!(lines[0].marked, "Ok");
            assert_eq!(lines[0].tone, Tone::Success);
            let cause = warning.unwrap();
            assert_eq!(cause, "Permission denied (os error 13)");
            let line = removal_warning(&cause);
            assert_eq!(line.tone, Tone::Warning);
            assert_eq!(line.marked, "Warning!");
        }
        other => panic!("handling has not ended: {:?}", other),
    }
}

#[test]
fn an_event_out_of_turn_changes_nothing() {
    let job = job(true);
    let (state, action) = step(FileState::Validating, Event::Copied, &job);
    assert_eq!((state, action), (FileState::Validating, Action::ReadTags));
    let built = FileState::PathBuilt { target: expected_target() };
    let (state, action) = step(built.clone(), Event::SourceRemoved, &job);
    assert_eq!((state, action), (built, Action::CreateDirectories));
    let (state, action) = step(copying(&job), Event::DirectoriesReady, &job);
    assert_eq!((state, action), (copying(&job), Action::CopyFile));
    let event = Event::CopyFailed { cause: "late".to_string() };
    let (state, action) = step(FileState::RemovingSource, event, &job);
    assert_eq!((state, action), (FileState::RemovingSource, Action::RemoveSource));
}

#[test]
fn an_ended_handling_stays_ended() {
    let job = job(true);
    let done = FileState::Done { outcome: FileOutcome::Success, warning: None };
    let (state, action) = step(done.clone(), Event::Begin, &job);
    assert_eq!((state, action), (done.clone(), Action::Report));
    let (state, action) = step(done.clone(), Event::TagsRead { tag: full_tag() }, &job);
    assert_eq!((state, action), (done, Action::Report));
}

#[test]
fn two_files_with_one_target_both_succeed() {
    let mut first_tag = Tag::new();
    first_tag.set_album_artist("AC/DC");
    first_tag.set_album("Live");
    first_tag.set_title("T.N.T.");
    let mut second_tag = Tag::new();
    second_tag.set_album_artist("AC:DC");
    second_tag.set_album("Live");
    second_tag.set_title("T.N.T.");
    let first_job = Job {
        source_file_name: "one.mp3".to_string(),
        root: "/music".to_string(),
        remove_source: false,
    };
    let second_job = Job {
        source_file_name: "two.mp3".to_string(),
        root: "/music".to_string(),
        remove_source: false,
    };
    let mut ends = Vec::new();
    let mut targets = Vec::new();
    for (job, tag) in [(first_job, first_tag), (second_job, second_tag)] {
        let (state, _) = step(FileState::Start, Event::Begin, &job);
        let (state, _) = step(state, Event::TagsRead { tag }, &job);
        targets.push(state.target().unwrap().clone());
        let (state, _) = step(state, Event::DirectoriesReady, &job);
        let (state, _) = step(state, Event::Copied, &job);
        ends.push(state);
    }
    assert_eq!(targets[0], targets[1]);
    let done = FileState::Done { outcome: FileOutcome::Success, warning: None };
    assert_eq!(ends, vec![done.clone(), done]);
}

#[test]
fn a_failure_on_one_file_leaves_the_next_alone() {
    let job = job(false);
    let (state, _) = step(FileState::Start, Event::Begin, &job);
    let (failed, _) = step(state, Event::TagsRead { tag: Tag::new() }, &job);
    assert!(failed.is_done());
    let (state, action) = step(copying(&job), Event::Copied, &job);
    assert_eq!(action, Action::Report);
    assert_eq!(state, FileState::Done { outcome: FileOutcome::Success, warning: None });
}
