//! The lines that tell the user how each file ended, aligned over the whole
//! batch.

use vstd::prelude::*;
use vstd::string::{StrSliceExecFns, StringExecFns};

use crate::errors::{error_text, error_views, FileErrorView};
use crate::outcome::{FileOutcome, FileOutcomeView};
use crate::text::{push_repeated, repeated, texts};

verus! {

/// How a line is to be marked when it is shown.
#[derive(Clone, Copy, Debug, PartialEq, Eq, Structural)]
pub enum Tone {
    Success,
    Error,
    Warning,
}

/// One line of the report: `lead`, then `marked` shown in the colour of
/// `tone`, then `trail`.
#[derive(Clone, Debug, PartialEq, Eq)]
pub struct StatusLine {
    pub lead: String,
    pub marked: String,
    pub trail: String,
    pub tone: Tone,
}

/// A `StatusLine` as plain values.
pub struct StatusLineView {
    pub lead: Seq<char>,
    pub marked: Seq<char>,
    pub trail: Seq<char>,
    pub tone: Tone,
}

impl View for StatusLine {
    type V = StatusLineView;

    open spec fn view(&self) -> StatusLineView {
        StatusLineView {
            lead: self.lead@,
            marked: self.marked@,
            trail: self.trail@,
            tone: self.tone,
        }
    }
}

/// The views of a list of lines, in its order.
pub open spec fn line_views(lines: Seq<StatusLine>) -> Seq<StatusLineView> {
    lines.map_values(|l: StatusLine| l@)
}

/// The dots that follow even the longest file name.
pub const EXTRA_DOTS: usize = 10;

/// How many dots follow a file name of `name_len` characters, where the
/// longest of the batch has `longest` characters.
pub open spec fn dots_amount(name_len: nat, longest: nat) -> nat {
    (longest - name_len + EXTRA_DOTS) as nat
}

/// What stands before the first status of a file: its name and the dots.
pub open spec fn first_lead(filename: Seq<char>, longest: nat) -> Seq<char> {
    filename + repeated('.', dots_amount(filename.len(), longest))
}

/// What stands before every further error of a file: blanks up to the
/// column where the first status began.
pub open spec fn further_lead(filename: Seq<char>, longest: nat) -> Seq<char> {
    repeated(' ', filename.len() + dots_amount(filename.len(), longest))
}

/// The line for the error at place `index` of a file's errors.
pub open spec fn error_line(
    filename: Seq<char>,
    longest: nat,
    errors: Seq<FileErrorView>,
    index: int,
) -> StatusLineView {
    StatusLineView {
        lead: if index == 0 {
            first_lead(filename, longest)
        } else {
            further_lead(filename, longest)
        },
        marked: error_text(errors[index]),
        trail: Seq::empty(),
        tone: Tone::Error,
    }
}

/// The lines for one file: one that says `Ok`, or one for each error.
pub open spec fn status_lines(filename: Seq<char>, longest: nat, outcome: FileOutcomeView) -> Seq<
    StatusLineView,
> {
    match outcome {
        FileOutcomeView::Success => seq![
            StatusLineView {
                lead: first_lead(filename, longest),
                marked: "Ok"@,
                trail: Seq::empty(),
                tone: Tone::Success,
            },
        ],
        FileOutcomeView::Failure(errors) => Seq::new(
            errors.len(),
            |i: int| error_line(filename, longest, errors, i),
        ),
    }
}

/// The line that warns of a source file that could not be removed.
pub open spec fn warning_line(cause: Seq<char>) -> StatusLineView {
    StatusLineView {
        lead: Seq::empty(),
        marked: "Warning!"@,
        trail: " Original file wan't removed due to error: "@ + cause,
        tone: Tone::Warning,
    }
}

/// The greatest length among `names`, at least `floor`.
pub open spec fn max_len(names: Seq<Seq<char>>, floor: nat) -> nat
    decreases names.len(),
{
    if names.len() == 0 {
        floor
    } else {
        let rest = max_len(names.drop_last(), floor);
        if names.last().len() > rest {
            names.last().len()
        } else {
            rest
        }
    }
}

/// The length of the longest name of a batch; 1 for an empty batch.
pub open spec fn longest_len(names: Seq<Seq<char>>) -> nat {
    if names.len() == 0 {
        1
    } else {
        max_len(names, 0)
    }
}

/// The longest length is the length of one of the names, and no name is
/// longer.
pub proof fn lemma_longest_len(names: Seq<Seq<char>>)
    requires
        names.len() > 0,
    ensures
        forall|i: int| 0 <= i < names.len() ==> (#[trigger] names[i]).len() <= longest_len(names),
        exists|i: int| 0 <= i < names.len() && (#[trigger] names[i]).len() == longest_len(names),
    decreases names.len(),
{
    let front = names.drop_last();
    if front.len() == 0 {
        assert(max_len(front, 0) == 0);
        assert(names[0].len() == longest_len(names));
    } else {
        lemma_longest_len(front);
        let at = choose|i: int| 0 <= i < front.len() && (#[trigger] front[i]).len() == longest_len(
            front,
        );
        assert(names[at] == front[at]);
        assert forall|i: int| 0 <= i < names.len() implies (#[trigger] names[i]).len()
            <= longest_len(names) by {
            if i < front.len() {
                assert(names[i] == front[i]);
            }
        }
        if names.last().len() > max_len(front, 0) {
            assert(names[names.len() - 1].len() == longest_len(names));
        } else {
            assert(names[at].len() == longest_len(names));
        }
    }
}

/// The number of characters of the longest of `names`, over which the
/// report of a batch is aligned; 1 where there is no name.
pub fn longest_filename_len(names: &Vec<String>) -> (longest: usize)
    ensures
        longest == longest_len(texts(names@)),
{
    if names.len() == 0 {
        assert(texts(names@).len() == 0);
        return 1;
    }
    let mut longest: usize = 0;
    let mut i: usize = 0;
    assert(texts(names@).take(0) =~= Seq::<Seq<char>>::empty());
    while i < names.len()
        invariant
            i <= names.len(),
            longest == max_len(texts(names@).take(i as int), 0),
        decreases names.len() - i,
    {
        let len = names[i].as_str().unicode_len();
        proof {
            let upto = texts(names@).take(i + 1);
            assert(upto.drop_last() =~= texts(names@).take(i as int));
            assert(upto.last() == names@[i as int]@);
        }
        if len > longest {
            longest = len;
        }
        i = i + 1;
    }
    assert(texts(names@).take(names@.len() as int) =~= texts(names@));
    longest
}

/// The line that leads a file's report, or one that follows it.
fn status_line(lead: String, marked: String, tone: Tone) -> (line: StatusLine)
    ensures
        line@ == (StatusLineView { lead: lead@, marked: marked@, trail: Seq::empty(), tone }),
{
    StatusLine { lead, marked, trail: String::new(), tone }
}

/// The lines that report how `filename` ended.
///
/// The first line holds the name, then dots up to a column that is the same
/// for every file of the batch, then `Ok` or the first error. Every further
/// error stands on a line of its own, below the first.
///
/// The name must not be longer than `longest_filename_len`, and the widths
/// must fit the machine's integers.
pub fn handling_status(filename: &str, longest_filename_len: usize, outcome: &FileOutcome) -> (lines:
    Vec<StatusLine>)
    requires
        filename@.len() <= longest_filename_len,
        longest_filename_len - filename@.len() + EXTRA_DOTS <= usize::MAX,
        outcome@ is Failure ==> longest_filename_len + EXTRA_DOTS <= usize::MAX,
        outcome.wf(),
    ensures
        line_views(lines@) == status_lines(filename@, longest_filename_len as nat, outcome@),
{
    let name_len = filename.unicode_len();
    let dots = longest_filename_len - name_len + EXTRA_DOTS;
    let mut lead = String::from_str(filename);
    push_repeated(&mut lead, '.', dots);
    let mut lines: Vec<StatusLine> = Vec::new();
    match outcome {
        FileOutcome::Success => {
            lines.push(status_line(lead, String::from_str("Ok"), Tone::Success));
            assert(line_views(lines@) =~= status_lines(
                filename@,
                longest_filename_len as nat,
                outcome@,
            ));
        },
        FileOutcome::Failure(errors) => {
            let ghost views = error_views(errors@);
            lines.push(status_line(lead, errors[0].describe(), Tone::Error));
            let mut i: usize = 1;
            while i < errors.len()
                invariant
                    1 <= i <= errors.len(),
                    views == error_views(errors@),
                    name_len == filename@.len(),
                    dots == dots_amount(filename@.len(), longest_filename_len as nat),
                    name_len + dots <= usize::MAX,
                    lines@.len() == i,
                    forall|j: int|
                        0 <= j < i ==> (#[trigger] lines@[j])@ == error_line(
                            filename@,
                            longest_filename_len as nat,
                            views,
                            j,
                        ),
                decreases errors.len() - i,
            {
                let mut indent = String::new();
                push_repeated(&mut indent, ' ', name_len + dots);
                assert(indent@ =~= further_lead(filename@, longest_filename_len as nat));
                lines.push(status_line(indent, errors[i].describe(), Tone::Error));
                i = i + 1;
            }
            assert(line_views(lines@) =~= status_lines(
                filename@,
                longest_filename_len as nat,
                outcome@,
            ));
        },
    }
    lines
}

/// The line that warns that the source file could not be removed, with what
/// the storage said of it.
pub fn removal_warning(cause: &str) -> (line: StatusLine)
    ensures
        line@ == warning_line(cause@),
{
    let mut trail = String::from_str(" Original file wan't removed due to error: ");
    trail.append(cause);
    StatusLine { lead: String::new(), marked: String::from_str("Warning!"), trail, tone: Tone::Warning }
}

/// The status with which the program ends where it was given no file.
pub const NO_FILES_EXIT_CODE: i32 = 2;

/// The line that says that no file was given.
pub open spec fn no_files_line() -> StatusLineView {
    StatusLineView {
        lead: Seq::empty(),
        marked: "ERROR!"@,
        trail: " You must specify at least one file!"@,
        tone: Tone::Error,
    }
}

/// Whether a batch of `file_count` files can be handled: where there is no
/// file, the line to show before the program ends with
/// `NO_FILES_EXIT_CODE`. Nothing else ends the program early.
pub fn check_batch(file_count: usize) -> (refusal: Option<StatusLine>)
    ensures
        file_count > 0 ==> refusal is None,
        file_count == 0 ==> (refusal matches Some(line) && line@ == no_files_line()),
{
    if file_count == 0 {
        Some(
            StatusLine {
                lead: String::new(),
                marked: String::from_str("ERROR!"),
                trail: String::from_str(" You must specify at least one file!"),
                tone: Tone::Error,
            },
        )
    } else {
        None
    }
}

} // verus!
