//! Turning arbitrary tag text into a name that is safe to use as one
//! component of a path.
//!
//! The rule has three steps, applied in order: every forbidden character
//! becomes an underscore, every control character is dropped, and a name
//! whose stem (the text before its first dot) is a reserved device name has
//! the first occurrence of that stem replaced by an underscore.

use vstd::prelude::*;

use crate::text::push_chars_from;

verus! {

/// The nine characters that may not appear in a file or directory name.
pub open spec fn is_forbidden(c: char) -> bool {
    c == '<' || c == '>' || c == ':' || c == '"' || c == '/' || c == '\\' || c == '|' || c == '?'
        || c == '*'
}

/// The ASCII control codes, 0 to 31.
pub open spec fn is_control(c: char) -> bool {
    (c as u32) <= 31
}

/// What stands in place of a forbidden character or a reserved stem.
pub open spec fn underscore() -> Seq<char> {
    seq!['_']
}

/// Step one: each forbidden character gives way to an underscore.
pub open spec fn replace_forbidden(text: Seq<char>) -> Seq<char> {
    text.map_values(
        |c: char|
            if is_forbidden(c) {
                '_'
            } else {
                c
            },
    )
}

/// Step two: control characters are dropped, the rest keeps its order.
pub open spec fn strip_controls(text: Seq<char>) -> Seq<char> {
    text.filter(|c: char| !is_control(c))
}

/// Steps one and two together.
pub open spec fn cleaned(text: Seq<char>) -> Seq<char> {
    strip_controls(replace_forbidden(text))
}

/// The position of the first dot at or after `from`, or the length of the
/// text when no dot follows.
pub open spec fn first_dot_from(text: Seq<char>, from: int) -> int
    decreases text.len() - from,
{
    if from < 0 || from >= text.len() {
        text.len() as int
    } else if text[from] == '.' {
        from
    } else {
        first_dot_from(text, from + 1)
    }
}

/// The text before the first dot; the whole text when it has no dot.
pub open spec fn stem(text: Seq<char>) -> Seq<char> {
    text.take(first_dot_from(text, 0))
}

/// The twenty-two device names that some systems reserve.
pub open spec fn reserved_names() -> Seq<Seq<char>> {
    seq![
        seq!['C', 'O', 'N'],
        seq!['P', 'R', 'N'],
        seq!['A', 'U', 'X'],
        seq!['N', 'U', 'L'],
        seq!['C', 'O', 'M', '1'],
        seq!['C', 'O', 'M', '2'],
        seq!['C', 'O', 'M', '3'],
        seq!['C', 'O', 'M', '4'],
        seq!['C', 'O', 'M', '5'],
        seq!['C', 'O', 'M', '6'],
        seq!['C', 'O', 'M', '7'],
        seq!['C', 'O', 'M', '8'],
        seq!['C', 'O', 'M', '9'],
        seq!['L', 'P', 'T', '1'],
        seq!['L', 'P', 'T', '2'],
        seq!['L', 'P', 'T', '3'],
        seq!['L', 'P', 'T', '4'],
        seq!['L', 'P', 'T', '5'],
        seq!['L', 'P', 'T', '6'],
        seq!['L', 'P', 'T', '7'],
        seq!['L', 'P', 'T', '8'],
        seq!['L', 'P', 'T', '9'],
    ]
}

/// Whether `name` is, letter for letter and in this case, a reserved name.
pub open spec fn is_reserved(name: Seq<char>) -> bool {
    reserved_names().contains(name)
}

/// Whether `pattern` stands in `text` at position `at`.
pub open spec fn occurs_at(text: Seq<char>, pattern: Seq<char>, at: int) -> bool {
    &&& 0 <= at
    &&& at + pattern.len() <= text.len()
    &&& text.subrange(at, at + pattern.len()) == pattern
}

/// The first position at or after `from` where `pattern` stands in `text`.
pub open spec fn find_from(text: Seq<char>, pattern: Seq<char>, from: int) -> Option<int>
    decreases text.len() + 1 - from,
{
    if from < 0 || from + pattern.len() > text.len() {
        None
    } else if occurs_at(text, pattern, from) {
        Some(from)
    } else {
        find_from(text, pattern, from + 1)
    }
}

/// `text` with the first occurrence of `pattern` replaced by `with`; `text`
/// itself when `pattern` does not occur.
pub open spec fn replace_first(text: Seq<char>, pattern: Seq<char>, with: Seq<char>) -> Seq<char> {
    match find_from(text, pattern, 0) {
        Some(at) => text.take(at) + with + text.skip(at + pattern.len()),
        None => text,
    }
}

/// The safe name made from `text`.
pub open spec fn sanitized(text: Seq<char>) -> Seq<char> {
    let clean = cleaned(text);
    if is_reserved(stem(clean)) {
        replace_first(clean, stem(clean), underscore())
    } else {
        clean
    }
}

/// No forbidden character and no control character anywhere in `text`.
pub open spec fn is_clean(text: Seq<char>) -> bool {
    forall|i: int| 0 <= i < text.len() ==> !is_forbidden(#[trigger] text[i]) && !is_control(text[i])
}

/// What a path segment promises: clean text whose stem is no reserved name.
pub open spec fn is_path_segment(text: Seq<char>) -> bool {
    is_clean(text) && !is_reserved(stem(text))
}

/// A reserved name has three or four letters of a fixed shape.
pub open spec fn has_reserved_shape(name: Seq<char>) -> bool {
    ||| {
        &&& name.len() == 3
        &&& {
            ||| (name[0] == 'C' && name[1] == 'O' && name[2] == 'N')
            ||| (name[0] == 'P' && name[1] == 'R' && name[2] == 'N')
            ||| (name[0] == 'A' && name[1] == 'U' && name[2] == 'X')
            ||| (name[0] == 'N' && name[1] == 'U' && name[2] == 'L')
        }
    }
    ||| {
        &&& name.len() == 4
        &&& {
            ||| (name[0] == 'C' && name[1] == 'O' && name[2] == 'M')
            ||| (name[0] == 'L' && name[1] == 'P' && name[2] == 'T')
        }
        &&& '1' <= name[3] <= '9'
    }
}

/// The list of reserved names and the shape say the same.
pub proof fn lemma_reserved_shape(name: Seq<char>)
    ensures
        is_reserved(name) <==> has_reserved_shape(name),
{
    let names = reserved_names();
    if is_reserved(name) {
        let i = choose|i: int| 0 <= i < names.len() && names[i] == name;
        assert(names[i] == name);
        assert(has_reserved_shape(names[i]));
    }
    if has_reserved_shape(name) {
        if name.len() == 3 {
            let i: int = if name[0] == 'C' {
                0
            } else if name[0] == 'P' {
                1
            } else if name[0] == 'A' {
                2
            } else {
                3
            };
            assert(names[i] =~= name);
        } else {
            let digit = name[3] as int - '1' as int;
            let i: int = if name[0] == 'C' {
                4 + digit
            } else {
                13 + digit
            };
            assert(names[i] =~= name);
        }
    }
}

/// Dropping control characters goes through the text one character at a time.
pub proof fn lemma_strip_push(text: Seq<char>, c: char)
    ensures
        strip_controls(text.push(c)) == if is_control(c) {
            strip_controls(text)
        } else {
            strip_controls(text).push(c)
        },
{
    reveal(Seq::filter);
    assert(text.push(c).drop_last() =~= text);
}

/// Cleaning goes through the text one character at a time.
pub proof fn lemma_cleaned_push(text: Seq<char>, c: char)
    ensures
        cleaned(text.push(c)) == if is_forbidden(c) {
            cleaned(text).push('_')
        } else if is_control(c) {
            cleaned(text)
        } else {
            cleaned(text).push(c)
        },
{
    let d = if is_forbidden(c) {
        '_'
    } else {
        c
    };
    assert(replace_forbidden(text.push(c)) =~= replace_forbidden(text).push(d));
    lemma_strip_push(replace_forbidden(text), d);
}

/// Cleaned text holds no forbidden and no control character.
pub proof fn lemma_cleaned_is_clean(text: Seq<char>)
    ensures
        is_clean(cleaned(text)),
    decreases text.len(),
{
    if text.len() == 0 {
        assert(text =~= Seq::<char>::empty());
        reveal(Seq::filter);
        assert(replace_forbidden(text) =~= Seq::<char>::empty());
    } else {
        lemma_cleaned_is_clean(text.drop_last());
        lemma_cleaned_push(text.drop_last(), text.last());
        assert(text.drop_last().push(text.last()) =~= text);
    }
}

/// Cleaning leaves clean text as it is.
pub proof fn lemma_cleaned_of_clean(text: Seq<char>)
    requires
        is_clean(text),
    ensures
        cleaned(text) == text,
    decreases text.len(),
{
    if text.len() == 0 {
        assert(text =~= Seq::<char>::empty());
        reveal(Seq::filter);
        assert(replace_forbidden(text) =~= Seq::<char>::empty());
    } else {
        let front = text.drop_last();
        assert forall|i: int| 0 <= i < front.len() implies !is_forbidden(#[trigger] front[i])
            && !is_control(front[i]) by {
            assert(front[i] == text[i]);
        }
        lemma_cleaned_of_clean(front);
        lemma_cleaned_push(front, text.last());
        assert(front.push(text.last()) =~= text);
    }
}

/// Where the first dot is: no dot before it, and a dot there unless the
/// text ends first.
pub proof fn lemma_first_dot(text: Seq<char>, from: int)
    requires
        0 <= from <= text.len(),
    ensures
        from <= first_dot_from(text, from) <= text.len(),
        forall|i: int| from <= i < first_dot_from(text, from) ==> text[i] != '.',
        first_dot_from(text, from) < text.len() ==> text[first_dot_from(text, from)] == '.',
    decreases text.len() - from,
{
    if from < text.len() && text[from] != '.' {
        lemma_first_dot(text, from + 1);
    }
}

/// The first dot is the only position with no dot before it and a dot, or
/// the end, at it.
pub proof fn lemma_first_dot_unique(text: Seq<char>, at: int)
    requires
        0 <= at <= text.len(),
        forall|i: int| 0 <= i < at ==> text[i] != '.',
        at < text.len() ==> text[at] == '.',
    ensures
        first_dot_from(text, 0) == at,
{
    lemma_first_dot(text, 0);
    let found = first_dot_from(text, 0);
    if found < at {
        assert(text[found] == '.');
    } else if at < found {
        assert(text[at] == '.');
    }
}

/// The stem of a text occurs in it first at the very start, so replacing the
/// first occurrence of the stem replaces the stem itself.
pub proof fn lemma_stem_replaced_in_place(text: Seq<char>, with: Seq<char>)
    ensures
        find_from(text, stem(text), 0) == Some(0int),
        replace_first(text, stem(text), with) == with + text.skip(first_dot_from(text, 0)),
{
    lemma_first_dot(text, 0);
    let dot = first_dot_from(text, 0);
    assert(text.subrange(0, 0int + stem(text).len()) =~= stem(text));
    assert(occurs_at(text, stem(text), 0));
    assert(text.take(0) + with + text.skip(0int + stem(text).len()) =~= with + text.skip(dot));
}

/// What sanitizing gives, said without a search: the cleaned text, with a
/// reserved stem turned into one underscore.
pub proof fn lemma_sanitized_shape(text: Seq<char>)
    ensures
        sanitized(text) == if is_reserved(stem(cleaned(text))) {
            underscore() + cleaned(text).skip(first_dot_from(cleaned(text), 0))
        } else {
            cleaned(text)
        },
{
    lemma_stem_replaced_in_place(cleaned(text), underscore());
}

/// Every sanitized text is a path segment: it holds none of the nine
/// forbidden characters and no control code, and its stem is not reserved.
pub proof fn lemma_sanitized_is_path_segment(text: Seq<char>)
    ensures
        is_path_segment(sanitized(text)),
        forall|i: int|
            0 <= i < sanitized(text).len() ==> !is_forbidden(#[trigger] sanitized(text)[i])
                && !is_control(sanitized(text)[i]),
{
    let clean = cleaned(text);
    let out = sanitized(text);
    lemma_cleaned_is_clean(text);
    lemma_sanitized_shape(text);
    lemma_first_dot(clean, 0);
    if is_reserved(stem(clean)) {
        let dot = first_dot_from(clean, 0);
        assert forall|i: int| 0 <= i < out.len() implies !is_forbidden(#[trigger] out[i])
            && !is_control(out[i]) by {
            if i > 0 {
                assert(out[i] == clean[dot + i - 1]);
            }
        }
        assert(out.len() == 1 || out[1] == '.') by {
            if out.len() > 1 {
                assert(out[1] == clean[dot]);
            }
        }
        lemma_first_dot_unique(out, 1);
        assert(stem(out) =~= underscore());
        lemma_reserved_shape(stem(out));
    }
}

/// A text that is already a path segment is left as it is.
pub proof fn lemma_sanitized_fixed_point(text: Seq<char>)
    requires
        is_path_segment(text),
    ensures
        sanitized(text) == text,
        sanitized(sanitized(text)) == sanitized(text),
{
    lemma_cleaned_of_clean(text);
}

/// The empty text stays empty.
pub proof fn lemma_sanitized_empty()
    ensures
        sanitized(Seq::<char>::empty()) == Seq::<char>::empty(),
{
    let empty = Seq::<char>::empty();
    assert(stem(empty) =~= empty);
    lemma_reserved_shape(empty);
    lemma_sanitized_fixed_point(empty);
}

/// Sanitizing twice gives what sanitizing once gives.
pub proof fn lemma_sanitized_idempotent(text: Seq<char>)
    ensures
        sanitized(sanitized(text)) == sanitized(text),
{
    lemma_sanitized_is_path_segment(text);
    lemma_sanitized_fixed_point(sanitized(text));
}

/// Whether `c` is one of the nine forbidden characters.
pub fn is_forbidden_char(c: char) -> (b: bool)
    ensures
        b == is_forbidden(c),
{
    c == '<' || c == '>' || c == ':' || c == '"' || c == '/' || c == '\\' || c == '|' || c == '?'
        || c == '*'
}

/// Whether `c` is an ASCII control code.
pub fn is_control_char(c: char) -> (b: bool)
    ensures
        b == is_control(c),
{
    c <= '\u{1f}'
}

/// The characters of `text` after the first two steps.
fn clean_chars(text: &str) -> (out: Vec<char>)
    ensures
        out@ == cleaned(text@),
{
    let mut out: Vec<char> = Vec::new();
    proof {
        reveal(Seq::filter);
        assert(text@.take(0) =~= Seq::<char>::empty());
        assert(replace_forbidden(text@.take(0)) =~= Seq::<char>::empty());
    }
    for c in it: text.chars()
        invariant
            it.seq() == text@,
            out@ == cleaned(text@.take(it.index())),
    {
        proof {
            lemma_cleaned_push(text@.take(it.index()), c);
            assert(text@.take(it.index() + 1) =~= text@.take(it.index()).push(c));
        }
        if is_forbidden_char(c) {
            out.push('_');
        } else if !is_control_char(c) {
            out.push(c);
        }
    }
    assert(text@.take(text@.len() as int) =~= text@);
    out
}

/// The length of the stem of `chars`.
fn stem_len(chars: &Vec<char>) -> (n: usize)
    ensures
        n == first_dot_from(chars@, 0),
        n <= chars.len(),
{
    let mut i: usize = 0;
    while i < chars.len() && chars[i] != '.'
        invariant
            i <= chars.len(),
            forall|j: int| 0 <= j < i ==> chars@[j] != '.',
        decreases chars.len() - i,
    {
        i = i + 1;
    }
    proof {
        lemma_first_dot_unique(chars@, i as int);
    }
    i
}

/// Whether the first `n` characters of `chars` spell a reserved name.
fn is_reserved_prefix(chars: &Vec<char>, n: usize) -> (b: bool)
    requires
        n <= chars.len(),
    ensures
        b == is_reserved(chars@.take(n as int)),
{
    proof {
        lemma_reserved_shape(chars@.take(n as int));
    }
    if n == 3 {
        let (a, b, c) = (chars[0], chars[1], chars[2]);
        (a == 'C' && b == 'O' && c == 'N') || (a == 'P' && b == 'R' && c == 'N') || (a == 'A' && b
            == 'U' && c == 'X') || (a == 'N' && b == 'U' && c == 'L')
    } else if n == 4 {
        let (a, b, c, d) = (chars[0], chars[1], chars[2], chars[3]);
        ((a == 'C' && b == 'O' && c == 'M') || (a == 'L' && b == 'P' && c == 'T')) && '1' <= d
            && d <= '9'
    } else {
        false
    }
}

/// Makes a tag value safe to use as one component of a path.
///
/// Forbidden characters become underscores, control characters are dropped,
/// and a reserved device name standing as the stem gives way to a single
/// underscore. Nothing else is changed: the empty text stays empty.
pub fn normalize_path_entry(path_entry: &str) -> (result: String)
    ensures
        result@ == sanitized(path_entry@),
        is_path_segment(result@),
{
    let chars = clean_chars(path_entry);
    let dot = stem_len(&chars);
    let mut result = String::new();
    proof {
        lemma_sanitized_shape(path_entry@);
        lemma_sanitized_is_path_segment(path_entry@);
    }
    if is_reserved_prefix(&chars, dot) {
        result.push('_');
        push_chars_from(&mut result, &chars, dot);
        assert(result@ =~= underscore() + chars@.skip(dot as int));
    } else {
        push_chars_from(&mut result, &chars, 0);
        assert(result@ =~= chars@);
    }
    result
}

} // verus!
