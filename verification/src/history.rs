//! Lines that the user submits: what becomes of them, and the history that
//! keeps them.
use vstd::prelude::*;
use vstd::string::*;

use crate::output::{input_lines, OutputState};
use crate::text::{
    lemma_lines_append, lemma_texts_push, lines, lines_of, starts_with_char, texts, trim, trimmed,
    trimmed_end, trimmed_start, whitespace, without_cr,
};

verus! {

/// The lines of a history that are not blank, without white space around them.
pub open spec fn history_entries(rows: Seq<Seq<char>>) -> Seq<Seq<char>>
    decreases rows.len(),
{
    if rows.len() == 0 {
        seq![]
    } else {
        let rest = history_entries(rows.drop_last());
        let entry = trimmed(rows.last());
        if entry.len() == 0 {
            rest
        } else {
            rest.push(entry)
        }
    }
}

/// Reads the entries of a history.
pub fn load_history(content: &str) -> (r: Vec<String>)
    ensures
        texts(r@) == history_entries(lines_of(content@)),
{
    let rows = lines(content);
    let mut r: Vec<String> = Vec::new();
    let mut i: usize = 0;
    let ghost all = texts(rows@);
    while i < rows.len()
        invariant
            i <= rows@.len(),
            all == texts(rows@),
            texts(r@) == history_entries(all.take(i as int)),
        decreases rows.len() - i,
    {
        assert(all.take(i + 1).drop_last() =~= all.take(i as int));
        let entry = trim(rows[i].as_str());
        if !entry.is_empty() {
            let ghost before = r@;
            let s = entry.to_string();
            r.push(s);
            proof {
                lemma_texts_push(before, s);
            }
        }
        i += 1;
    }
    assert(all.take(rows@.len() as int) =~= all);
    r
}

/// What becomes of a line that was submitted; its text is of the type `T`.
#[derive(Debug, PartialEq, Eq)]
pub enum Submission<T> {
    /// It is passed over.
    Ignored,
    /// It is a note: kept in the history, and echoed.
    Note(T),
    /// It is kept in the history, and carried out.
    Accepted(T),
}

impl View for Submission<String> {
    type V = Submission<Seq<char>>;

    open spec fn view(&self) -> Submission<Seq<char>> {
        match *self {
            Submission::Ignored => Submission::Ignored,
            Submission::Note(t) => Submission::Note(t@),
            Submission::Accepted(t) => Submission::Accepted(t@),
        }
    }
}

/// What becomes of a line: blank lines and those behind a backslash are passed
/// over, and those behind a hash are notes.
pub open spec fn submission(line: Seq<char>) -> Submission<Seq<char>> {
    let text = trimmed(line);
    if text.len() == 0 || text[0] == '\\' {
        Submission::Ignored
    } else if text[0] == '#' {
        Submission::Note(text)
    } else {
        Submission::Accepted(text)
    }
}

/// Tells what becomes of a line that was submitted.
pub fn classify_submission(line: &str) -> (r: Submission<String>)
    ensures
        r@ == submission(line@),
{
    let text = trim(line);
    if text.is_empty() || starts_with_char(text, '\\') {
        Submission::Ignored
    } else if starts_with_char(text, '#') {
        Submission::Note(text.to_string())
    } else {
        Submission::Accepted(text.to_string())
    }
}

/// The entry that a line adds to the history.
pub open spec fn recorded(line: Seq<char>) -> Option<Seq<char>> {
    match submission(line) {
        Submission::Ignored => None,
        Submission::Note(text) => Some(text),
        Submission::Accepted(text) => Some(text),
    }
}

/// A line as it is echoed.
pub open spec fn echo(text: Seq<char>) -> Seq<char> {
    "> "@ + text
}

/// Writes a line as it is echoed.
pub fn echo_line(text: &str) -> (r: String)
    ensures
        r@ == echo(text@),
{
    let mut r = "> ".to_string();
    r.append(text);
    r
}

/// Takes a line over into the history, and echoes a note. The entry that is to
/// be added to the file of the history comes first in the result, and then what
/// is to be carried out.
pub fn prepare_submitted_input(
    line: &str,
    history: &mut Vec<String>,
    output_state: &mut OutputState,
) -> (r: (Option<String>, Option<String>))
    requires
        old(output_state).wf(),
    ensures
        final(output_state).wf(),
        crate::text::opt_text(r.0) == recorded(line@),
        crate::text::opt_text(r.1) == (match submission(line@) {
            Submission::Accepted(text) => Some(text),
            _ => None,
        }),
        texts(final(history)@) == (match recorded(line@) {
            Some(text) => texts(old(history)@).push(text),
            None => texts(old(history)@),
        }),
        final(output_state)@ == (match submission(line@) {
            Submission::Note(text) => old(output_state)@.extended(input_lines(echo(text))).at_end(),
            _ => old(output_state)@,
        }),
{
    match classify_submission(line) {
        Submission::Ignored => (None, None),
        Submission::Note(text) => {
            let entry = text.clone();
            history.push(entry);
            proof {
                lemma_texts_push(old(history)@, entry);
            }
            let shown = echo_line(text.as_str());
            output_state.push_input(shown.as_str());
            output_state.reset_scroll();
            (Some(text), None)
        },
        Submission::Accepted(text) => {
            let entry = text.clone();
            history.push(entry);
            proof {
                lemma_texts_push(old(history)@, entry);
            }
            let again = text.clone();
            (Some(text), Some(again))
        },
    }
}

/// An entry as it is written to the file of the history: a line of its own.
pub fn history_line(entry: &str) -> (r: String)
    ensures
        r@ == entry@.push('\n'),
{
    let mut r = entry.to_string();
    r.push('\n');
    r
}

proof fn lemma_trimmed_ends(s: Seq<char>)
    ensures
        trimmed_end(s).len() > 0 ==> !whitespace(trimmed_end(s).last()),
        s.len() > 0 && !whitespace(s[0]) ==> trimmed_end(s).len() > 0 && trimmed_end(s)[0] == s[0],
    decreases s.len(),
{
    if s.len() > 0 && whitespace(s.last()) {
        lemma_trimmed_ends(s.drop_last());
    }
}

proof fn lemma_trimmed_start(s: Seq<char>)
    ensures
        trimmed_start(s).len() > 0 ==> !whitespace(trimmed_start(s)[0]),
    decreases s.len(),
{
    if s.len() > 0 && whitespace(s[0]) {
        lemma_trimmed_start(s.drop_first());
    }
}

/// A text without white space around it stays as it is.
proof fn lemma_trimmed_once(s: Seq<char>)
    ensures
        trimmed(trimmed(s)) == trimmed(s),
        trimmed(s).len() > 0 ==> !whitespace(trimmed(s).last()),
{
    let a = trimmed_start(s);
    let t = trimmed_end(a);
    lemma_trimmed_start(s);
    lemma_trimmed_ends(a);
    if t.len() > 0 {
        if a.len() == 0 {
            assert(trimmed_end(a) =~= a);
        }
        assert(t[0] == a[0]);
    }
}

/// What is written to the history comes back from it: an entry that is added to
/// a file of whole lines is its last one, behind all entries before.
pub proof fn law_recorded_entries_come_back(content: Seq<char>, line: Seq<char>, entry: Seq<char>)
    requires
        content.len() == 0 || content.last() == '\n',
        recorded(line) == Some(entry),
        !entry.contains('\n'),
    ensures
        history_entries(lines_of(content + entry.push('\n'))) == history_entries(
            lines_of(content),
        ).push(entry),
{
    lemma_trimmed_once(line);
    assert(whitespace('\r'));
    assert(without_cr(entry) == entry);
    lemma_lines_append(content, entry);
    let rows = lines_of(content).push(entry);
    assert(rows.drop_last() =~= lines_of(content));
}

} // verus!
