//! Keys: what each of them does to the line, the transcript and the client.
use vstd::prelude::*;
use vstd::string::*;

use crate::client::{wait_effect, ConsoleView, WaitStep};
use crate::events::{
    event_effect, EditorView, InputEvent, InputEventResult, InputResult, KeyCode, KeyEventKind,
    KeyModifiers,
};
use crate::input::{
    ink_flags, run_end, run_start, word_char, word_end, word_flags, word_start, InputView,
};
use crate::output::TranscriptLine;
use crate::text::whitespace;

verus! {

/// No modifier.
pub open spec fn bare() -> KeyModifiers {
    KeyModifiers { shift: false, control: false, alt: false, others: false }
}

/// Control alone.
pub open spec fn with_control() -> KeyModifiers {
    KeyModifiers { shift: false, control: true, alt: false, others: false }
}

/// Alt alone.
pub open spec fn with_alt() -> KeyModifiers {
    KeyModifiers { shift: false, control: false, alt: true, others: false }
}

/// Shift alone.
pub open spec fn with_shift() -> KeyModifiers {
    KeyModifiers { shift: true, control: false, alt: false, others: false }
}

/// What the press of a key does.
pub open spec fn pressed(
    v: EditorView,
    code: KeyCode,
    modifiers: KeyModifiers,
    history: Seq<Seq<char>>,
    now: u64,
    rows: int,
) -> (EditorView, InputEventResult<Seq<char>>) {
    event_effect(v, InputEvent::Key(code, modifiers, KeyEventKind::Press), history, now, rows)
}

/// The line that a key leaves, where editing goes on: everything else is as it
/// was, but the exit is disarmed.
pub open spec fn leaves_line(
    r: (EditorView, InputEventResult<Seq<char>>),
    v: EditorView,
    before: Seq<char>,
    after: Seq<char>,
) -> bool {
    &&& r.0.input.before == before
    &&& r.0.input.after == after
    &&& r.0.output == v.output
    &&& r.0.last_interrupt is None
    &&& r.1.outcome is None
    &&& r.1.redraw
    &&& !r.1.wants_completion
}

/// A character is typed at the cursor, with Shift or without; text that is
/// pasted is typed whole.
pub proof fn law_characters_are_typed_at_the_cursor(
    v: EditorView,
    c: char,
    text: Seq<char>,
    history: Seq<Seq<char>>,
    now: u64,
    rows: int,
)
    ensures
        leaves_line(
            pressed(v, KeyCode::Char(c), bare(), history, now, rows),
            v,
            v.input.before.push(c),
            v.input.after,
        ),
        leaves_line(
            pressed(v, KeyCode::Char(c), with_shift(), history, now, rows),
            v,
            v.input.before.push(c),
            v.input.after,
        ),
        leaves_line(
            event_effect(v, InputEvent::Paste(text), history, now, rows),
            v,
            v.input.before + text,
            v.input.after,
        ),
{
    assert(v.input.before + seq![c] =~= v.input.before.push(c));
}

/// Backspace takes the character before the cursor, Delete and Ctrl+D the one
/// behind it; at the ends they take nothing.
pub proof fn law_erasing_takes_one_character(
    v: EditorView,
    a: Seq<char>,
    b: Seq<char>,
    c: char,
    history: Seq<Seq<char>>,
    now: u64,
    rows: int,
)
    ensures
        v.input.before == a.push(c) && v.input.after == b ==> leaves_line(
            pressed(v, KeyCode::Backspace, bare(), history, now, rows),
            v,
            a,
            b,
        ),
        v.input.before == a && v.input.after == seq![c] + b ==> leaves_line(
            pressed(v, KeyCode::Delete, bare(), history, now, rows),
            v,
            a,
            b,
        ),
        v.input.before == a && v.input.after == seq![c] + b ==> leaves_line(
            pressed(v, KeyCode::Char('d'), with_control(), history, now, rows),
            v,
            a,
            b,
        ),
        v.input.before.len() == 0 ==> leaves_line(
            pressed(v, KeyCode::Backspace, bare(), history, now, rows),
            v,
            v.input.before,
            v.input.after,
        ),
        v.input.after.len() == 0 ==> leaves_line(
            pressed(v, KeyCode::Delete, bare(), history, now, rows),
            v,
            v.input.before,
            v.input.after,
        ),
{
    assert(a.push(c).drop_last() =~= a);
    assert((seq![c] + b).drop_first() =~= b);
}

/// The arrows move the cursor over one character and keep the text; at the ends
/// they stay.
pub proof fn law_arrows_move_over_one_character(
    v: EditorView,
    a: Seq<char>,
    b: Seq<char>,
    c: char,
    history: Seq<Seq<char>>,
    now: u64,
    rows: int,
)
    ensures
        v.input.before == a.push(c) && v.input.after == b ==> leaves_line(
            pressed(v, KeyCode::Left, bare(), history, now, rows),
            v,
            a,
            seq![c] + b,
        ),
        v.input.before == a && v.input.after == seq![c] + b ==> leaves_line(
            pressed(v, KeyCode::Right, bare(), history, now, rows),
            v,
            a.push(c),
            b,
        ),
        v.input.before.len() == 0 ==> leaves_line(
            pressed(v, KeyCode::Left, bare(), history, now, rows),
            v,
            v.input.before,
            v.input.after,
        ),
        v.input.after.len() == 0 ==> leaves_line(
            pressed(v, KeyCode::Right, bare(), history, now, rows),
            v,
            v.input.before,
            v.input.after,
        ),
{
    let left = a.push(c) + b;
    assert(left.take(a.len() as int) =~= a);
    assert(left.skip(a.len() as int) =~= seq![c] + b);
    let right = a + (seq![c] + b);
    assert(right.take(a.len() as int + 1) =~= a.push(c));
    assert(right.skip(a.len() as int + 1) =~= b);
}

/// Home and Ctrl+A put the cursor before the text, End and Ctrl+E behind it.
pub proof fn law_home_and_end(v: EditorView, history: Seq<Seq<char>>, now: u64, rows: int)
    ensures
        ({
            let all = v.input.before + v.input.after;
            let none = Seq::<char>::empty();
            &&& leaves_line(pressed(v, KeyCode::Home, bare(), history, now, rows), v, none, all)
            &&& leaves_line(pressed(v, KeyCode::End, bare(), history, now, rows), v, all, none)
            &&& leaves_line(
                pressed(v, KeyCode::Char('a'), with_control(), history, now, rows),
                v,
                none,
                all,
            )
            &&& leaves_line(
                pressed(v, KeyCode::Char('e'), with_control(), history, now, rows),
                v,
                all,
                none,
            )
        }),
{
    let all = v.input.before + v.input.after;
    assert(all.take(0) =~= Seq::<char>::empty());
    assert(all.skip(0) =~= all);
    assert(all.take(all.len() as int) =~= all);
    assert(all.skip(all.len() as int) =~= Seq::<char>::empty());
}

/// Ctrl+K erases what stands behind the cursor, Ctrl+U what stands before it.
pub proof fn law_kill_keys_erase_one_side(
    v: EditorView,
    history: Seq<Seq<char>>,
    now: u64,
    rows: int,
)
    ensures
        leaves_line(
            pressed(v, KeyCode::Char('k'), with_control(), history, now, rows),
            v,
            v.input.before,
            seq![],
        ),
        leaves_line(
            pressed(v, KeyCode::Char('u'), with_control(), history, now, rows),
            v,
            seq![],
            v.input.after,
        ),
{
}

/// Whether a text, from a position on, is a run of characters of words and then
/// a run of others, and no longer run of characters of words ends there.
pub open spec fn last_word_is_at(s: Seq<char>, start: int, end: int) -> bool {
    &&& 0 <= start <= end <= s.len()
    &&& forall|i: int| start <= i < end ==> word_char(#[trigger] s[i])
    &&& forall|i: int| end <= i < s.len() ==> !word_char(#[trigger] s[i])
    &&& start > 0 ==> !word_char(s[start - 1])
    &&& start == end ==> start == 0
}

/// Whether a text, up to a position, is a run of characters that belong to no
/// word and then a run of characters of words, and no longer one begins there.
pub open spec fn first_word_is_at(s: Seq<char>, start: int, end: int) -> bool {
    &&& 0 <= start <= end <= s.len()
    &&& forall|i: int| 0 <= i < start ==> !word_char(#[trigger] s[i])
    &&& forall|i: int| start <= i < end ==> word_char(#[trigger] s[i])
    &&& end < s.len() ==> !word_char(s[end])
    &&& start == end ==> end == s.len()
}

proof fn lemma_run_start(flags: Seq<bool>, k: bool)
    ensures
        0 <= run_start(flags, k) <= flags.len(),
        forall|i: int| run_start(flags, k) <= i < flags.len() ==> #[trigger] flags[i] == k,
        run_start(flags, k) > 0 ==> flags[run_start(flags, k) - 1] != k,
    decreases flags.len(),
{
    if flags.len() > 0 && flags.last() == k {
        lemma_run_start(flags.drop_last(), k);
        assert forall|i: int| run_start(flags, k) <= i < flags.len() implies #[trigger] flags[i]
            == k by {
            if i < flags.len() - 1 {
                assert(flags.drop_last()[i] == flags[i]);
            }
        }
    }
}

proof fn lemma_run_end(flags: Seq<bool>, k: bool)
    ensures
        0 <= run_end(flags, k) <= flags.len(),
        forall|i: int| 0 <= i < run_end(flags, k) ==> #[trigger] flags[i] == k,
        run_end(flags, k) < flags.len() ==> flags[run_end(flags, k)] != k,
    decreases flags.len(),
{
    if flags.len() > 0 && flags[0] == k {
        lemma_run_end(flags.drop_first(), k);
        assert forall|i: int| 0 <= i < run_end(flags, k) implies #[trigger] flags[i] == k by {
            if i > 0 {
                assert(flags.drop_first()[i - 1] == flags[i]);
            }
        }
    }
}

proof fn lemma_word_start(s: Seq<char>)
    ensures
        last_word_is_at(s, word_start(word_flags(s)), run_start(word_flags(s), false)),
{
    let flags = word_flags(s);
    let end = run_start(flags, false);
    lemma_run_start(flags, false);
    let head = flags.take(end);
    lemma_run_start(head, true);
    let start = run_start(head, true);
    assert forall|i: int| start <= i < end implies word_char(#[trigger] s[i]) by {
        assert(head[i] == flags[i]);
        assert(flags[i] == word_char(s[i]));
    }
    assert forall|i: int| end <= i < s.len() implies !word_char(#[trigger] s[i]) by {
        assert(flags[i] == word_char(s[i]));
    }
    if start > 0 {
        assert(head[start - 1] == flags[start - 1]);
    }
    if start == end && start > 0 {
        assert(flags[end - 1] != false);
        assert(head[start - 1] != true);
    }
}

proof fn lemma_word_end(s: Seq<char>)
    ensures
        first_word_is_at(s, run_end(word_flags(s), false), word_end(word_flags(s))),
{
    let flags = word_flags(s);
    let start = run_end(flags, false);
    lemma_run_end(flags, false);
    let tail = flags.skip(start);
    lemma_run_end(tail, true);
    let end = start + run_end(tail, true);
    assert forall|i: int| 0 <= i < start implies !word_char(#[trigger] s[i]) by {
        assert(flags[i] == word_char(s[i]));
    }
    assert forall|i: int| start <= i < end implies word_char(#[trigger] s[i]) by {
        assert(tail[i - start] == flags[i]);
        assert(flags[i] == word_char(s[i]));
    }
    if end < s.len() {
        assert(tail[end - start] == flags[end]);
    }
    if start == end && end < s.len() {
        assert(flags[start] != false);
        assert(tail[0] == flags[start]);
    }
}

/// Ctrl and an arrow move the cursor over a word and keep the text: to the left
/// to the start of the last word before it, to the right to the end of the first
/// word behind it.
pub proof fn law_control_arrows_move_over_a_word(
    v: EditorView,
    history: Seq<Seq<char>>,
    now: u64,
    rows: int,
)
    ensures
        ({
            let left = pressed(v, KeyCode::Left, with_control(), history, now, rows);
            let right = pressed(v, KeyCode::Right, with_control(), history, now, rows);
            let a = left.0.input.before;
            let b = right.0.input.after;
            let all = v.input.before + v.input.after;
            &&& leaves_line(left, v, all.take(a.len() as int), all.skip(a.len() as int))
            &&& a.len() <= v.input.before.len()
            &&& exists|end: int| #[trigger]
                last_word_is_at(v.input.before, a.len() as int, end)
            &&& leaves_line(right, v, all.take(all.len() - b.len()), all.skip(all.len() - b.len()))
            &&& b.len() <= v.input.after.len()
            &&& exists|start: int| #[trigger]
                first_word_is_at(v.input.after, start, v.input.after.len() - b.len())
        }),
{
    let before = v.input.before;
    let after = v.input.after;
    let all = before + after;
    lemma_word_start(before);
    lemma_word_end(after);
    let start = word_start(word_flags(before));
    let end = word_end(word_flags(after));
    assert(all.take(before.len() as int) =~= before);
    assert(all.skip(before.len() as int) =~= after);
    let left = pressed(v, KeyCode::Left, with_control(), history, now, rows);
    let right = pressed(v, KeyCode::Right, with_control(), history, now, rows);
    assert(left.0.input.before.len() == start);
    assert(right.0.input.after.len() == after.len() - end);
    assert(last_word_is_at(before, start, run_start(word_flags(before), false)));
    assert(first_word_is_at(after, run_end(word_flags(after), false), end));
    assert(leaves_line(left, v, all.take(start), all.skip(start)));
    let b = right.0.input.after.len();
    assert(all.len() - b == before.len() + end);
    assert(leaves_line(right, v, all.take(before.len() + end), all.skip(before.len() + end)));
    assert(after.len() - b == end);
}

/// Alt+Backspace erases exactly what Ctrl and the left arrow move over, Alt+D what
/// Ctrl and the right arrow move over.
pub proof fn law_alt_erases_what_control_moves_over(
    v: EditorView,
    history: Seq<Seq<char>>,
    now: u64,
    rows: int,
)
    ensures
        ({
            let left = pressed(v, KeyCode::Left, with_control(), history, now, rows).0.input;
            let right = pressed(v, KeyCode::Right, with_control(), history, now, rows).0.input;
            &&& leaves_line(
                pressed(v, KeyCode::Backspace, with_alt(), history, now, rows),
                v,
                left.before,
                v.input.after,
            )
            &&& leaves_line(
                pressed(v, KeyCode::Char('d'), with_alt(), history, now, rows),
                v,
                v.input.before,
                right.after,
            )
            &&& leaves_line(
                pressed(v, KeyCode::Char('D'), with_alt(), history, now, rows),
                v,
                v.input.before,
                right.after,
            )
        }),
{
    let before = v.input.before;
    let after = v.input.after;
    let all = before + after;
    lemma_word_start(before);
    lemma_word_end(after);
    let start = word_start(word_flags(before));
    let end = word_end(word_flags(after));
    assert(all.take(start) =~= before.take(start));
    assert(all.skip(before.len() + end) =~= after.skip(end));
}

/// Whether a text, from a position on, is a run of characters that are no white
/// space and then white space, and no longer such run ends there.
pub open spec fn last_ink_is_at(s: Seq<char>, start: int, end: int) -> bool {
    &&& 0 <= start <= end <= s.len()
    &&& forall|i: int| start <= i < end ==> !whitespace(#[trigger] s[i])
    &&& forall|i: int| end <= i < s.len() ==> whitespace(#[trigger] s[i])
    &&& start > 0 ==> whitespace(s[start - 1])
    &&& start == end ==> start == 0
}

/// Ctrl+W erases the white space before the cursor, and what stands before it up
/// to the next white space.
pub proof fn law_control_w_erases_up_to_white_space(
    v: EditorView,
    history: Seq<Seq<char>>,
    now: u64,
    rows: int,
)
    requires
        v.input.before.len() > 0,
    ensures
        ({
            let r = pressed(v, KeyCode::Char('w'), with_control(), history, now, rows);
            let s = v.input.before;
            let n = r.0.input.before.len() as int;
            &&& leaves_line(r, v, s.take(n), v.input.after)
            &&& n < s.len()
            &&& exists|end: int| #[trigger] last_ink_is_at(s, n, end)
        }),
{
    let s = v.input.before;
    let flags = ink_flags(s);
    let end = run_start(flags, false);
    lemma_run_start(flags, false);
    let head = flags.take(end);
    lemma_run_start(head, true);
    let n = run_start(head, true);
    assert forall|i: int| n <= i < end implies !whitespace(#[trigger] s[i]) by {
        assert(head[i] == flags[i]);
        assert(flags[i] == !whitespace(s[i]));
    }
    assert forall|i: int| end <= i < s.len() implies whitespace(#[trigger] s[i]) by {
        assert(flags[i] == !whitespace(s[i]));
    }
    if n > 0 {
        assert(head[n - 1] == flags[n - 1]);
    }
    if n == end && n > 0 {
        assert(flags[end - 1] != false);
        assert(head[n - 1] != true);
    }
    if end == s.len() && n == end {
        assert(s.len() > 0 && n == 0);
    }
    assert(last_ink_is_at(s, n, end));
    let r = pressed(v, KeyCode::Char('w'), with_control(), history, now, rows);
    assert(r.0.input == v.input.without_last_ink());
    assert(r.0.input.before =~= s.take(n));
    assert(r.0.input.after =~= v.input.after);
    assert(r.0.input.before.len() == n);
}

/// The characters of words in ASCII are its letters and digits.
pub proof fn law_ascii_words_are_letters_and_digits(c: char)
    requires
        c <= '\u{7f}',
    ensures
        word_char(c) <==> ('a' <= c <= 'z' || 'A' <= c <= 'Z' || '0' <= c <= '9'),
{
}

/// The arrows up and down show the entries of the history: up the last one
/// first, and from it the one before; down the other way, and behind the last
/// one what was typed.
pub proof fn law_arrows_show_the_history(
    v: EditorView,
    history: Seq<Seq<char>>,
    now: u64,
    rows: int,
)
    requires
        history.len() > 0,
        history.len() <= usize::MAX,
        v.input.history_index matches Some(i) ==> i < history.len(),
    ensures
        ({
            let up = pressed(v, KeyCode::Up, bare(), history, now, rows);
            let down = pressed(v, KeyCode::Down, bare(), history, now, rows);
            let none = Seq::<char>::empty();
            &&& v.input.history_index is None ==> leaves_line(up, v, history.last(), none)
            &&& (v.input.history_index matches Some(i) && i > 0) ==> leaves_line(
                up,
                v,
                history[v.input.history_index.unwrap() - 1],
                none,
            )
            &&& v.input.history_index == Some(0usize) ==> leaves_line(up, v, history[0], none)
            &&& v.input.history_index is None ==> leaves_line(
                down,
                v,
                v.input.before,
                v.input.after,
            )
            &&& (v.input.history_index matches Some(i) && i + 1 < history.len()) ==> leaves_line(
                down,
                v,
                history[v.input.history_index.unwrap() + 1],
                none,
            )
            &&& (v.input.history_index matches Some(i) && i + 1 == history.len()) ==> leaves_line(
                down,
                v,
                v.input.draft,
                none,
            )
        }),
{
}

/// Tab asks for candidates, or steps to the next of those that are there.
pub proof fn law_tab_completes(v: EditorView, history: Seq<Seq<char>>, now: u64, rows: int)
    ensures
        ({
            let r = pressed(v, KeyCode::Tab, bare(), history, now, rows);
            &&& r.1.outcome is None
            &&& r.1.wants_completion <==> v.input.completion is None
            &&& v.input.completion is None ==> r.0.input == v.input
            &&& v.input.completion matches Some(c) ==> r.0.input.before == c.head + c.candidates[(
            c.index + 1) % (c.candidates.len() as int)] && r.0.input.after == c.tail
        }),
{
}

/// What is completed is what was typed behind the start of the completion: the
/// first candidate takes its place, and the rest of the line stays.
pub proof fn law_the_first_candidate_takes_its_place(
    v: InputView,
    head: Seq<char>,
    typed: Seq<char>,
    candidates: Seq<Seq<char>>,
)
    requires
        v.before == head + typed,
        candidates.len() > 0,
    ensures
        ({
            let r = v.first_candidate(head.len() as int, v.before.len() as int, candidates);
            &&& r.before == head + candidates[0]
            &&& r.after == v.after
            &&& r.completion is Some
            &&& v.first_candidate(head.len() as int, v.before.len() as int, seq![]) == v
        }),
{
    let all = v.before + v.after;
    assert(all.take(head.len() as int) =~= head);
    assert(all.skip(v.before.len() as int) =~= v.after);
}

/// Shift and the page keys scroll the transcript by the rows that are visible,
/// and leave the line; without Shift they do nothing.
pub proof fn law_pages_scroll(v: EditorView, history: Seq<Seq<char>>, now: u64, rows: int)
    requires
        1 < rows,
        0 <= v.output.scroll,
        v.output.scroll + rows <= usize::MAX,
    ensures
        ({
            let up = pressed(v, KeyCode::PageUp, with_shift(), history, now, rows);
            let down = pressed(v, KeyCode::PageDown, with_shift(), history, now, rows);
            &&& up.0.output.scroll == v.output.scroll + rows
            &&& up.0.output.lines == v.output.lines
            &&& up.0.input == v.input
            &&& down.0.output.scroll == (if v.output.scroll < rows {
                0
            } else {
                v.output.scroll - rows
            })
            &&& down.0.output.lines == v.output.lines
            &&& down.0.input == v.input
            &&& pressed(v, KeyCode::PageUp, bare(), history, now, rows).0 == v
            &&& pressed(v, KeyCode::PageDown, bare(), history, now, rows).0 == v
        }),
{
}

/// Ctrl+C empties the line and says how to quit; a second one within two seconds
/// quits. A later one asks again.
pub proof fn law_control_c_quits_within_two_seconds(
    v: EditorView,
    history: Seq<Seq<char>>,
    first: u64,
    second: u64,
    rows: int,
)
    requires
        v.last_interrupt is None,
        first <= second,
    ensures
        ({
            let r = pressed(v, KeyCode::Char('c'), with_control(), history, first, rows);
            let again = pressed(r.0, KeyCode::Char('c'), with_control(), history, second, rows);
            &&& r.1.outcome == Some(InputResult::Submitted(Seq::<char>::empty()))
            &&& r.0.input == InputView::blank()
            &&& r.0.output.scroll == 0
            &&& r.0.output.lines.len() > 0
            &&& r.0.output.lines.last() == TranscriptLine::Plain("Press Ctrl+c again to quit"@)
            &&& again.1.outcome == Some(InputResult::<Seq<char>>::Quit) <==> second - first
                <= 2_000_000_000
        }),
{
    let text = "Press Ctrl+c again to quit"@;
    lemma_one_line(text);
    let added = crate::output::plain_lines(text);
    assert(added.len() == 1 && added[0] == TranscriptLine::Plain(text));
}

proof fn lemma_one_line(text: Seq<char>)
    ensures
        text == "Press Ctrl+c again to quit"@ ==> crate::text::lines_of(text) == seq![text],
{
    if text == "Press Ctrl+c again to quit"@ {
        reveal_strlit("Press Ctrl+c again to quit");
        crate::text::lemma_first_index_props(text, '\n');
        assert forall|i: int| 0 <= i < text.len() implies #[trigger] text[i] != '\n' by {
            assert(text.len() == 26);
            assert(i == 0 || i == 1 || i == 2 || i == 3 || i == 4 || i == 5 || i == 6 || i == 7 || i
                == 8 || i == 9 || i == 10 || i == 11 || i == 12 || i == 13 || i == 14 || i == 15
                || i == 16 || i == 17 || i == 18 || i == 19 || i == 20 || i == 21 || i == 22 || i
                == 23 || i == 24 || i == 25);
        }
        crate::text::lemma_first_index(text, '\n', text.len() as int);
        assert(crate::text::split_on(text, '\n') =~= seq![text]);
        assert(crate::text::lines_of(text) =~= seq![text]);
    }
}

/// Enter hands the whole line over, wherever the cursor stands, and only without
/// a modifier; Ctrl+D quits where the line is empty.
pub proof fn law_enter_and_control_d(
    v: EditorView,
    history: Seq<Seq<char>>,
    now: u64,
    rows: int,
)
    ensures
        ({
            let r = pressed(v, KeyCode::Enter, bare(), history, now, rows);
            let d = pressed(v, KeyCode::Char('d'), with_control(), history, now, rows);
            &&& r.1.outcome == Some(InputResult::Submitted(v.input.before + v.input.after))
            &&& r.0.input == InputView::blank()
            &&& d.1.outcome == Some(InputResult::<Seq<char>>::Quit) <==> v.input.before.len() == 0
                && v.input.after.len() == 0
            &&& pressed(v, KeyCode::Enter, with_shift(), history, now, rows).1.outcome is None
        }),
{
}

/// Releasing a key, a key without a meaning and other events do nothing.
pub proof fn law_releases_do_nothing(
    v: EditorView,
    code: KeyCode,
    modifiers: KeyModifiers,
    history: Seq<Seq<char>>,
    now: u64,
    rows: int,
)
    ensures
        ({
            let r = event_effect(
                v,
                InputEvent::Key(code, modifiers, KeyEventKind::Release),
                history,
                now,
                rows,
            );
            &&& r.0 == v
            &&& r.1 == (InputEventResult::<Seq<char>> {
                redraw: false,
                outcome: None,
                wants_completion: false,
            })
            &&& event_effect(v, InputEvent::Other, history, now, rows).0 == v
            &&& pressed(v, KeyCode::Other, modifiers, history, now, rows).0 == v
            &&& pressed(v, KeyCode::Esc, modifiers, history, now, rows).0 == v
        }),
{
}

/// While an answer is awaited, Escape changes nothing by itself; its second press
/// within two seconds cancels the request, and a later one only counts as a
/// first.
pub proof fn law_escape_cancels_within_two_seconds(
    v: ConsoleView,
    modifiers: KeyModifiers,
    first: u64,
    second: u64,
    rows: int,
)
    requires
        first <= second,
    ensures
        ({
            let escape = InputEvent::<Seq<char>>::Key(KeyCode::Esc, modifiers, KeyEventKind::Press);
            let a = wait_effect(v, None, escape, first, rows);
            let b = wait_effect(a.0, a.1, escape, second, rows);
            &&& a.0 == v && b.0 == v
            &&& a.2 == WaitStep::<Seq<char>>::Continue(None, false, false)
            &&& b.2 == WaitStep::<Seq<char>>::Cancel <==> second - first <= 2_000_000_000
        }),
{
}

} // verus!
