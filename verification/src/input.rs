//! The line being edited: text, cursor, history and completion.
use vstd::prelude::*;
use vstd::string::*;
use vstd::utf8::*;

use crate::offset::{
    byte_len, byte_length, char_position, chars_before, is_offset, lemma_chars_before,
    lemma_prefix_boundary,
};
use crate::text::{chars_of, is_whitespace, texts, whitespace};

verus! {

/// Whether a character beyond ASCII is a letter or a number.
pub uninterp spec fn alphanumeric(c: char) -> bool;

/// Whether a character is an ASCII letter or digit.
pub open spec fn ascii_alphanumeric(c: char) -> bool {
    'a' <= c <= 'z' || 'A' <= c <= 'Z' || '0' <= c <= '9'
}

/// The characters that belong to a word.
pub open spec fn word_char(c: char) -> bool {
    if c <= '\u{7f}' {
        ascii_alphanumeric(c)
    } else {
        alphanumeric(c)
    }
}

/// `char::is_alphanumeric` tells letters and numbers by their Unicode
/// properties. Below the end of ASCII these are the letters and the digits;
/// beyond it the property has the name `alphanumeric`.
pub assume_specification[ char::is_alphanumeric ](c: char) -> (r: bool)
    ensures
        r == (if c <= '\u{7f}' {
            ascii_alphanumeric(c)
        } else {
            alphanumeric(c)
        }),
;

/// Tells whether a character belongs to a word. An underscore does not, so
/// motions by words stop inside identifiers and paths.
pub fn is_readline_word_char(ch: char) -> (r: bool)
    ensures
        r == word_char(ch),
        ch == '_' ==> !r,
{
    ch.is_alphanumeric()
}

/// Where the run of `k` at the end of `flags` begins.
pub open spec fn run_start(flags: Seq<bool>, k: bool) -> int
    decreases flags.len(),
{
    if flags.len() > 0 && flags.last() == k {
        run_start(flags.drop_last(), k)
    } else {
        flags.len() as int
    }
}

/// How long the run of `k` at the start of `flags` is.
pub open spec fn run_end(flags: Seq<bool>, k: bool) -> int
    decreases flags.len(),
{
    if flags.len() > 0 && flags[0] == k {
        1 + run_end(flags.drop_first(), k)
    } else {
        0
    }
}

/// Where the last word begins, if `flags` tells which characters belong to
/// words: behind the word comes anything but words.
pub open spec fn word_start(flags: Seq<bool>) -> int {
    run_start(flags.take(run_start(flags, false)), true)
}

/// Where the first word ends, if `flags` tells which characters belong to
/// words: before the word comes anything but words.
pub open spec fn word_end(flags: Seq<bool>) -> int {
    run_end(flags, false) + run_end(flags.skip(run_end(flags, false)), true)
}

/// Which characters of a text belong to words.
pub open spec fn word_flags(s: Seq<char>) -> Seq<bool> {
    s.map_values(|c: char| word_char(c))
}

/// Which characters of a text are not white space.
pub open spec fn ink_flags(s: Seq<char>) -> Seq<bool> {
    s.map_values(|c: char| !whitespace(c))
}

pub proof fn lemma_run_start(flags: Seq<bool>, k: bool)
    ensures
        0 <= run_start(flags, k) <= flags.len(),
        forall|i: int| run_start(flags, k) <= i < flags.len() ==> flags[i] == k,
        run_start(flags, k) > 0 ==> flags[run_start(flags, k) - 1] != k,
    decreases flags.len(),
{
    if flags.len() > 0 && flags.last() == k {
        lemma_run_start(flags.drop_last(), k);
        assert forall|i: int| run_start(flags, k) <= i < flags.len() implies flags[i] == k by {
            if i < flags.len() - 1 {
                assert(flags[i] == flags.drop_last()[i]);
            }
        }
        let p = run_start(flags, k);
        if p > 0 {
            assert(flags[p - 1] == flags.drop_last()[p - 1]);
        }
    }
}

pub proof fn lemma_run_end(flags: Seq<bool>, k: bool)
    ensures
        0 <= run_end(flags, k) <= flags.len(),
        forall|i: int| 0 <= i < run_end(flags, k) ==> flags[i] == k,
        run_end(flags, k) < flags.len() ==> flags[run_end(flags, k)] != k,
    decreases flags.len(),
{
    if flags.len() > 0 && flags[0] == k {
        lemma_run_end(flags.drop_first(), k);
        assert forall|i: int| 0 <= i < run_end(flags, k) implies flags[i] == k by {
            if i > 0 {
                assert(flags[i] == flags.drop_first()[i - 1]);
            }
        }
        let p = run_end(flags, k);
        if p < flags.len() {
            assert(flags[p] == flags.drop_first()[p - 1]);
        }
    }
}

pub proof fn lemma_word_bounds(flags: Seq<bool>)
    ensures
        0 <= word_start(flags) <= flags.len(),
        0 <= word_end(flags) <= flags.len(),
{
    lemma_run_start(flags, false);
    lemma_run_start(flags.take(run_start(flags, false)), true);
    lemma_run_end(flags, false);
    lemma_run_end(flags.skip(run_end(flags, false)), true);
}

fn find_run_start(flags: &Vec<bool>, upto: usize, k: bool) -> (r: usize)
    requires
        upto <= flags@.len(),
    ensures
        r == run_start(flags@.take(upto as int), k),
        r <= upto,
{
    let mut i: usize = upto;
    while i > 0 && flags[i - 1] == k
        invariant
            i <= upto <= flags@.len(),
            run_start(flags@.take(upto as int), k) == run_start(flags@.take(i as int), k),
        decreases i,
    {
        assert(flags@.take(i as int).drop_last() =~= flags@.take(i - 1));
        i -= 1;
    }
    i
}

fn find_run_end(flags: &Vec<bool>, from: usize, k: bool) -> (r: usize)
    requires
        from <= flags@.len(),
    ensures
        r == from + run_end(flags@.skip(from as int), k),
        r <= flags@.len(),
{
    let mut i: usize = from;
    while i < flags.len() && flags[i] == k
        invariant
            from <= i <= flags@.len(),
            from + run_end(flags@.skip(from as int), k) == i + run_end(flags@.skip(i as int), k),
        decreases flags.len() - i,
    {
        assert(flags@.skip(i as int).drop_first() =~= flags@.skip(i + 1));
        i += 1;
    }
    i
}

/// Where the last word begins, for any division of characters into words.
pub fn last_word_start(flags: &Vec<bool>) -> (r: usize)
    ensures
        r == word_start(flags@),
        r <= flags@.len(),
{
    assert(flags@.take(flags@.len() as int) =~= flags@);
    let gap = find_run_start(flags, flags.len(), false);
    find_run_start(flags, gap, true)
}

/// Where the first word ends, for any division of characters into words.
pub fn first_word_end(flags: &Vec<bool>) -> (r: usize)
    ensures
        r == word_end(flags@),
        r <= flags@.len(),
{
    assert(flags@.skip(0) =~= flags@);
    let gap = find_run_end(flags, 0, false);
    find_run_end(flags, gap, true)
}

/// Where the last word of a text begins, counted in characters.
pub fn readline_word_start(before: &str) -> (r: usize)
    ensures
        r == word_start(word_flags(before@)),
        r <= before@.len(),
{
    let flags = flags_of_words(before);
    last_word_start(&flags)
}

/// Where the first word of a text ends, counted in characters.
pub fn readline_word_end(after: &str) -> (r: usize)
    ensures
        r == word_end(word_flags(after@)),
        r <= after@.len(),
{
    let flags = flags_of_words(after);
    first_word_end(&flags)
}

fn flags_of_words(s: &str) -> (r: Vec<bool>)
    ensures
        r@ == word_flags(s@),
{
    let chars = chars_of(s);
    let mut r: Vec<bool> = Vec::new();
    let mut i: usize = 0;
    while i < chars.len()
        invariant
            i <= chars@.len(),
            r@ == word_flags(chars@.take(i as int)),
        decreases chars.len() - i,
    {
        r.push(is_readline_word_char(chars[i]));
        i += 1;
        assert(r@ =~= word_flags(chars@.take(i as int)));
    }
    assert(chars@.take(chars@.len() as int) =~= chars@);
    r
}

fn flags_of_ink(s: &str) -> (r: Vec<bool>)
    ensures
        r@ == ink_flags(s@),
{
    let chars = chars_of(s);
    let mut r: Vec<bool> = Vec::new();
    let mut i: usize = 0;
    while i < chars.len()
        invariant
            i <= chars@.len(),
            r@ == ink_flags(chars@.take(i as int)),
        decreases chars.len() - i,
    {
        r.push(!is_whitespace(chars[i]));
        i += 1;
        assert(r@ =~= ink_flags(chars@.take(i as int)));
    }
    assert(chars@.take(chars@.len() as int) =~= chars@);
    r
}

/// The candidates that Tab steps through, between the text that stays before
/// and behind them.
#[verifier::ext_equal]
pub struct CompletionView {
    pub head: Seq<char>,
    pub tail: Seq<char>,
    pub candidates: Seq<Seq<char>>,
    pub index: int,
}

/// The line being edited, split at the cursor.
#[verifier::ext_equal]
pub struct InputView {
    pub before: Seq<char>,
    pub after: Seq<char>,
    pub completion: Option<CompletionView>,
    pub history_index: Option<usize>,
    pub draft: Seq<char>,
}

impl InputView {
    /// The empty line.
    pub open spec fn blank() -> InputView {
        InputView {
            before: Seq::empty(),
            after: Seq::empty(),
            completion: None,
            history_index: None,
            draft: Seq::empty(),
        }
    }

    /// The whole text.
    pub open spec fn text(self) -> Seq<char> {
        self.before + self.after
    }

    /// The same line with another text on both sides of the cursor. A change
    /// of the text or of the cursor ends a completion.
    pub open spec fn edited(self, before: Seq<char>, after: Seq<char>) -> InputView {
        InputView { before, after, completion: None, ..self }
    }

    /// A new text, with the cursor at its end.
    pub open spec fn replaced(self, text: Seq<char>) -> InputView {
        self.edited(text, Seq::empty())
    }

    /// Text typed at the cursor.
    pub open spec fn inserted(self, text: Seq<char>) -> InputView {
        self.edited(self.before + text, self.after)
    }

    /// The character before the cursor is gone.
    pub open spec fn backspaced(self) -> InputView {
        if self.before.len() == 0 {
            self
        } else {
            self.edited(self.before.drop_last(), self.after)
        }
    }

    /// The character behind the cursor is gone.
    pub open spec fn deleted(self) -> InputView {
        if self.after.len() == 0 {
            self
        } else {
            self.edited(self.before, self.after.drop_first())
        }
    }

    /// The cursor at another position of the text.
    pub open spec fn moved_to(self, position: int) -> InputView {
        self.edited(self.text().take(position), self.text().skip(position))
    }

    /// The cursor one character further left.
    pub open spec fn moved_left(self) -> InputView {
        if self.before.len() == 0 {
            self
        } else {
            self.moved_to(self.before.len() - 1)
        }
    }

    /// The cursor one character further right.
    pub open spec fn moved_right(self) -> InputView {
        if self.after.len() == 0 {
            self
        } else {
            self.moved_to(self.before.len() as int + 1)
        }
    }

    /// The last run of characters that are not white space is gone, and the
    /// white space between it and the cursor.
    pub open spec fn without_last_ink(self) -> InputView {
        if self.before.len() == 0 {
            self
        } else {
            self.edited(self.before.take(word_start(ink_flags(self.before))), self.after)
        }
    }

    /// The last word before the cursor is gone.
    pub open spec fn without_last_word(self) -> InputView {
        let start = word_start(word_flags(self.before));
        if start < self.before.len() {
            self.edited(self.before.take(start), self.after)
        } else {
            self
        }
    }

    /// The first word behind the cursor is gone.
    pub open spec fn without_next_word(self) -> InputView {
        let end = word_end(word_flags(self.after));
        if end > 0 {
            self.edited(self.before, self.after.skip(end))
        } else {
            self
        }
    }

    /// The cursor at the start of the last word before it.
    pub open spec fn moved_word_left(self) -> InputView {
        let start = word_start(word_flags(self.before));
        if start < self.before.len() {
            self.moved_to(start)
        } else {
            self
        }
    }

    /// The cursor at the end of the first word behind it.
    pub open spec fn moved_word_right(self) -> InputView {
        let end = word_end(word_flags(self.after));
        if end > 0 {
            self.moved_to(self.before.len() + end)
        } else {
            self
        }
    }

    /// The entry of the history before the one that is shown. The text that
    /// was typed is kept for the way back.
    pub open spec fn history_back(self, history: Seq<Seq<char>>) -> InputView {
        if history.len() == 0 {
            self
        } else {
            let (index, draft) = match self.history_index {
                Some(i) => (if i == 0 { 0int } else { i - 1 }, self.draft),
                None => (history.len() - 1, self.text()),
            };
            InputView { history_index: Some(index as usize), draft, ..self }.replaced(history[index])
        }
    }

    /// The entry of the history behind the one that is shown; behind the last
    /// one comes the text that was typed.
    pub open spec fn history_forward(self, history: Seq<Seq<char>>) -> InputView {
        match self.history_index {
            None => self,
            Some(i) => if i + 1 >= history.len() {
                InputView { history_index: None, draft: Seq::empty(), ..self }.replaced(self.draft)
            } else {
                InputView { history_index: Some((i + 1) as usize), ..self }.replaced(history[i + 1])
            },
        }
    }

    /// A candidate in the place that is being completed.
    pub open spec fn showing(self, completion: CompletionView) -> InputView {
        InputView {
            before: completion.head + completion.candidates[completion.index],
            after: completion.tail,
            completion: Some(completion),
            ..self
        }
    }

    /// Whether Tab can step to another candidate.
    pub open spec fn completing(self) -> bool {
        self.completion is Some
    }

    /// The next candidate; behind the last one comes the first.
    pub open spec fn next_candidate(self) -> InputView {
        let c = self.completion.unwrap();
        self.showing(
            CompletionView { index: (c.index + 1) % (c.candidates.len() as int), ..c },
        )
    }

    /// The first of new candidates, for the text between two positions.
    pub open spec fn first_candidate(
        self,
        start: int,
        end: int,
        candidates: Seq<Seq<char>>,
    ) -> InputView {
        if candidates.len() == 0 {
            self
        } else {
            self.showing(
                CompletionView {
                    head: self.text().take(start),
                    tail: self.text().skip(end),
                    candidates,
                    index: 0,
                },
            )
        }
    }
}

/// The candidates that Tab steps through.
pub struct CompletionState {
    head: String,
    tail: String,
    candidates: Vec<String>,
    index: usize,
}

impl View for CompletionState {
    type V = CompletionView;

    closed spec fn view(&self) -> CompletionView {
        CompletionView {
            head: self.head@,
            tail: self.tail@,
            candidates: texts(self.candidates@),
            index: self.index as int,
        }
    }
}

/// The line being edited.
pub struct InputState {
    buffer: String,
    cursor: usize,
    completion: Option<CompletionState>,
    history_index: Option<usize>,
    history_draft: String,
}

pub closed spec fn completion_view(o: Option<CompletionState>) -> Option<CompletionView> {
    match o {
        Some(c) => Some(c@),
        None => None,
    }
}

impl View for InputState {
    type V = InputView;

    closed spec fn view(&self) -> InputView {
        let k = chars_before(self.buffer@, self.cursor as int);
        InputView {
            before: self.buffer@.take(k),
            after: self.buffer@.skip(k),
            completion: completion_view(self.completion),
            history_index: self.history_index,
            draft: self.history_draft@,
        }
    }
}

impl Default for InputState {
    fn default() -> (r: Self)
        ensures
            r.wf(),
            r@ == InputView::blank(),
    {
        let mut r = InputState {
            buffer: String::new(),
            cursor: 0,
            completion: None,
            history_index: None,
            history_draft: String::new(),
        };
        r.clear();
        r
    }
}

impl InputState {
    /// The cursor stands between two characters, and a completion shows one of
    /// its candidates.
    pub closed spec fn wf(&self) -> bool {
        &&& is_offset(self.buffer@, self.cursor as int)
        &&& match self.completion {
            Some(c) => c.index < c.candidates@.len(),
            None => true,
        }
    }

    /// A well-formed completion shows one of its candidates.
    pub proof fn law_completion_shows_a_candidate(&self)
        requires
            self.wf(),
        ensures
            self@.completion matches Some(c) ==> 0 <= c.index < c.candidates.len(),
    {
    }

    /// Puts a text around the cursor.
    fn set_text(&mut self, before: &str, after: &str)
        ensures
            final(self).wf() || final(self).completion is Some,
            final(self).completion is None ==> final(self).wf(),
            final(self).completion == old(self).completion,
            final(self).history_index == old(self).history_index,
            final(self).history_draft == old(self).history_draft,
            is_offset(final(self).buffer@, final(self).cursor as int),
            final(self)@ == (InputView { before: before@, after: after@, ..old(self)@ }),
    {
        let mut buffer = String::new();
        buffer.append(before);
        buffer.append(after);
        self.buffer = buffer;
        self.cursor = byte_length(before);
        proof {
            assert(self.buffer@ =~= before@ + after@);
            assert(self.buffer@.take(before@.len() as int) =~= before@);
            assert(self.buffer@.skip(before@.len() as int) =~= after@);
            lemma_chars_before(self.buffer@, before@.len() as int);
        }
    }

    /// The text before and behind the cursor.
    fn around_cursor(&self) -> (r: (&str, &str))
        requires
            self.wf(),
        ensures
            r.0@ == self@.before,
            r.1@ == self@.after,
    {
        let buffer = self.buffer.as_str();
        let k = char_position(buffer, self.cursor);
        let n = buffer.unicode_len();
        let before = buffer.substring_char(0, k);
        let after = buffer.substring_char(k, n);
        assert(before@ =~= buffer@.take(k as int));
        assert(after@ =~= buffer@.skip(k as int));
        (before, after)
    }

    /// Puts another text around the cursor and ends a completion.
    fn edit(&mut self, before: &str, after: &str)
        ensures
            final(self).wf(),
            final(self)@ == old(self)@.edited(before@, after@),
    {
        self.completion = None;
        self.set_text(before, after);
    }

    /// The text of the line.
    pub fn as_str(&self) -> (r: &str)
        requires
            self.wf(),
        ensures
            r@ == self@.text(),
    {
        proof {
            let k = chars_before(self.buffer@, self.cursor as int);
            assert(self.buffer@.take(k) + self.buffer@.skip(k) =~= self.buffer@);
        }
        self.buffer.as_str()
    }

    /// The offset of the cursor in bytes. It lies on a character boundary.
    pub fn cursor(&self) -> (r: usize)
        requires
            self.wf(),
        ensures
            r == byte_len(self@.before),
            is_char_boundary(encode_utf8(self@.text()), r as int),
    {
        proof {
            lemma_prefix_boundary(self@.before, self@.after);
        }
        self.cursor
    }

    /// Empties the line.
    pub fn clear(&mut self)
        ensures
            final(self).wf(),
            final(self)@ == InputView::blank(),
    {
        self.history_index = None;
        self.history_draft = String::new();
        self.edit("", "");
        proof {
            reveal_strlit("");
            assert(""@ =~= Seq::<char>::empty());
        }
    }

    /// Replaces the text and puts the cursor at its end.
    pub fn set_buffer(&mut self, buffer: String)
        ensures
            final(self).wf(),
            final(self)@ == old(self)@.replaced(buffer@),
    {
        self.edit(buffer.as_str(), "");
        proof {
            reveal_strlit("");
            assert(""@ =~= Seq::<char>::empty());
        }
    }

    /// Types a text at the cursor.
    pub fn insert_str(&mut self, text: &str)
        requires
            old(self).wf(),
        ensures
            final(self).wf(),
            final(self)@ == old(self)@.inserted(text@),
    {
        let (before, after) = self.around_cursor();
        let mut head = before.to_string();
        let tail = after.to_string();
        head.append(text);
        self.edit(head.as_str(), tail.as_str());
    }

    /// Types a character at the cursor.
    pub fn insert_char(&mut self, ch: char)
        requires
            old(self).wf(),
        ensures
            final(self).wf(),
            final(self)@ == old(self)@.inserted(seq![ch]),
    {
        let mut text = String::new();
        text.push(ch);
        assert(text@ =~= seq![ch]);
        self.insert_str(text.as_str());
    }

    /// Drops the characters before the cursor from the position `start` on.
    fn cut_before(&mut self, start: usize)
        requires
            old(self).wf(),
            start <= old(self)@.before.len(),
        ensures
            final(self).wf(),
            final(self)@ == old(self)@.edited(
                old(self)@.before.take(start as int),
                old(self)@.after,
            ),
    {
        let (before, after) = self.around_cursor();
        let head = before.substring_char(0, start).to_string();
        let tail = after.to_string();
        assert(head@ =~= before@.take(start as int));
        self.edit(head.as_str(), tail.as_str());
    }

    /// Drops the first `count` characters behind the cursor.
    fn cut_after(&mut self, count: usize)
        requires
            old(self).wf(),
            count <= old(self)@.after.len(),
        ensures
            final(self).wf(),
            final(self)@ == old(self)@.edited(
                old(self)@.before,
                old(self)@.after.skip(count as int),
            ),
    {
        let (before, after) = self.around_cursor();
        let head = before.to_string();
        let n = after.unicode_len();
        let tail = after.substring_char(count, n).to_string();
        assert(tail@ =~= after@.skip(count as int));
        self.edit(head.as_str(), tail.as_str());
    }

    /// Moves the cursor to a position of the text.
    fn move_to(&mut self, position: usize)
        requires
            old(self).wf(),
            position <= old(self)@.text().len(),
        ensures
            final(self).wf(),
            final(self)@ == old(self)@.moved_to(position as int),
    {
        let text = self.as_str();
        let n = text.unicode_len();
        let head = text.substring_char(0, position).to_string();
        let tail = text.substring_char(position, n).to_string();
        assert(head@ =~= text@.take(position as int));
        assert(tail@ =~= text@.skip(position as int));
        self.edit(head.as_str(), tail.as_str());
    }

    /// Drops the character before the cursor.
    pub fn backspace(&mut self)
        requires
            old(self).wf(),
        ensures
            final(self).wf(),
            final(self)@ == old(self)@.backspaced(),
    {
        let (before, _) = self.around_cursor();
        let n = before.unicode_len();
        if n > 0 {
            self.cut_before(n - 1);
            assert(self@.before =~= old(self)@.before.drop_last());
        }
    }

    /// Drops the character behind the cursor.
    pub fn delete(&mut self)
        requires
            old(self).wf(),
        ensures
            final(self).wf(),
            final(self)@ == old(self)@.deleted(),
    {
        let (_, after) = self.around_cursor();
        if !after.is_empty() {
            self.cut_after(1);
            assert(self@.after =~= old(self)@.after.drop_first());
        }
    }

    /// Moves the cursor one character left.
    pub fn move_left(&mut self)
        requires
            old(self).wf(),
        ensures
            final(self).wf(),
            final(self)@ == old(self)@.moved_left(),
    {
        let (before, _) = self.around_cursor();
        let n = before.unicode_len();
        if n > 0 {
            self.move_to(n - 1);
        }
    }

    /// Moves the cursor one character right.
    pub fn move_right(&mut self)
        requires
            old(self).wf(),
        ensures
            final(self).wf(),
            final(self)@ == old(self)@.moved_right(),
    {
        let (before, after) = self.around_cursor();
        let n = before.unicode_len();
        if !after.is_empty() {
            let all = self.as_str().unicode_len();
            assert(n + 1 <= all);
            self.move_to(n + 1);
        }
    }

    /// Moves the cursor to the start of the line.
    pub fn move_home(&mut self)
        requires
            old(self).wf(),
        ensures
            final(self).wf(),
            final(self)@ == old(self)@.moved_to(0),
    {
        self.move_to(0);
    }

    /// Moves the cursor to the end of the line.
    pub fn move_end(&mut self)
        requires
            old(self).wf(),
        ensures
            final(self).wf(),
            final(self)@ == old(self)@.moved_to(old(self)@.text().len() as int),
    {
        let n = self.as_str().unicode_len();
        self.move_to(n);
    }

    /// Drops everything behind the cursor.
    pub fn kill_to_end(&mut self)
        requires
            old(self).wf(),
        ensures
            final(self).wf(),
            final(self)@ == old(self)@.edited(old(self)@.before, Seq::empty()),
    {
        let (_, after) = self.around_cursor();
        let n = after.unicode_len();
        self.cut_after(n);
        assert(self@.after =~= Seq::<char>::empty());
    }

    /// Drops everything before the cursor.
    pub fn kill_to_start(&mut self)
        requires
            old(self).wf(),
        ensures
            final(self).wf(),
            final(self)@ == old(self)@.edited(Seq::empty(), old(self)@.after),
    {
        self.cut_before(0);
        assert(self@.before =~= Seq::<char>::empty());
    }

    /// Drops the last run of characters that are not white space.
    pub fn delete_prev_word(&mut self)
        requires
            old(self).wf(),
        ensures
            final(self).wf(),
            final(self)@ == old(self)@.without_last_ink(),
    {
        let (before, _) = self.around_cursor();
        if before.is_empty() {
            return;
        }
        let flags = flags_of_ink(before);
        let start = last_word_start(&flags);
        self.cut_before(start);
    }

    /// Drops the last word before the cursor.
    pub fn delete_backward_readline_word(&mut self)
        requires
            old(self).wf(),
        ensures
            final(self).wf(),
            final(self)@ == old(self)@.without_last_word(),
    {
        let (before, _) = self.around_cursor();
        let start = readline_word_start(before);
        if start < before.unicode_len() {
            self.cut_before(start);
        }
    }

    /// Drops the first word behind the cursor.
    pub fn delete_forward_readline_word(&mut self)
        requires
            old(self).wf(),
        ensures
            final(self).wf(),
            final(self)@ == old(self)@.without_next_word(),
    {
        let (_, after) = self.around_cursor();
        let end = readline_word_end(after);
        if end > 0 {
            self.cut_after(end);
        }
    }

    /// Moves the cursor to the start of the last word before it.
    pub fn move_backward_readline_word(&mut self)
        requires
            old(self).wf(),
        ensures
            final(self).wf(),
            final(self)@ == old(self)@.moved_word_left(),
    {
        let (before, _) = self.around_cursor();
        let start = readline_word_start(before);
        if start < before.unicode_len() {
            self.move_to(start);
        }
    }

    /// Moves the cursor to the end of the first word behind it.
    pub fn move_forward_readline_word(&mut self)
        requires
            old(self).wf(),
        ensures
            final(self).wf(),
            final(self)@ == old(self)@.moved_word_right(),
    {
        let (before, after) = self.around_cursor();
        let n = before.unicode_len();
        let end = readline_word_end(after);
        if end > 0 {
            let all = self.as_str().unicode_len();
            assert(n + end <= all);
            self.move_to(n + end);
        }
    }

    /// Whether the entry shown comes from a history of this length.
    pub open spec fn history_fits(&self, len: int) -> bool {
        self@.history_index matches Some(i) ==> i <= len
    }

    /// Puts a candidate into the place that is being completed.
    fn show(&mut self, state: CompletionState)
        requires
            state.index < state.candidates@.len(),
        ensures
            final(self).wf(),
            final(self)@ == old(self)@.showing(state@),
    {
        let mut head = state.head.clone();
        head.append(state.candidates[state.index].as_str());
        let tail = state.tail.clone();
        self.completion = Some(state);
        self.set_text(head.as_str(), tail.as_str());
    }

    /// Whether Tab steps to another candidate of a completion.
    pub fn is_completing(&self) -> (r: bool)
        ensures
            r == self@.completing(),
    {
        match self.completion {
            Some(_) => true,
            None => false,
        }
    }

    /// Steps to the next candidate.
    pub fn cycle_completion(&mut self)
        requires
            old(self).wf(),
            old(self)@.completing(),
        ensures
            final(self).wf(),
            final(self)@ == old(self)@.next_candidate(),
    {
        let taken = self.completion.take();
        match taken {
            Some(mut state) => {
                let n = state.candidates.len();
                let ghost c = state@;
                state.index = if state.index + 1 < n {
                    state.index + 1
                } else {
                    0
                };
                proof {
                    let m = n as int;
                    if c.index + 1 < m {
                        vstd::arithmetic::div_mod::lemma_small_mod(
                            (c.index + 1) as nat,
                            m as nat,
                        );
                    } else {
                        vstd::arithmetic::div_mod::lemma_mod_self_0(m);
                    }
                }
                self.show(state);
            },
            None => {},
        }
    }

    /// Begins a completion of the text between two byte offsets. Nothing
    /// happens without candidates.
    pub fn begin_completion(&mut self, start: usize, end: usize, candidates: Vec<String>)
        requires
            old(self).wf(),
            is_offset(old(self)@.text(), start as int),
            is_offset(old(self)@.text(), end as int),
        ensures
            final(self).wf(),
            final(self)@ == old(self)@.first_candidate(
                chars_before(old(self)@.text(), start as int),
                chars_before(old(self)@.text(), end as int),
                texts(candidates@),
            ),
    {
        if candidates.len() == 0 {
            return;
        }
        let text = self.as_str();
        let n = text.unicode_len();
        let from = char_position(text, start);
        let to = char_position(text, end);
        let head = text.substring_char(0, from).to_string();
        let tail = text.substring_char(to, n).to_string();
        assert(head@ =~= text@.take(from as int));
        assert(tail@ =~= text@.skip(to as int));
        self.show(CompletionState { head, tail, candidates, index: 0 });
    }
}

/// Shows the entry of the history before the one that is shown.
pub fn history_previous(input_state: &mut InputState, history: &Vec<String>)
    requires
        old(input_state).wf(),
        old(input_state).history_fits(history@.len() as int),
    ensures
        final(input_state).wf(),
        final(input_state)@ == old(input_state)@.history_back(texts(history@)),
        final(input_state).history_fits(history@.len() as int),
{
    if history.len() == 0 {
        return;
    }
    let index = match input_state.history_index {
        Some(i) => if i == 0 { 0 } else { i - 1 },
        None => {
            let draft = input_state.as_str().to_string();
            input_state.history_draft = draft;
            history.len() - 1
        },
    };
    input_state.history_index = Some(index);
    input_state.set_buffer(history[index].clone());
}

/// Shows the entry of the history behind the one that is shown, or the text
/// that was typed.
pub fn history_next(input_state: &mut InputState, history: &Vec<String>)
    requires
        old(input_state).wf(),
        old(input_state).history_fits(history@.len() as int),
    ensures
        final(input_state).wf(),
        final(input_state)@ == old(input_state)@.history_forward(texts(history@)),
        final(input_state).history_fits(history@.len() as int),
{
    match input_state.history_index {
        None => {},
        Some(i) => {
            if i >= history.len() || i + 1 >= history.len() {
                input_state.history_index = None;
                let draft = input_state.history_draft.clone();
                input_state.history_draft = String::new();
                input_state.set_buffer(draft);
            } else {
                input_state.history_index = Some(i + 1);
                input_state.set_buffer(history[i + 1].clone());
            }
        },
    }
}

/// Typing a character and erasing it gives the text and the cursor back.
pub proof fn law_backspace_undoes_insert(v: InputView, c: char)
    ensures
        v.inserted(seq![c]).backspaced() == v.edited(v.before, v.after),
{
    assert(v.inserted(seq![c]).before.drop_last() =~= v.before);
}

/// Moving left and right again, or right and left again, gives the cursor
/// back.
pub proof fn law_moves_undo_each_other(v: InputView)
    ensures
        v.before.len() > 0 ==> v.moved_left().moved_right() == v.edited(v.before, v.after),
        v.after.len() > 0 ==> v.moved_right().moved_left() == v.edited(v.before, v.after),
{
    let text = v.text();
    let k = v.before.len() as int;
    assert(text.take(k) =~= v.before);
    assert(text.skip(k) =~= v.after);
    if k > 0 {
        assert(v.moved_left().text() =~= text);
    }
    if v.after.len() > 0 {
        assert(v.moved_right().text() =~= text);
    }
}

proof fn lemma_moved_text(v: InputView, position: int)
    requires
        0 <= position <= v.text().len(),
    ensures
        v.moved_to(position).text() == v.text(),
{
    assert(v.moved_to(position).text() =~= v.text());
}

/// Moving the cursor never changes the text.
pub proof fn law_moves_keep_the_text(v: InputView, position: int)
    requires
        0 <= position <= v.text().len(),
    ensures
        v.moved_to(position).text() == v.text(),
        v.moved_left().text() == v.text(),
        v.moved_right().text() == v.text(),
        v.moved_word_left().text() == v.text(),
        v.moved_word_right().text() == v.text(),
{
    lemma_moved_text(v, position);
    let n = v.before.len() as int;
    assert(v.text().len() == n + v.after.len());
    assert(v.moved_left().text() == v.text()) by {
        if n > 0 {
            lemma_moved_text(v, n - 1);
        }
    }
    assert(v.moved_right().text() == v.text()) by {
        if v.after.len() > 0 {
            lemma_moved_text(v, n + 1);
        }
    }
    assert(v.moved_word_left().text() == v.text()) by {
        lemma_word_bounds(word_flags(v.before));
        lemma_moved_text(v, word_start(word_flags(v.before)));
    }
    assert(v.moved_word_right().text() == v.text()) by {
        lemma_word_bounds(word_flags(v.after));
        lemma_moved_text(v, n + word_end(word_flags(v.after)));
    }
}

/// The state after going back `k` times in the history.
pub open spec fn gone_back(v: InputView, history: Seq<Seq<char>>, k: nat) -> InputView
    decreases k,
{
    if k == 0 {
        v
    } else {
        gone_back(v, history, (k - 1) as nat).history_back(history)
    }
}

/// The state after going forward `k` times in the history.
pub open spec fn gone_forward(v: InputView, history: Seq<Seq<char>>, k: nat) -> InputView
    decreases k,
{
    if k == 0 {
        v
    } else {
        gone_forward(v, history, (k - 1) as nat).history_forward(history)
    }
}

/// What was typed, behind the history again.
pub open spec fn draft_again(v: InputView) -> InputView {
    InputView { draft: Seq::empty(), ..v.replaced(v.text()) }
}

/// The entry of the history at a position, with what was typed kept.
spec fn entry_shown(v: InputView, history: Seq<Seq<char>>, index: int) -> InputView {
    InputView { history_index: Some(index as usize), draft: v.text(), ..v }.replaced(history[index])
}

proof fn lemma_gone_back(v: InputView, history: Seq<Seq<char>>, k: nat)
    requires
        v.history_index is None,
        0 < history.len() <= usize::MAX,
        k > 0,
    ensures
        gone_back(v, history, k) == entry_shown(
            v,
            history,
            if k <= history.len() {
                history.len() - k
            } else {
                0
            },
        ),
    decreases k,
{
    if k > 1 {
        lemma_gone_back(v, history, (k - 1) as nat);
    }
    reveal_with_fuel(gone_back, 2);
}

proof fn lemma_gone_forward(v: InputView, history: Seq<Seq<char>>, index: int, k: nat)
    requires
        0 <= index < history.len() <= usize::MAX,
        v.history_index is None,
    ensures
        gone_forward(entry_shown(v, history, index), history, k) == (if index + k < history.len() {
            entry_shown(v, history, index + k)
        } else {
            draft_again(v)
        }),
    decreases k,
{
    if k > 0 {
        lemma_gone_forward(v, history, index, (k - 1) as nat);
    }
}

/// Going back in the history any number of times, beyond its beginning too, and
/// forward as often gives back what was typed, and leaves the history.
pub proof fn law_history_gives_the_draft_back(v: InputView, history: Seq<Seq<char>>, k: nat)
    requires
        v.history_index is None,
        history.len() <= usize::MAX,
    ensures
        gone_forward(gone_back(v, history, k), history, k) == (if k == 0 || history.len() == 0 {
            v
        } else {
            draft_again(v)
        }),
{
    if history.len() == 0 {
        lemma_empty_history(v, history, k);
    } else if k > 0 {
        lemma_gone_back(v, history, k);
        let index = if k <= history.len() {
            history.len() - k
        } else {
            0
        };
        lemma_gone_forward(v, history, index, k);
    }
}

proof fn lemma_empty_history(v: InputView, history: Seq<Seq<char>>, k: nat)
    requires
        v.history_index is None,
        history.len() == 0,
    ensures
        gone_back(v, history, k) == v,
        gone_forward(v, history, k) == v,
    decreases k,
{
    if k > 0 {
        lemma_empty_history(v, history, (k - 1) as nat);
    }
}

/// Stepping back through the history shows its entries from the last to the
/// first, and stays at the first.
pub proof fn law_history_back_steps(v: InputView, history: Seq<Seq<char>>)
    requires
        0 < history.len() <= usize::MAX,
        v.history_index matches Some(i) ==> i <= history.len(),
    ensures
        v.history_index is None ==> v.history_back(history).text() == history.last(),
        v.history_index == Some(0usize) ==> v.history_back(history).text() == history[0],
        v.history_index matches Some(i) ==> i > 0 ==> v.history_back(history).text() == history[i
            - 1],
{
    let w = v.history_back(history);
    assert(w.text() =~= w.before);
}

/// The state after stepping `n` times through a completion.
pub open spec fn stepped(v: InputView, n: nat) -> InputView
    decreases n,
{
    if n == 0 {
        v
    } else {
        stepped(v, (n - 1) as nat).next_candidate()
    }
}

/// Stepping through a completion goes round: after `n` steps the candidate is
/// shown that stands `n` places behind the first one, counted round the list.
pub proof fn law_completion_steps_go_round(v: InputView, n: nat)
    requires
        v.completion is Some,
        0 <= v.completion.unwrap().index < v.completion.unwrap().candidates.len(),
    ensures
        stepped(v, n).completion == Some(
            CompletionView {
                index: (v.completion.unwrap().index + n) % (
                v.completion.unwrap().candidates.len() as int),
                ..v.completion.unwrap()
            },
        ),
        n > 0 ==> stepped(v, n) == v.showing(stepped(v, n).completion.unwrap()),
    decreases n,
{
    let c = v.completion.unwrap();
    let m = c.candidates.len() as int;
    if n == 0 {
        vstd::arithmetic::div_mod::lemma_small_mod(c.index as nat, m as nat);
    } else {
        law_completion_steps_go_round(v, (n - 1) as nat);
        let i = (c.index + (n - 1)) % m;
        vstd::arithmetic::div_mod::lemma_add_mod_noop(c.index + (n - 1), 1, m);
        if m > 1 {
            vstd::arithmetic::div_mod::lemma_small_mod(1, m as nat);
            assert((i + 1) % m == (c.index + n) % m);
        } else {
            assert((i + 1) % m == 0 && (c.index + n) % m == 0) by {
                vstd::arithmetic::div_mod::lemma_mod_bound(i + 1, m);
                vstd::arithmetic::div_mod::lemma_mod_bound(c.index + n, m);
            }
        }
    }
}

/// Stepping through all candidates of a completion comes back to the one that
/// was shown first.
pub proof fn law_completion_wraps(v: InputView)
    requires
        v.completion is Some,
        0 <= v.completion.unwrap().index < v.completion.unwrap().candidates.len(),
        v == v.showing(v.completion.unwrap()),
    ensures
        stepped(v, v.completion.unwrap().candidates.len()) == v,
{
    let c = v.completion.unwrap();
    let m = c.candidates.len();
    law_completion_steps_go_round(v, m);
    vstd::arithmetic::div_mod::lemma_mod_add_multiples_vanish(c.index, m as int);
    vstd::arithmetic::div_mod::lemma_small_mod(c.index as nat, m);
}

/// Erasing the last word stops at an underscore: what is erased of the word
/// itself holds none.
pub proof fn law_word_motion_stops_at_underscore(s: Seq<char>, i: int)
    requires
        word_start(word_flags(s)) <= i < run_start(word_flags(s), false),
    ensures
        s[i] != '_',
        word_start(word_flags(s)) > 0 ==> !word_char(s[word_start(word_flags(s)) - 1]),
{
    let flags = word_flags(s);
    let gap = run_start(flags, false);
    lemma_run_start(flags, false);
    lemma_run_start(flags.take(gap), true);
    assert(flags.take(gap)[i] == word_char(s[i]));
    let start = word_start(flags);
    if start > 0 {
        assert(flags.take(gap)[start - 1] == word_char(s[start - 1]));
    }
}

} // verus!
