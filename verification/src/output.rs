//! The transcript on the screen and how far it is scrolled back.
use vstd::prelude::*;
use vstd::string::*;

use crate::text::{lines, lines_of, texts};

verus! {

/// The number of lines that the transcript keeps.
pub const TRANSCRIPT_MAX_LINES: usize = 10_000;

/// A line of the transcript; its text is of the type `T`.
#[derive(Debug, PartialEq, Eq)]
pub enum TranscriptLine<T> {
    Plain(T),
    UserInput(T),
}

impl View for TranscriptLine<String> {
    type V = TranscriptLine<Seq<char>>;

    open spec fn view(&self) -> TranscriptLine<Seq<char>> {
        match *self {
            TranscriptLine::Plain(t) => TranscriptLine::Plain(t@),
            TranscriptLine::UserInput(t) => TranscriptLine::UserInput(t@),
        }
    }
}

impl TranscriptLine<Seq<char>> {
    /// The text of the line.
    pub open spec fn text(self) -> Seq<char> {
        match self {
            TranscriptLine::Plain(t) => t,
            TranscriptLine::UserInput(t) => t,
        }
    }
}

impl TranscriptLine<String> {
    /// The text of the line.
    pub fn as_str(&self) -> (r: &str)
        ensures
            r@ == self@.text(),
    {
        match self {
            TranscriptLine::Plain(t) => t.as_str(),
            TranscriptLine::UserInput(t) => t.as_str(),
        }
    }
}

/// The views of the lines of a transcript.
pub open spec fn line_views(v: Seq<TranscriptLine<String>>) -> Seq<TranscriptLine<Seq<char>>> {
    v.map_values(|l: TranscriptLine<String>| l@)
}

/// The lines of a text as output.
pub open spec fn plain_lines(text: Seq<char>) -> Seq<TranscriptLine<Seq<char>>> {
    lines_of(text).map_values(|l: Seq<char>| TranscriptLine::Plain(l))
}

/// The lines of a text as input that is echoed.
pub open spec fn input_lines(text: Seq<char>) -> Seq<TranscriptLine<Seq<char>>> {
    lines_of(text).map_values(|l: Seq<char>| TranscriptLine::UserInput(l))
}

/// What the screen shows of the conversation.
#[verifier::ext_equal]
pub struct OutputView {
    pub lines: Seq<TranscriptLine<Seq<char>>>,
    pub scroll: int,
}

/// The last lines of a sequence, as many as the transcript keeps.
pub open spec fn kept(lines: Seq<TranscriptLine<Seq<char>>>) -> Seq<TranscriptLine<Seq<char>>> {
    if lines.len() > TRANSCRIPT_MAX_LINES {
        lines.skip(lines.len() - TRANSCRIPT_MAX_LINES)
    } else {
        lines
    }
}

/// The smaller of a number and the largest machine word.
pub open spec fn capped(n: int) -> int {
    if n > usize::MAX {
        usize::MAX as int
    } else {
        n
    }
}

/// A number, or zero where it is negative.
pub open spec fn floored(n: int) -> int {
    if n < 0 {
        0
    } else {
        n
    }
}

impl OutputView {
    /// The transcript behind new lines: the last lines stay, and a view that
    /// is scrolled back stays where it is.
    pub open spec fn extended(self, added: Seq<TranscriptLine<Seq<char>>>) -> OutputView {
        let all = self.lines + added;
        let shifted = if self.scroll > 0 {
            capped(self.scroll + added.len())
        } else {
            self.scroll
        };
        OutputView { lines: kept(all), scroll: floored(shifted - (all.len() - kept(all).len())) }
    }

    /// The view one page further back.
    pub open spec fn paged_up(self, rows: int) -> OutputView {
        OutputView { scroll: capped(self.scroll + if rows > 1 { rows } else { 1 }), ..self }
    }

    /// The view one page further on.
    pub open spec fn paged_down(self, rows: int) -> OutputView {
        OutputView { scroll: floored(self.scroll - if rows > 1 { rows } else { 1 }), ..self }
    }

    /// The view at the end of the transcript.
    pub open spec fn at_end(self) -> OutputView {
        OutputView { scroll: 0, ..self }
    }
}

/// The transcript and its scroll position.
pub struct OutputState {
    transcript: Vec<TranscriptLine<String>>,
    scroll_offset: usize,
}

impl View for OutputState {
    type V = OutputView;

    closed spec fn view(&self) -> OutputView {
        OutputView { lines: line_views(self.transcript@), scroll: self.scroll_offset as int }
    }
}

impl Default for OutputState {
    fn default() -> (r: Self)
        ensures
            r.wf(),
            r@ == (OutputView { lines: Seq::empty(), scroll: 0 }),
    {
        let r = OutputState { transcript: Vec::new(), scroll_offset: 0 };
        assert(r@.lines =~= Seq::empty());
        r
    }
}

impl OutputState {
    /// The transcript never holds more lines than it keeps.
    pub open spec fn wf(&self) -> bool {
        self@.lines.len() <= TRANSCRIPT_MAX_LINES && 0 <= self@.scroll <= usize::MAX
    }

    /// The lines of the transcript.
    pub fn lines(&self) -> (r: &[TranscriptLine<String>])
        ensures
            line_views(r@) == self@.lines,
    {
        self.transcript.as_slice()
    }

    /// How many lines the view is scrolled back.
    pub fn scroll_offset(&self) -> (r: usize)
        ensures
            r == self@.scroll,
    {
        self.scroll_offset
    }

    /// Drops all lines.
    pub fn clear(&mut self)
        ensures
            final(self).wf(),
            final(self)@ == (OutputView { lines: Seq::empty(), scroll: 0 }),
    {
        self.transcript = Vec::new();
        self.scroll_offset = 0;
        assert(self@.lines =~= Seq::empty());
    }

    /// Adds lines at the end.
    pub fn push_lines(&mut self, mut added: Vec<TranscriptLine<String>>)
        requires
            old(self).wf(),
        ensures
            final(self).wf(),
            final(self)@ == old(self)@.extended(line_views(added@)),
    {
        let count = added.len();
        let ghost all = self@.lines + line_views(added@);
        let ghost before = self.transcript@;
        let ghost extra = added@;
        self.transcript.append(&mut added);
        assert(line_views(self.transcript@) =~= all);
        if self.scroll_offset > 0 {
            self.scroll_offset = if self.scroll_offset > usize::MAX - count {
                usize::MAX
            } else {
                self.scroll_offset + count
            };
        }
        if self.transcript.len() > TRANSCRIPT_MAX_LINES {
            let excess = self.transcript.len() - TRANSCRIPT_MAX_LINES;
            let rest = self.transcript.split_off(excess);
            self.transcript = rest;
            assert(line_views(self.transcript@) =~= all.skip(excess as int));
            self.scroll_offset = if self.scroll_offset > excess {
                self.scroll_offset - excess
            } else {
                0
            };
        }
    }

    /// Adds the lines of a text as output.
    pub fn push_text(&mut self, text: &str)
        requires
            old(self).wf(),
        ensures
            final(self).wf(),
            final(self)@ == old(self)@.extended(plain_lines(text@)),
    {
        let parts = lines(text);
        let mut added: Vec<TranscriptLine<String>> = Vec::new();
        let mut i: usize = 0;
        while i < parts.len()
            invariant
                i <= parts@.len(),
                line_views(added@) == texts(parts@).take(i as int).map_values(
                    |l: Seq<char>| TranscriptLine::Plain(l),
                ),
            decreases parts.len() - i,
        {
            let ghost before = added@;
            let line = TranscriptLine::Plain(parts[i].clone());
            added.push(line);
            assert(line_views(added@) =~= line_views(before).push(line@));
            assert(texts(parts@).take(i + 1) =~= texts(parts@).take(i as int).push(
                texts(parts@)[i as int],
            ));
            i += 1;
            assert(line_views(added@) =~= texts(parts@).take(i as int).map_values(
                |l: Seq<char>| TranscriptLine::Plain(l),
            ));
        }
        assert(texts(parts@).take(parts@.len() as int) =~= texts(parts@));
        self.push_lines(added);
    }

    /// Adds the lines of a text as input that is echoed.
    pub fn push_input(&mut self, text: &str)
        requires
            old(self).wf(),
        ensures
            final(self).wf(),
            final(self)@ == old(self)@.extended(input_lines(text@)),
    {
        let parts = lines(text);
        let mut added: Vec<TranscriptLine<String>> = Vec::new();
        let mut i: usize = 0;
        while i < parts.len()
            invariant
                i <= parts@.len(),
                line_views(added@) == texts(parts@).take(i as int).map_values(
                    |l: Seq<char>| TranscriptLine::UserInput(l),
                ),
            decreases parts.len() - i,
        {
            let ghost before = added@;
            let line = TranscriptLine::UserInput(parts[i].clone());
            added.push(line);
            assert(line_views(added@) =~= line_views(before).push(line@));
            assert(texts(parts@).take(i + 1) =~= texts(parts@).take(i as int).push(
                texts(parts@)[i as int],
            ));
            i += 1;
            assert(line_views(added@) =~= texts(parts@).take(i as int).map_values(
                |l: Seq<char>| TranscriptLine::UserInput(l),
            ));
        }
        assert(texts(parts@).take(parts@.len() as int) =~= texts(parts@));
        self.push_lines(added);
    }

    /// Returns to the end of the transcript.
    pub fn reset_scroll(&mut self)
        requires
            old(self).wf(),
        ensures
            final(self).wf(),
            final(self)@ == old(self)@.at_end(),
    {
        self.scroll_offset = 0;
    }

    /// Scrolls one page back.
    pub fn page_up(&mut self, rows: usize)
        requires
            old(self).wf(),
        ensures
            final(self).wf(),
            final(self)@ == old(self)@.paged_up(rows as int),
    {
        let step: usize = if rows > 1 { rows } else { 1 };
        self.scroll_offset = if self.scroll_offset > usize::MAX - step {
            usize::MAX
        } else {
            self.scroll_offset + step
        };
    }

    /// Scrolls one page on.
    pub fn page_down(&mut self, rows: usize)
        requires
            old(self).wf(),
        ensures
            final(self).wf(),
            final(self)@ == old(self)@.paged_down(rows as int),
    {
        let step: usize = if rows > 1 { rows } else { 1 };
        self.scroll_offset = if self.scroll_offset > step {
            self.scroll_offset - step
        } else {
            0
        };
    }
}

/// Whatever is added, the transcript ends with the last lines of everything
/// that was ever added, and holds no others.
pub proof fn law_transcript_keeps_the_last_lines(
    view: OutputView,
    first: Seq<TranscriptLine<Seq<char>>>,
    second: Seq<TranscriptLine<Seq<char>>>,
)
    ensures
        view.extended(first).extended(second).lines == kept(view.lines + first + second),
        view.extended(first).lines.len() <= TRANSCRIPT_MAX_LINES,
{
    let all = view.lines + first;
    assert(view.extended(first).extended(second).lines =~= kept(all + second));
}

/// A view at the end of the transcript stays there when lines are added. One
/// that is scrolled back shows the same lines as before, as long as the
/// transcript has room for the new lines.
pub proof fn law_scrolled_view_stays(view: OutputView, added: Seq<TranscriptLine<Seq<char>>>)
    requires
        0 <= view.scroll,
        view.lines.len() <= TRANSCRIPT_MAX_LINES,
        view.scroll + added.len() <= usize::MAX,
    ensures
        view.scroll == 0 ==> view.extended(added).scroll == 0,
        view.scroll > 0 && view.lines.len() + added.len() <= TRANSCRIPT_MAX_LINES
            ==> view.extended(added).scroll == view.scroll + added.len(),
{
}

/// Paging back and forth by the same number of rows comes back to the same
/// place.
pub proof fn law_paging_is_undone(view: OutputView, rows: int)
    requires
        0 <= view.scroll,
        0 <= rows,
        view.scroll + rows < usize::MAX,
    ensures
        view.paged_up(rows).paged_down(rows) == view,
{
}

} // verus!
