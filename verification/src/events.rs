//! What keys do: the line editor's reaction to terminal events.
use vstd::prelude::*;
use vstd::string::*;

use crate::input::{history_next, history_previous, InputState, InputView};
use crate::output::{plain_lines, OutputState, OutputView};
use crate::press::{armed_by, second_press, InterruptAction, InterruptState, CTRL_C_EXIT_TIMEOUT};
use crate::text::texts;

verus! {

/// What the first Ctrl+C tells the user.
pub const CTRL_C_EXIT_MESSAGE: &'static str = "Press Ctrl+c again to quit";

/// The keys that the editor tells apart.
#[derive(Clone, Copy, Debug, PartialEq, Eq, Structural)]
pub enum KeyCode {
    Backspace,
    Enter,
    Left,
    Right,
    Up,
    Down,
    Home,
    End,
    PageUp,
    PageDown,
    Tab,
    Delete,
    Esc,
    Char(char),
    Other,
}

/// The modifier keys held with a key. `others` stands for all modifiers
/// without a field of their own.
#[derive(Clone, Copy, Debug, PartialEq, Eq, Structural)]
pub struct KeyModifiers {
    pub shift: bool,
    pub control: bool,
    pub alt: bool,
    pub others: bool,
}

impl KeyModifiers {
    /// Whether no modifier is held.
    pub open spec fn is_none(self) -> bool {
        !self.shift && !self.control && !self.alt && !self.others
    }

    /// Whether Control is the only modifier held.
    pub open spec fn is_control(self) -> bool {
        self.control && !self.shift && !self.alt && !self.others
    }

    /// Whether Shift is the only modifier held.
    pub open spec fn is_shift(self) -> bool {
        self.shift && !self.control && !self.alt && !self.others
    }
}

/// How a key moved.
#[derive(Clone, Copy, Debug, PartialEq, Eq, Structural)]
pub enum KeyEventKind {
    Press,
    Repeat,
    Release,
}

/// An event of the terminal; pasted text is of the type `T`.
pub enum InputEvent<T> {
    Paste(T),
    Key(KeyCode, KeyModifiers, KeyEventKind),
    Other,
}

impl View for InputEvent<String> {
    type V = InputEvent<Seq<char>>;

    open spec fn view(&self) -> InputEvent<Seq<char>> {
        match *self {
            InputEvent::Paste(t) => InputEvent::Paste(t@),
            InputEvent::Key(code, modifiers, kind) => InputEvent::Key(code, modifiers, kind),
            InputEvent::Other => InputEvent::Other,
        }
    }
}

/// What a key asks for.
#[derive(Clone, Copy, Debug, PartialEq, Eq, Structural)]
pub enum KeyAction {
    WordLeft,
    WordRight,
    EraseWordLeft,
    EraseWordRight,
    Interrupt,
    Quit,
    Submit,
    Backspace,
    Delete,
    Left,
    Right,
    Home,
    End,
    KillToEnd,
    KillToStart,
    EraseInk,
    HistoryBack,
    HistoryForward,
    Complete,
    PageUp,
    PageDown,
    Insert(char),
    Nothing,
}

/// What a character key asks for; Ctrl+D quits on an empty line.
pub open spec fn char_action(c: char, modifiers: KeyModifiers, line_empty: bool) -> KeyAction {
    if modifiers.alt && !modifiers.control && (c == 'd' || c == 'D') {
        KeyAction::EraseWordRight
    } else if modifiers.is_control() {
        if c == 'c' {
            KeyAction::Interrupt
        } else if c == 'd' {
            if line_empty {
                KeyAction::Quit
            } else {
                KeyAction::Delete
            }
        } else if c == 'a' {
            KeyAction::Home
        } else if c == 'e' {
            KeyAction::End
        } else if c == 'k' {
            KeyAction::KillToEnd
        } else if c == 'u' {
            KeyAction::KillToStart
        } else if c == 'w' {
            KeyAction::EraseInk
        } else {
            KeyAction::Nothing
        }
    } else if modifiers.is_none() || modifiers.is_shift() {
        KeyAction::Insert(c)
    } else {
        KeyAction::Nothing
    }
}

/// What a key asks for.
pub open spec fn key_action(
    code: KeyCode,
    modifiers: KeyModifiers,
    line_empty: bool,
) -> KeyAction {
    let by_word = modifiers.control && !modifiers.alt;
    match code {
        KeyCode::Left => if by_word { KeyAction::WordLeft } else { KeyAction::Left },
        KeyCode::Right => if by_word { KeyAction::WordRight } else { KeyAction::Right },
        KeyCode::Backspace => if modifiers.alt && !modifiers.control {
            KeyAction::EraseWordLeft
        } else {
            KeyAction::Backspace
        },
        KeyCode::Char(c) => char_action(c, modifiers, line_empty),
        KeyCode::Enter => if modifiers.is_none() { KeyAction::Submit } else { KeyAction::Nothing },
        KeyCode::Delete => KeyAction::Delete,
        KeyCode::Home => KeyAction::Home,
        KeyCode::End => KeyAction::End,
        KeyCode::Up => KeyAction::HistoryBack,
        KeyCode::Down => KeyAction::HistoryForward,
        KeyCode::Tab => KeyAction::Complete,
        KeyCode::PageUp => if modifiers.shift { KeyAction::PageUp } else { KeyAction::Nothing },
        KeyCode::PageDown => if modifiers.shift { KeyAction::PageDown } else { KeyAction::Nothing },
        KeyCode::Esc | KeyCode::Other => KeyAction::Nothing,
    }
}

fn decide_char_action(c: char, modifiers: KeyModifiers, line_empty: bool) -> (r: KeyAction)
    ensures
        r == char_action(c, modifiers, line_empty),
{
    let only_control = modifiers.control && !modifiers.shift && !modifiers.alt && !modifiers.others;
    let plain = !modifiers.control && !modifiers.alt && !modifiers.others;
    if modifiers.alt && !modifiers.control && (c == 'd' || c == 'D') {
        KeyAction::EraseWordRight
    } else if only_control {
        match c {
            'c' => KeyAction::Interrupt,
            'd' => if line_empty { KeyAction::Quit } else { KeyAction::Delete },
            'a' => KeyAction::Home,
            'e' => KeyAction::End,
            'k' => KeyAction::KillToEnd,
            'u' => KeyAction::KillToStart,
            'w' => KeyAction::EraseInk,
            _ => KeyAction::Nothing,
        }
    } else if plain {
        KeyAction::Insert(c)
    } else {
        KeyAction::Nothing
    }
}

/// Tells what a key asks for.
pub fn decide_key_action(code: KeyCode, modifiers: KeyModifiers, line_empty: bool) -> (r: KeyAction)
    ensures
        r == key_action(code, modifiers, line_empty),
{
    let by_word = modifiers.control && !modifiers.alt;
    let plain = !modifiers.shift && !modifiers.control && !modifiers.alt && !modifiers.others;
    match code {
        KeyCode::Left => if by_word { KeyAction::WordLeft } else { KeyAction::Left },
        KeyCode::Right => if by_word { KeyAction::WordRight } else { KeyAction::Right },
        KeyCode::Backspace => if modifiers.alt && !modifiers.control {
            KeyAction::EraseWordLeft
        } else {
            KeyAction::Backspace
        },
        KeyCode::Char(c) => decide_char_action(c, modifiers, line_empty),
        KeyCode::Enter => if plain { KeyAction::Submit } else { KeyAction::Nothing },
        KeyCode::Delete => KeyAction::Delete,
        KeyCode::Home => KeyAction::Home,
        KeyCode::End => KeyAction::End,
        KeyCode::Up => KeyAction::HistoryBack,
        KeyCode::Down => KeyAction::HistoryForward,
        KeyCode::Tab => KeyAction::Complete,
        KeyCode::PageUp => if modifiers.shift { KeyAction::PageUp } else { KeyAction::Nothing },
        KeyCode::PageDown => if modifiers.shift { KeyAction::PageDown } else { KeyAction::Nothing },
        KeyCode::Esc | KeyCode::Other => KeyAction::Nothing,
    }
}

/// What reading input ends with; the text is of the type `T`.
#[derive(Debug, PartialEq, Eq)]
pub enum InputResult<T> {
    Submitted(T),
    Refresh,
    Quit,
}

/// What an event leads to. With `wants_completion` the candidates for the text
/// at the cursor are to be gathered.
#[derive(Debug, PartialEq, Eq)]
pub struct InputEventResult<T> {
    pub redraw: bool,
    pub outcome: Option<InputResult<T>>,
    pub wants_completion: bool,
}

impl View for InputEventResult<String> {
    type V = InputEventResult<Seq<char>>;

    open spec fn view(&self) -> InputEventResult<Seq<char>> {
        InputEventResult {
            redraw: self.redraw,
            outcome: match self.outcome {
                Some(InputResult::Submitted(t)) => Some(InputResult::Submitted(t@)),
                Some(InputResult::Refresh) => Some(InputResult::Refresh),
                Some(InputResult::Quit) => Some(InputResult::Quit),
                None => None,
            },
            wants_completion: self.wants_completion,
        }
    }
}

/// The state that events act on.
#[verifier::ext_equal]
pub struct EditorView {
    pub input: InputView,
    pub output: OutputView,
    pub last_interrupt: Option<u64>,
}

impl EditorView {
    /// The line was edited.
    pub open spec fn with_input(self, input: InputView) -> EditorView {
        EditorView { input, last_interrupt: None, ..self }
    }

    /// The transcript was scrolled.
    pub open spec fn with_output(self, output: OutputView) -> EditorView {
        EditorView { output, last_interrupt: None, ..self }
    }
}

/// The result of an event after which editing goes on.
pub open spec fn go_on(redraw: bool, wants_completion: bool) -> InputEventResult<Seq<char>> {
    InputEventResult { redraw, outcome: None, wants_completion }
}

/// The result of an event that ends editing.
pub open spec fn finish(redraw: bool, outcome: InputResult<Seq<char>>) -> InputEventResult<
    Seq<char>,
> {
    InputEventResult { redraw, outcome: Some(outcome), wants_completion: false }
}

/// What an action makes of the state, and what it leads to.
pub open spec fn action_effect(
    v: EditorView,
    action: KeyAction,
    history: Seq<Seq<char>>,
    now: u64,
    rows: int,
) -> (EditorView, InputEventResult<Seq<char>>) {
    let line = v.input;
    match action {
        KeyAction::WordLeft => (v.with_input(line.moved_word_left()), go_on(true, false)),
        KeyAction::WordRight => (v.with_input(line.moved_word_right()), go_on(true, false)),
        KeyAction::EraseWordLeft => (v.with_input(line.without_last_word()), go_on(true, false)),
        KeyAction::EraseWordRight => (v.with_input(line.without_next_word()), go_on(true, false)),
        KeyAction::Interrupt => {
            let armed = armed_by(v.last_interrupt, now, CTRL_C_EXIT_TIMEOUT);
            if second_press(v.last_interrupt, now, CTRL_C_EXIT_TIMEOUT) {
                (EditorView { last_interrupt: armed, ..v }, finish(false, InputResult::Quit))
            } else {
                (
                    EditorView {
                        input: InputView::blank(),
                        output: v.output.extended(plain_lines(CTRL_C_EXIT_MESSAGE@)).at_end(),
                        last_interrupt: armed,
                    },
                    finish(true, InputResult::Submitted(Seq::empty())),
                )
            }
        },
        KeyAction::Quit => (v, finish(false, InputResult::Quit)),
        KeyAction::Submit => (
            v.with_input(InputView::blank()),
            finish(false, InputResult::Submitted(line.text())),
        ),
        KeyAction::Backspace => (v.with_input(line.backspaced()), go_on(true, false)),
        KeyAction::Delete => (v.with_input(line.deleted()), go_on(true, false)),
        KeyAction::Left => (v.with_input(line.moved_left()), go_on(true, false)),
        KeyAction::Right => (v.with_input(line.moved_right()), go_on(true, false)),
        KeyAction::Home => (v.with_input(line.moved_to(0)), go_on(true, false)),
        KeyAction::End => (
            v.with_input(line.moved_to(line.text().len() as int)),
            go_on(true, false),
        ),
        KeyAction::KillToEnd => (
            v.with_input(line.edited(line.before, Seq::empty())),
            go_on(true, false),
        ),
        KeyAction::KillToStart => (
            v.with_input(line.edited(Seq::empty(), line.after)),
            go_on(true, false),
        ),
        KeyAction::EraseInk => (v.with_input(line.without_last_ink()), go_on(true, false)),
        KeyAction::HistoryBack => (v.with_input(line.history_back(history)), go_on(true, false)),
        KeyAction::HistoryForward => (
            v.with_input(line.history_forward(history)),
            go_on(true, false),
        ),
        KeyAction::Complete => if line.completing() {
            (v.with_input(line.next_candidate()), go_on(true, false))
        } else {
            (v.with_input(line), go_on(true, true))
        },
        KeyAction::PageUp => (v.with_output(v.output.paged_up(rows)), go_on(true, false)),
        KeyAction::PageDown => (v.with_output(v.output.paged_down(rows)), go_on(true, false)),
        KeyAction::Insert(c) => (v.with_input(line.inserted(seq![c])), go_on(true, false)),
        KeyAction::Nothing => (v, go_on(false, false)),
    }
}

/// What an event makes of the state, and what it leads to.
pub open spec fn event_effect(
    v: EditorView,
    event: InputEvent<Seq<char>>,
    history: Seq<Seq<char>>,
    now: u64,
    rows: int,
) -> (EditorView, InputEventResult<Seq<char>>) {
    match event {
        InputEvent::Paste(text) => (v.with_input(v.input.inserted(text)), go_on(true, false)),
        InputEvent::Key(code, modifiers, kind) => if kind == KeyEventKind::Release {
            (v, go_on(false, false))
        } else {
            action_effect(
                v,
                key_action(code, modifiers, v.input.text().len() == 0),
                history,
                now,
                rows,
            )
        },
        InputEvent::Other => (v, go_on(false, false)),
    }
}

/// The state made of its parts.
pub open spec fn editor_view(
    input: InputState,
    interrupt: InterruptState,
    output: OutputState,
) -> EditorView {
    EditorView { input: input@, output: output@, last_interrupt: interrupt.last_interrupt }
}

fn carry_on(redraw: bool, wants_completion: bool) -> (r: InputEventResult<String>)
    ensures
        r@ == go_on(redraw, wants_completion),
{
    InputEventResult { redraw, outcome: None, wants_completion }
}

/// Performs an action.
pub fn perform_action(
    action: KeyAction,
    input_state: &mut InputState,
    interrupt_state: &mut InterruptState,
    output_state: &mut OutputState,
    history: &Vec<String>,
    now: u64,
    view_rows: usize,
) -> (r: InputEventResult<String>)
    requires
        old(input_state).wf(),
        old(input_state).history_fits(history@.len() as int),
        old(output_state).wf(),
    ensures
        final(input_state).wf(),
        final(input_state).history_fits(history@.len() as int),
        final(output_state).wf(),
        (editor_view(*final(input_state), *final(interrupt_state), *final(output_state)), r@)
            == action_effect(
            editor_view(*old(input_state), *old(interrupt_state), *old(output_state)),
            action,
            texts(history@),
            now,
            view_rows as int,
        ),
{
    match action {
        KeyAction::Interrupt => {
            match interrupt_state.handle_interrupt(now) {
                InterruptAction::Continue => {
                    output_state.push_text(CTRL_C_EXIT_MESSAGE);
                    output_state.reset_scroll();
                    input_state.clear();
                    return InputEventResult {
                        redraw: true,
                        outcome: Some(InputResult::Submitted(String::new())),
                        wants_completion: false,
                    };
                },
                InterruptAction::Exit => {
                    return InputEventResult {
                        redraw: false,
                        outcome: Some(InputResult::Quit),
                        wants_completion: false,
                    };
                },
            }
        },
        KeyAction::Quit => {
            return InputEventResult {
                redraw: false,
                outcome: Some(InputResult::Quit),
                wants_completion: false,
            };
        },
        KeyAction::Nothing => {
            return carry_on(false, false);
        },
        _ => {},
    }
    interrupt_state.reset();
    match action {
        KeyAction::WordLeft => input_state.move_backward_readline_word(),
        KeyAction::WordRight => input_state.move_forward_readline_word(),
        KeyAction::EraseWordLeft => input_state.delete_backward_readline_word(),
        KeyAction::EraseWordRight => input_state.delete_forward_readline_word(),
        KeyAction::Submit => {
            let input = input_state.as_str().to_string();
            input_state.clear();
            return InputEventResult {
                redraw: false,
                outcome: Some(InputResult::Submitted(input)),
                wants_completion: false,
            };
        },
        KeyAction::Backspace => input_state.backspace(),
        KeyAction::Delete => input_state.delete(),
        KeyAction::Left => input_state.move_left(),
        KeyAction::Right => input_state.move_right(),
        KeyAction::Home => input_state.move_home(),
        KeyAction::End => input_state.move_end(),
        KeyAction::KillToEnd => input_state.kill_to_end(),
        KeyAction::KillToStart => input_state.kill_to_start(),
        KeyAction::EraseInk => input_state.delete_prev_word(),
        KeyAction::HistoryBack => history_previous(input_state, history),
        KeyAction::HistoryForward => history_next(input_state, history),
        KeyAction::Complete => {
            if input_state.is_completing() {
                input_state.cycle_completion();
            } else {
                return carry_on(true, true);
            }
        },
        KeyAction::PageUp => output_state.page_up(view_rows),
        KeyAction::PageDown => output_state.page_down(view_rows),
        KeyAction::Insert(c) => input_state.insert_char(c),
        KeyAction::Interrupt | KeyAction::Quit | KeyAction::Nothing => {},
    }
    carry_on(true, false)
}

/// Reacts to an event of the terminal. `view_rows` is the number of rows of the
/// transcript on the screen, `now` the time in nanoseconds.
pub fn handle_input_event(
    event: InputEvent<String>,
    input_state: &mut InputState,
    interrupt_state: &mut InterruptState,
    output_state: &mut OutputState,
    history: &Vec<String>,
    now: u64,
    view_rows: usize,
) -> (r: InputEventResult<String>)
    requires
        old(input_state).wf(),
        old(input_state).history_fits(history@.len() as int),
        old(output_state).wf(),
    ensures
        final(input_state).wf(),
        final(input_state).history_fits(history@.len() as int),
        final(output_state).wf(),
        (editor_view(*final(input_state), *final(interrupt_state), *final(output_state)), r@)
            == event_effect(
            editor_view(*old(input_state), *old(interrupt_state), *old(output_state)),
            event@,
            texts(history@),
            now,
            view_rows as int,
        ),
{
    match event {
        InputEvent::Paste(text) => {
            interrupt_state.reset();
            input_state.insert_str(text.as_str());
            carry_on(true, false)
        },
        InputEvent::Key(code, modifiers, kind) => {
            if kind == KeyEventKind::Release {
                return carry_on(false, false);
            }
            let line_empty = input_state.as_str().is_empty();
            let action = decide_key_action(code, modifiers, line_empty);
            perform_action(
                action,
                input_state,
                interrupt_state,
                output_state,
                history,
                now,
                view_rows,
            )
        },
        InputEvent::Other => carry_on(false, false),
    }
}

/// Whether an event is a press of Escape.
pub open spec fn escape_press(event: InputEvent<Seq<char>>) -> bool {
    event matches InputEvent::Key(code, _, kind) && code == KeyCode::Esc && kind
        == KeyEventKind::Press
}

/// Tells whether an event is a press of Escape, which may cancel a request.
pub fn is_wait_cancel_escape(event: &InputEvent<String>) -> (r: bool)
    ensures
        r == escape_press(event@),
{
    match event {
        InputEvent::Key(code, _, kind) => *code == KeyCode::Esc && *kind == KeyEventKind::Press,
        _ => false,
    }
}

/// Any key but Ctrl+C that does something disarms the exit: the next Ctrl+C
/// asks again.
pub proof fn law_other_keys_disarm_the_exit(
    v: EditorView,
    action: KeyAction,
    history: Seq<Seq<char>>,
    now: u64,
    rows: int,
    later: u64,
)
    requires
        action != KeyAction::Interrupt,
        action != KeyAction::Quit,
        action != KeyAction::Nothing,
    ensures
        !second_press(
            action_effect(v, action, history, now, rows).0.last_interrupt,
            later,
            CTRL_C_EXIT_TIMEOUT,
        ),
{
}

/// The client quits only on the second Ctrl+C within the timeout, or on Ctrl+D
/// in an empty line.
pub proof fn law_quit_needs_confirmation(
    v: EditorView,
    event: InputEvent<Seq<char>>,
    history: Seq<Seq<char>>,
    now: u64,
    rows: int,
)
    requires
        event_effect(v, event, history, now, rows).1.outcome == Some(
            InputResult::<Seq<char>>::Quit,
        ),
    ensures
        event matches InputEvent::Key(code, modifiers, _) && modifiers.is_control() && (code
            == KeyCode::Char('c') && second_press(v.last_interrupt, now, CTRL_C_EXIT_TIMEOUT)
            || code == KeyCode::Char('d') && v.input.text().len() == 0),
{
}

/// Enter hands over exactly the text of the line, and leaves an empty one.
pub proof fn law_enter_submits_the_line(
    v: EditorView,
    history: Seq<Seq<char>>,
    now: u64,
    rows: int,
)
    ensures
        ({
            let none = KeyModifiers { shift: false, control: false, alt: false, others: false };
            let event = InputEvent::Key(KeyCode::Enter, none, KeyEventKind::Press);
            let (w, r) = event_effect(v, event, history, now, rows);
            r.outcome == Some(InputResult::Submitted(v.input.text())) && w.input
                == InputView::blank()
        }),
{
}

} // verus!
