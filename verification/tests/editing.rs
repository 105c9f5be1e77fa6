use orangu_console::events::{
    handle_input_event, is_wait_cancel_escape, InputEvent, InputEventResult, InputResult, KeyCode,
    KeyEventKind, KeyModifiers, CTRL_C_EXIT_MESSAGE,
};
use orangu_console::input::{
    history_next, history_previous, is_readline_word_char, readline_word_end, readline_word_start,
    InputState,
};
use orangu_console::output::OutputState;
use orangu_console::press::{
    idle_status_refresh_timeout, EscapeCancelState, InterruptAction, InterruptState,
    IDLE_STATUS_REFRESH_INTERVAL,
};

const SECOND: u64 = 1_000_000_000;

const NONE: KeyModifiers = KeyModifiers {
    shift: false,
    control: false,
    alt: false,
    others: false,
};

const ALT: KeyModifiers = KeyModifiers {
    shift: false,
    control: false,
    alt: true,
    others: false,
};

const CONTROL: KeyModifiers = KeyModifiers {
    shift: false,
    control: true,
    alt: false,
    others: false,
};

struct Editor {
    input: InputState,
    interrupt: InterruptState,
    output: OutputState,
    history: Vec<String>,
}

impl Editor {
    fn with(text: &str) -> Editor {
        let mut input = InputState::default();
        input.set_buffer(text.to_string());
        Editor {
            input,
            interrupt: InterruptState::default(),
            output: OutputState::default(),
            history: vec![],
        }
    }

    fn press(&mut self, code: KeyCode, modifiers: KeyModifiers) -> InputEventResult<String> {
        self.press_at(code, modifiers, 0)
    }

    fn press_at(
        &mut self,
        code: KeyCode,
        modifiers: KeyModifiers,
        now: u64,
    ) -> InputEventResult<String> {
        handle_input_event(
            InputEvent::Key(code, modifiers, KeyEventKind::Press),
            &mut self.input,
            &mut self.interrupt,
            &mut self.output,
            &self.history,
            now,
            10,
        )
    }
}

#[test]
fn alt_backspace_deletes_previous_bash_word() {
    let mut editor = Editor::with("src/tui.rs");
    let result = editor.press(KeyCode::Backspace, ALT);
    assert!(result.redraw);
    assert!(result.outcome.is_none());
    assert_eq!(editor.input.as_str(), "src/tui.");
    assert_eq!(editor.input.cursor(), "src/tui.".len());
}

#[test]
fn alt_d_deletes_next_bash_word() {
    let mut editor = Editor::with("src/tui.rs");
    editor.input.move_home();
    let result = editor.press(KeyCode::Char('d'), ALT);
    assert!(result.redraw);
    assert!(result.outcome.is_none());
    assert_eq!(editor.input.as_str(), "/tui.rs");
    assert_eq!(editor.input.cursor(), 0);
}

#[test]
fn ctrl_left_moves_to_previous_bash_word() {
    let mut editor = Editor::with("src/tui.rs");
    let result = editor.press(KeyCode::Left, CONTROL);
    assert!(result.redraw);
    assert!(result.outcome.is_none());
    assert_eq!(editor.input.cursor(), "src/tui.".len());
}

#[test]
fn ctrl_right_moves_to_next_bash_word() {
    let mut editor = Editor::with("src/tui.rs");
    editor.input.move_home();
    let result = editor.press(KeyCode::Right, CONTROL);
    assert!(result.redraw);
    assert!(result.outcome.is_none());
    assert_eq!(editor.input.cursor(), 3);
}

#[test]
fn wait_cancel_escape_only_matches_escape_press() {
    assert!(is_wait_cancel_escape(&InputEvent::Key(
        KeyCode::Esc,
        NONE,
        KeyEventKind::Press
    )));
    assert!(!is_wait_cancel_escape(&InputEvent::Key(
        KeyCode::Esc,
        NONE,
        KeyEventKind::Repeat
    )));
    assert!(!is_wait_cancel_escape(&InputEvent::Key(
        KeyCode::Enter,
        NONE,
        KeyEventKind::Press
    )));
}

#[test]
fn escape_cancel_requires_two_presses_within_timeout() {
    let mut cancel_state = EscapeCancelState::default();
    let start: u64 = 7 * SECOND;

    assert!(!cancel_state.handle_escape(start));
    assert!(cancel_state.handle_escape(start + SECOND / 2));

    assert!(!cancel_state.handle_escape(start + 5 * SECOND));
    assert!(!cancel_state.handle_escape(start + 8 * SECOND));
}

#[test]
fn idle_refresh_timeout_hits_zero_at_deadline() {
    let start: u64 = 7 * SECOND;
    assert_eq!(
        idle_status_refresh_timeout(start + 60 * SECOND, start),
        60 * SECOND
    );
    assert_eq!(
        idle_status_refresh_timeout(start + 60 * SECOND, start + 61 * SECOND),
        0
    );
    assert_eq!(IDLE_STATUS_REFRESH_INTERVAL, 60 * SECOND);
}

#[test]
fn ctrl_c_twice_quits() {
    let mut editor = Editor::with("");
    editor.input.set_buffer("half a line".to_string());
    let first = editor.press_at(KeyCode::Char('c'), CONTROL, SECOND);
    assert_eq!(first.outcome, Some(InputResult::Submitted(String::new())));
    assert_eq!(editor.input.as_str(), "");
    assert_eq!(
        editor.output.lines().last().map(|l| l.as_str()),
        Some(CTRL_C_EXIT_MESSAGE)
    );
    let second = editor.press_at(KeyCode::Char('c'), CONTROL, 2 * SECOND);
    assert_eq!(second.outcome, Some(InputResult::Quit));
}

#[test]
fn another_key_disarms_the_exit() {
    let mut editor = Editor::with("");
    editor.press_at(KeyCode::Char('c'), CONTROL, SECOND);
    editor.press_at(KeyCode::Char('x'), NONE, SECOND);
    let again = editor.press_at(KeyCode::Char('c'), CONTROL, SECOND + 1);
    assert_eq!(again.outcome, Some(InputResult::Submitted(String::new())));

    let mut state = InterruptState::default();
    assert_eq!(state.handle_interrupt(0), InterruptAction::Continue);
    state.reset();
    assert_eq!(state.handle_interrupt(1), InterruptAction::Continue);
    assert_eq!(state.handle_interrupt(1 + 3 * SECOND), InterruptAction::Continue);
    assert_eq!(state.handle_interrupt(2 + 3 * SECOND), InterruptAction::Exit);
}

#[test]
fn ctrl_d_quits_on_an_empty_line_only() {
    assert_eq!(
        Editor::with("").press(KeyCode::Char('d'), CONTROL).outcome,
        Some(InputResult::Quit)
    );
    let mut editor = Editor::with("ab");
    editor.input.move_home();
    assert!(editor.press(KeyCode::Char('d'), CONTROL).outcome.is_none());
    assert_eq!(editor.input.as_str(), "b");
}

#[test]
fn enter_submits_and_clears_the_line() {
    let mut editor = Editor::with("show README.md");
    let result = editor.press(KeyCode::Enter, NONE);
    assert_eq!(
        result.outcome,
        Some(InputResult::Submitted("show README.md".to_string()))
    );
    assert_eq!(editor.input.as_str(), "");
}

#[test]
fn released_keys_do_nothing() {
    let mut editor = Editor::with("abc");
    let result = handle_input_event(
        InputEvent::Key(KeyCode::Backspace, NONE, KeyEventKind::Release),
        &mut editor.input,
        &mut editor.interrupt,
        &mut editor.output,
        &editor.history,
        0,
        10,
    );
    assert!(!result.redraw);
    assert_eq!(editor.input.as_str(), "abc");
}

#[test]
fn pasted_text_is_inserted_at_the_cursor() {
    let mut editor = Editor::with("ab");
    editor.input.move_left();
    let result = handle_input_event(
        InputEvent::Paste("é!".to_string()),
        &mut editor.input,
        &mut editor.interrupt,
        &mut editor.output,
        &editor.history,
        0,
        10,
    );
    assert!(result.redraw);
    assert_eq!(editor.input.as_str(), "aé!b");
    assert_eq!(editor.input.cursor(), 4);
}

#[test]
fn tab_asks_for_completion_and_cycles() {
    let mut editor = Editor::with("/mo x");
    assert!(editor.press(KeyCode::Tab, NONE).wants_completion);
    editor.input.begin_completion(
        0,
        3,
        vec!["/model".to_string(), "/move_file".to_string()],
    );
    assert!(editor.input.is_completing());
    assert_eq!(editor.input.as_str(), "/model x");
    assert_eq!(editor.input.cursor(), 6);
    assert!(!editor.press(KeyCode::Tab, NONE).wants_completion);
    assert_eq!(editor.input.as_str(), "/move_file x");
    editor.press(KeyCode::Tab, NONE);
    assert_eq!(editor.input.as_str(), "/model x");
    editor.press(KeyCode::Char('!'), NONE);
    assert_eq!(editor.input.as_str(), "/model! x");
    assert!(!editor.input.is_completing());
}

#[test]
fn backspace_undoes_an_insertion() {
    let mut input = InputState::default();
    input.set_buffer("héllo".to_string());
    input.move_left();
    input.insert_char('ß');
    assert_eq!(input.as_str(), "héllßo");
    input.backspace();
    assert_eq!(input.as_str(), "héllo");
    assert_eq!(input.cursor(), "héll".len());
    input.delete();
    assert_eq!(input.as_str(), "héll");
    input.delete();
    assert_eq!(input.as_str(), "héll");
}

#[test]
fn moves_go_over_whole_characters() {
    let mut input = InputState::default();
    input.set_buffer("aé".to_string());
    input.move_left();
    assert_eq!(input.cursor(), 1);
    input.move_left();
    input.move_left();
    assert_eq!(input.cursor(), 0);
    input.move_right();
    input.move_right();
    input.move_right();
    assert_eq!(input.cursor(), 3);
    assert_eq!(input.as_str(), "aé");
}

#[test]
fn lines_are_killed_on_either_side() {
    let mut input = InputState::default();
    input.set_buffer("one two".to_string());
    input.move_backward_readline_word();
    input.kill_to_end();
    assert_eq!(input.as_str(), "one ");
    input.set_buffer("one two".to_string());
    input.move_backward_readline_word();
    input.kill_to_start();
    assert_eq!(input.as_str(), "two");
    assert_eq!(input.cursor(), 0);
}

#[test]
fn white_space_before_the_word_goes_with_it() {
    let mut input = InputState::default();
    input.set_buffer("one two/three  ".to_string());
    input.delete_prev_word();
    assert_eq!(input.as_str(), "one ");
}

#[test]
fn the_history_gives_the_draft_back() {
    let history = vec!["first".to_string(), "second".to_string()];
    let mut input = InputState::default();
    input.set_buffer("draft".to_string());
    history_previous(&mut input, &history);
    assert_eq!(input.as_str(), "second");
    history_previous(&mut input, &history);
    assert_eq!(input.as_str(), "first");
    history_previous(&mut input, &history);
    assert_eq!(input.as_str(), "first");
    history_next(&mut input, &history);
    assert_eq!(input.as_str(), "second");
    history_next(&mut input, &history);
    assert_eq!(input.as_str(), "draft");
    history_next(&mut input, &history);
    assert_eq!(input.as_str(), "draft");
    for _ in 0..5 {
        history_previous(&mut input, &history);
    }
    assert_eq!(input.as_str(), "first");
    for _ in 0..5 {
        history_next(&mut input, &history);
    }
    assert_eq!(input.as_str(), "draft");
}

#[test]
fn underscores_end_words() {
    assert!(is_readline_word_char('a'));
    assert!(is_readline_word_char('é'));
    assert!(is_readline_word_char('7'));
    assert!(!is_readline_word_char('_'));
    assert!(!is_readline_word_char('/'));
    assert_eq!(readline_word_start("one_two"), 4);
    assert_eq!(readline_word_start("one two  "), 4);
    assert_eq!(readline_word_end("  one_two"), 5);
    assert_eq!(readline_word_end("éa b"), 2);
}
