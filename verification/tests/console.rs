use orangu_console::ansi::{ANSI_FG_LIGHT_GREEN, ANSI_FG_LIGHT_RED, ANSI_RESET};
use orangu_console::command::ShowFileOptions;
use orangu_console::completion::is_protected_branch;
use orangu_console::git::with_explicit_pager_width;
use orangu_console::input::InputState;
use orangu_console::output::{OutputState, TranscriptLine};
use orangu_console::shell::shell_words;
use orangu_console::show_file::{format_show_file_line, GitLineMetadata};
use orangu_console::status::colorize_git_status;
use orangu_console::answers::final_pending_line;

#[test]
fn output_state_keeps_last_ten_thousand_lines() {
    let mut output_state = OutputState::default();
    for index in 0..10_005 {
        output_state.push_text(&format!("line {index}"));
    }

    assert_eq!(output_state.lines().len(), 10_000);
    assert_eq!(
        output_state.lines().first().map(TranscriptLine::as_str),
        Some("line 5")
    );
    assert_eq!(
        output_state.lines().last().map(TranscriptLine::as_str),
        Some("line 10004")
    );
}

#[test]
fn output_state_styles_echoed_user_input() {
    let mut output_state = OutputState::default();

    output_state.push_input("> show README.md");
    output_state.push_text("plain output");

    assert!(
        matches!(output_state.lines().first(), Some(TranscriptLine::UserInput(s)) if s == "> show README.md")
    );
    assert!(
        matches!(output_state.lines().get(1), Some(TranscriptLine::Plain(s)) if s == "plain output")
    );
}

#[test]
fn ctrl_w_keeps_whitespace_based_word_deletion() {
    let mut input_state = InputState::default();
    input_state.set_buffer("src/tui.rs".to_string());

    input_state.delete_prev_word();

    assert_eq!(input_state.as_str(), "");
    assert_eq!(input_state.cursor(), 0);
}

#[test]
fn colorizes_git_status_output() {
    let raw = "## main...origin/main\nA  new_file.rs\n M modified.rs\nD  deleted.rs\n?? untracked.txt\n";
    let colored = colorize_git_status(raw);
    // Branch line uses subtle color
    assert!(colored.contains("## main...origin/main"));
    // Added line (A) uses green
    let green_start = colored
        .find(ANSI_FG_LIGHT_GREEN)
        .expect("green color present");
    assert!(colored[green_start..].contains("new_file.rs"));
    // Deleted line (D) uses red
    let red_start = colored.find(ANSI_FG_LIGHT_RED).expect("red color present");
    assert!(colored[red_start..].contains("deleted.rs"));
    // Modified line (M) has no special color prefix
    let mod_idx = colored.find("modified.rs").expect("modified.rs present");
    let before_mod = &colored[..mod_idx];
    assert!(!before_mod.ends_with(ANSI_FG_LIGHT_RED));
    assert!(!before_mod.ends_with(ANSI_FG_LIGHT_GREEN));
    // Untracked (??) uses green
    assert!(colored.contains("untracked.txt"));
    let green_positions: Vec<_> = colored.match_indices(ANSI_FG_LIGHT_GREEN).collect();
    assert!(green_positions.len() >= 2);
}

#[test]
fn force_push_blocked_on_protected_branches() {
    assert!(is_protected_branch("main"));
    assert!(is_protected_branch("master"));
    assert!(!is_protected_branch("feature/my-branch"));
    assert!(!is_protected_branch("develop"));
}

#[test]
fn adds_explicit_width_to_delta_pager_command() {
    assert_eq!(
        with_explicit_pager_width("delta --side-by-side", 123),
        "delta --side-by-side --width=123"
    );
    assert_eq!(
        with_explicit_pager_width("/usr/bin/delta --width=90 --side-by-side", 123),
        "/usr/bin/delta --width=90 --side-by-side"
    );
    assert_eq!(with_explicit_pager_width("less -FRX", 123), "less -FRX");
}

#[test]
fn splits_editor_command_and_flags() {
    assert_eq!(
        shell_words("code --wait").expect("editor command"),
        vec!["code".to_string(), "--wait".to_string()]
    );
    assert_eq!(
        shell_words("\"/tmp/my editor\" --flag").expect("quoted editor command"),
        vec!["/tmp/my editor".to_string(), "--flag".to_string()]
    );
}

#[test]
fn final_pending_line_keeps_visible_output() {
    assert_eq!(
        final_pending_line("streamed reply", "final reply").as_deref(),
        Some("streamed reply")
    );
    assert_eq!(
        final_pending_line("", "final reply").as_deref(),
        Some("final reply")
    );
    assert_eq!(final_pending_line("", ""), None);
}

#[test]
fn show_file_formatting_bounds_ansi_to_source_column() {
    let metadata = GitLineMetadata {
        hash: "deadbeef".to_string(),
        author: "Alice".to_string(),
    };

    let rendered = format_show_file_line(
        7,
        "\x1b[38;2;1;2;3mlet x = 1;",
        Some(&metadata),
        ShowFileOptions {
            show_hash: true,
            show_author: true,
        },
        2,
    );

    assert_eq!(
        rendered,
        format!(" 7 deadbeef Alice {ANSI_RESET}\x1b[38;2;1;2;3mlet x = 1;{ANSI_RESET}")
    );
}
