use orangu_console::answers::{
    choose_left_status, preserve_cancelled_output, render_left_status, request_cancelled_message,
    LeftStatus, Tokenizer,
};
use orangu_console::ansi::{ANSI_FG_LIGHT_RED, ANSI_RESET};
use orangu_console::client::{
    admit_prompt, after_event, count_answer_tokens, generated, llm_prompt_block_reason, models_url,
    probe_header_status, show_answer, show_outcome, AfterCommand, Console, HeaderStatus,
    ModelEntry, PromptGate, ReadStep, ServerProbe, TurnStep, WaitResult, WaitScreen, WaitStep,
};
use orangu_console::dispatch::{
    answer_is_shown, editor_command, finish_command, handle_command, CommandContext,
    CommandOutcome, CommandStep, GitCommand, SessionEffect,
};
use orangu_console::events::{
    InputEvent, InputEventResult, InputResult, KeyCode, KeyEventKind, KeyModifiers,
};
use orangu_console::highlight::syntax_highlight_assets;
use orangu_console::history::{
    classify_submission, echo_line, history_line, load_history, Submission,
};
use orangu_console::output::{OutputState, TranscriptLine};
use orangu_console::press::EscapeCancelState;
use orangu_console::profiles::{
    format_models, format_tools, sorted_model_names, system_prompt, Profile, Profiles, ToolInfo,
};
use orangu_console::report::{count_answer, resume_command, usage_report, UsageFigures};

const NO_USE: UsageFigures = UsageFigures {
    total_time: 0,
    waiting_time: 0,
    tokens: 0,
};

fn list(items: &[&str]) -> Vec<String> {
    items.iter().map(|s| s.to_string()).collect()
}

fn profile(name: &str, provider: &str, endpoint: &str, model: &str) -> Profile<String> {
    Profile {
        name: name.to_string(),
        provider: provider.to_string(),
        model: model.to_string(),
        endpoint: endpoint.to_string(),
        normalized_endpoint: endpoint.trim_end_matches("/v1").to_string(),
        system_prompt: String::new(),
    }
}

fn context(startup: &str, entries: Vec<Profile<String>>) -> CommandContext {
    let mut profiles = Profiles::new();
    for entry in entries {
        profiles.insert(entry);
    }
    CommandContext {
        startup_model: startup.to_string(),
        startup_endpoint: "http://localhost:8100".to_string(),
        profiles,
        tools: vec![ToolInfo {
            name: "read_file".to_string(),
            description: "Reads a file".to_string(),
        }],
        help_text: "the help".to_string(),
        usage: NO_USE,
    }
}

fn llama() -> CommandContext {
    context(
        "llama",
        vec![profile("llama", "llama.cpp", "http://localhost:8100/v1", "gemma")],
    )
}

fn run(input: &str, context: &CommandContext) -> (Result<CommandStep<String>, String>, SessionEffect<String>) {
    let mut model = context.startup_model.clone();
    let mut endpoint = Some("http://localhost:8100".to_string());
    handle_command(input, &mut model, &mut endpoint, context)
}

fn shown(output: &OutputState) -> Vec<String> {
    output.lines().iter().map(|l| l.as_str().to_string()).collect()
}

#[test]
fn missing_required_command_arguments_return_usage_output() {
    for (input, expected) in [
        (
            "/show_file",
            "Usage: /show_file [--hash] [--author] <path>. Use /help to see available commands.",
        ),
        (
            "/show_file --hash",
            "Usage: /show_file [--hash] [--author] <path>. Use /help to see available commands.",
        ),
        (
            "/open_file",
            "Usage: /open_file <path>. Use /help to see available commands.",
        ),
    ] {
        let (step, _) = run(input, &llama());
        assert!(
            matches!(step, Ok(CommandStep::Done(CommandOutcome::Output(message))) if message == expected),
            "unexpected outcome for {input:?}"
        );
    }
}

#[test]
fn other_commands_without_arguments_show_their_usage() {
    for (input, expected) in [
        ("/pull", "Usage: /pull <number>. Use /help to see available commands."),
        ("/merge", "Usage: /merge <branch>. Use /help to see available commands."),
        ("/checkout", "Usage: /checkout <branch|file>. Use /help to see available commands."),
        ("/add_file", "Usage: /add_file <path>. Use /help to see available commands."),
        ("/remove_file", "Usage: /remove_file <path>. Use /help to see available commands."),
        ("/move_file a", "Usage: /move_file <source> <destination>. Use /help to see available commands."),
        ("/cherry_pick", "Usage: /cherry_pick <commit>. Use /help to see available commands."),
        ("/commit", "Usage: /commit <message>. Use /help to see available commands."),
        ("/delete", "Usage: /delete <branch>"),
    ] {
        assert_eq!(
            run(input, &llama()).0,
            Ok(CommandStep::Done(CommandOutcome::Output(expected.to_string()))),
            "{input:?}"
        );
    }
}

#[test]
fn set_model_switches_active_endpoint() {
    let gemma = "gemma-4-E4B-it-GGUF";
    let openai = "gpt-4.1";
    let context = context(
        gemma,
        vec![
            profile(gemma, "llama.cpp", "http://localhost:8100/v1", "ggml-org/gemma-4-E4B-it-GGUF"),
            profile(openai, "openai", "https://api.openai.com/v1", "gpt-4.1"),
        ],
    );
    let mut active_model = gemma.to_string();
    let mut current_endpoint = Some("http://localhost:8100".to_string());
    let (step, effect) =
        handle_command("/model gpt-4.1", &mut active_model, &mut current_endpoint, &context);
    assert_eq!(step, Ok(CommandStep::Done(CommandOutcome::Quiet)));
    assert_eq!(active_model, openai);
    assert_eq!(current_endpoint, Some("https://api.openai.com".to_string()));
    assert!(matches!(effect, SessionEffect::SetSystemPrompt(_)));
}

#[test]
fn unknown_models_are_told() {
    assert_eq!(
        run("/model nope", &llama()).0,
        Ok(CommandStep::Done(CommandOutcome::Output(
            "Unknown model profile 'nope'. Available: llama".to_string()
        )))
    );
    let mut model = "gone".to_string();
    let mut endpoint = None;
    assert_eq!(
        handle_command("/connect", &mut model, &mut endpoint, &llama()).0,
        Err("unknown model profile 'gone'".to_string())
    );
}

#[test]
fn unknown_slash_commands_error_locally() {
    let (step, _) = run("/unknown", &llama());
    assert_eq!(
        step,
        Ok(CommandStep::Done(CommandOutcome::Output(
            "Unknown command '/unknown'. Use /help to see available commands.".to_string()
        )))
    );
}

#[test]
fn commands_that_need_the_outside_say_what_they_need() {
    assert_eq!(run("/list_files", &llama()).0, Ok(CommandStep::ListFiles));
    assert_eq!(
        run("open README.md", &llama()).0,
        Ok(CommandStep::OpenFile("README.md".to_string()))
    );
    assert_eq!(
        run("git mv a b", &llama()).0,
        Ok(CommandStep::Git(GitCommand::MoveFile("a".to_string(), "b".to_string())))
    );
    assert_eq!(
        run("what is this?", &llama()).0,
        Ok(CommandStep::Done(CommandOutcome::Unhandled))
    );
    assert_eq!(
        run("/help", &llama()).0,
        Ok(CommandStep::Done(CommandOutcome::Output("the help".to_string())))
    );
    assert_eq!(
        run("/tools", &llama()).0,
        Ok(CommandStep::Done(CommandOutcome::Output("- read_file: Reads a file".to_string())))
    );
    assert_eq!(run("/quit", &llama()).0, Ok(CommandStep::Done(CommandOutcome::Quit)));
}

#[test]
fn disconnecting_and_reloading() {
    let context = llama();
    let mut model = "llama".to_string();
    let mut endpoint = Some("http://elsewhere".to_string());
    handle_command("/disconnect", &mut model, &mut endpoint, &context);
    assert_eq!(endpoint, None);
    handle_command("/reload", &mut model, &mut endpoint, &context);
    assert_eq!(model, "llama");
    assert_eq!(endpoint, Some("http://localhost:8100".to_string()));
}

#[test]
fn clearing_starts_the_conversation_anew() {
    let (step, effect) = run("/clear", &llama());
    assert_eq!(step, Ok(CommandStep::Done(CommandOutcome::Cleared)));
    assert!(matches!(effect, SessionEffect::Clear(prompt) if prompt.starts_with("You are Orangu")));
}

#[test]
fn outcomes_are_shown() {
    let mut output = OutputState::default();
    assert_eq!(
        show_outcome(&mut output, CommandOutcome::Output("a\nb".to_string())),
        AfterCommand::NextTurn
    );
    assert_eq!(shown(&output), list(&["a", "b"]));
    assert_eq!(show_outcome(&mut output, CommandOutcome::Quiet), AfterCommand::NextTurn);
    assert_eq!(show_outcome(&mut output, CommandOutcome::Unhandled), AfterCommand::Prompt);
    assert_eq!(show_outcome(&mut output, CommandOutcome::Quit), AfterCommand::Exit);
    assert_eq!(output.lines().len(), 2);
    assert_eq!(show_outcome(&mut output, CommandOutcome::Cleared), AfterCommand::NextTurn);
    assert!(output.lines().is_empty());
}

#[test]
fn failures_of_commands_are_output() {
    assert_eq!(
        finish_command(true, Err("no".to_string())),
        CommandOutcome::Output("Error: no".to_string())
    );
    assert_eq!(
        finish_command(true, Ok("yes".to_string())),
        CommandOutcome::Output("yes".to_string())
    );
    assert_eq!(finish_command(false, Ok("yes".to_string())), CommandOutcome::Quiet);
    assert!(answer_is_shown(&GitCommand::Status));
}

#[test]
fn open_file_failure_returns_output_instead_of_error() {
    let (step, _) = run("/open_file /etc/hosts", &llama());
    assert_eq!(step, Ok(CommandStep::OpenFile("/etc/hosts".to_string())));
    let outcome = finish_command(false, Err("path escapes the workspace".to_string()));
    assert!(matches!(
        outcome,
        CommandOutcome::Output(message) if message.starts_with("Error: ")
    ));
}

#[test]
fn editors_are_split_into_words() {
    assert_eq!(editor_command("code --wait"), Ok(list(&["code", "--wait"])));
    assert!(editor_command("  ").is_err());
    assert!(editor_command("\"open").is_err());
}

#[test]
fn llm_prompt_block_reason_requires_model_connection() {
    assert_eq!(
        llm_prompt_block_reason(
            Some("http://localhost:8100/v1"),
            HeaderStatus {
                workspace_ok: true,
                server_ok: true,
                model_ok: false,
            }
        ),
        None
    );
    assert_eq!(
        llm_prompt_block_reason(
            Some("http://localhost:8100/v1"),
            HeaderStatus {
                workspace_ok: true,
                server_ok: true,
                model_ok: true,
            }
        ),
        None
    );
    assert_eq!(
        llm_prompt_block_reason(
            None,
            HeaderStatus {
                workspace_ok: true,
                server_ok: true,
                model_ok: true,
            }
        ),
        Some("Error: Not connected to an LLM server")
    );
}

#[test]
fn prompts_need_a_server_with_the_model() {
    let context = llama();
    let mut output = OutputState::default();
    let ready = HeaderStatus { workspace_ok: true, server_ok: true, model_ok: true };
    let absent = HeaderStatus { workspace_ok: true, server_ok: true, model_ok: false };
    let endpoint = Some("http://localhost:8100".to_string());
    assert_eq!(
        admit_prompt(&mut output, &context.profiles, "llama", endpoint.as_deref(), ready),
        Ok(PromptGate::Open("http://localhost:8100".to_string()))
    );
    assert_eq!(
        admit_prompt(&mut output, &context.profiles, "llama", endpoint.as_deref(), absent),
        Ok(PromptGate::Closed)
    );
    assert!(output.lines().is_empty());
    assert_eq!(
        admit_prompt(&mut output, &context.profiles, "llama", None, ready),
        Ok(PromptGate::Closed)
    );
    assert_eq!(shown(&output), list(&["Error: Not connected to an LLM server"]));
    assert_eq!(
        admit_prompt(&mut output, &context.profiles, "nope", endpoint.as_deref(), ready),
        Err("unknown model profile 'nope'".to_string())
    );
}

#[test]
fn the_header_tells_what_the_server_has() {
    let entry = |id: &str| ModelEntry {
        id: id.to_string(),
        model: String::new(),
        name: String::new(),
    };
    let probe = ServerProbe::Models(vec![entry("a"), entry("gemma")]);
    let status = probe_header_status(true, &probe, "gemma", "llama");
    assert_eq!(status, HeaderStatus { workspace_ok: true, server_ok: true, model_ok: true });
    assert!(!probe_header_status(true, &probe, "b", "llama").model_ok);
    assert!(probe_header_status(true, &probe, "b", "a").model_ok);
    assert!(!probe_header_status(false, &ServerProbe::Silent, "a", "a").server_ok);
    assert!(probe_header_status(false, &ServerProbe::Unreadable, "a", "a").server_ok);
    assert_eq!(models_url("http://localhost:8100"), "http://localhost:8100/v1/models");
}

#[test]
fn cancelled_output_preserves_partial_reply_and_uses_light_red_notice() {
    let assets = syntax_highlight_assets();
    let mut output_state = OutputState::default();
    preserve_cancelled_output(&mut output_state, &assets, "partial reply");
    assert_eq!(
        output_state.lines(),
        &[
            TranscriptLine::Plain("partial reply".to_string()),
            TranscriptLine::Plain(request_cancelled_message()),
        ]
    );
    let notice = request_cancelled_message();
    assert!(notice.starts_with(ANSI_FG_LIGHT_RED));
    assert!(notice.ends_with(ANSI_RESET));
}

#[test]
fn answers_are_shown_as_they_end() {
    let assets = syntax_highlight_assets();
    let mut output = OutputState::default();
    assert!(!show_answer(&mut output, &assets, WaitResult::Response("**hi**".to_string())));
    assert_eq!(shown(&output), list(&["\u{1b}[1mhi\u{1b}[22m"]));
    assert!(!show_answer(&mut output, &assets, WaitResult::Failed("down".to_string())));
    assert_eq!(shown(&output)[1], "Error: down");
    assert!(show_answer(&mut output, &assets, WaitResult::Quit));
    assert_eq!(output.lines().len(), 2);
}

#[test]
fn llama_cpp_left_status_prefers_native_metrics() {
    assert_eq!(
        choose_left_status("llama.cpp", "", true, true, None),
        Some(LeftStatus::Thinking)
    );
    assert_eq!(
        choose_left_status("LLAMA.cpp", "hello", true, true, Some(9)),
        Some(LeftStatus::Working)
    );
    assert_eq!(
        choose_left_status("openai", "hello", true, true, Some(9)),
        Some(LeftStatus::Tokens(9))
    );
    assert_eq!(choose_left_status("openai", "hello", true, false, Some(9)), None);
    assert_eq!(choose_left_status("openai", "hello", true, true, Some(0)), None);
    assert_eq!(choose_left_status("openai", "hello", true, true, None), None);
}

#[test]
fn tokens_are_counted_by_the_vocabulary() {
    let tokenizer = Tokenizer::load().expect("bundled vocabulary");
    assert_eq!(tokenizer.count("hello world"), Some(2));
    assert_eq!(tokenizer.count(""), Some(0));
    assert_eq!(
        render_left_status("openai", "hello world", false, true, Some(&tokenizer)),
        Some(LeftStatus::Tokens(2))
    );
    assert_eq!(render_left_status("openai", "hello world", false, true, None), None);
    assert_eq!(
        render_left_status("llama.cpp", "hello world", true, true, Some(&tokenizer)),
        Some(LeftStatus::Working)
    );
}

#[test]
fn what_was_generated_is_counted() {
    let tokenizer = Tokenizer::load();
    let tokens = |answer| count_answer_tokens(tokenizer.as_ref(), &answer);
    let text = || "hello world".to_string();
    assert_eq!(tokens(WaitResult::Response(text())), 2);
    assert_eq!(tokens(WaitResult::Cancelled(text())), 2);
    assert_eq!(tokens(WaitResult::Failed(text())), 0);
    assert_eq!(tokens(WaitResult::Quit), 0);
    assert_eq!(count_answer_tokens(None, &WaitResult::Response(text())), 0);
    assert_eq!(generated(&WaitResult::Response(text())), Some("hello world"));
    assert_eq!(generated(&WaitResult::Cancelled("hel".to_string())), Some("hel"));
    assert_eq!(generated(&WaitResult::Failed(text())), None);
}

#[test]
fn submitted_lines_wait_for_their_turn() {
    let none = KeyModifiers { shift: false, control: false, alt: false, others: false };
    let mut console = Console::new(vec!["old".to_string()]);
    let mut escape = EscapeCancelState::default();
    console.input.set_buffer("first".to_string());
    let enter = || InputEvent::Key(KeyCode::Enter, none, KeyEventKind::Press);
    let step = console.handle_wait_event(&mut escape, enter(), 0, 10);
    assert_eq!(step, WaitStep::Continue(Some("first".to_string()), true, false));
    console.input.set_buffer("# note".to_string());
    let step = console.handle_wait_event(&mut escape, enter(), 0, 10);
    assert_eq!(step, WaitStep::Continue(Some("# note".to_string()), true, false));
    console.input.set_buffer("second".to_string());
    console.handle_wait_event(&mut escape, enter(), 0, 10);
    assert_eq!(console.pending, list(&["first", "second"]));
    assert_eq!(console.history, list(&["old", "first", "# note", "second"]));
    assert_eq!(console.begin_turn(), TurnStep::Run("first".to_string()));
    assert_eq!(console.begin_turn(), TurnStep::Run("second".to_string()));
    assert_eq!(console.begin_turn(), TurnStep::Read);
}

#[test]
fn escape_twice_cancels_the_wait() {
    let none = KeyModifiers { shift: false, control: false, alt: false, others: false };
    let mut console = Console::new(vec![]);
    let mut escape = EscapeCancelState::default();
    let esc = || InputEvent::Key(KeyCode::Esc, none, KeyEventKind::Press);
    assert_eq!(
        console.handle_wait_event(&mut escape, esc(), 0, 10),
        WaitStep::Continue(None, false, false)
    );
    assert_eq!(console.handle_wait_event(&mut escape, esc(), 1, 10), WaitStep::Cancel);
}

#[test]
fn input_is_taken_as_the_line_says() {
    let mut console = Console::new(vec![]);
    let (entry, step) = console.take_input(InputResult::Submitted("  hello ".to_string()));
    assert_eq!(entry, Some("hello".to_string()));
    assert_eq!(step, TurnStep::Run("hello".to_string()));
    assert_eq!(shown(&console.output), list(&["> hello"]));
    let (entry, step) = console.take_input(InputResult::Submitted("   ".to_string()));
    assert_eq!((entry, step), (None, TurnStep::NextTurn));
    let (_, step) = console.take_input(InputResult::Quit);
    assert_eq!(step, TurnStep::Exit);
    let (_, step) = console.take_input(InputResult::Refresh);
    assert_eq!(step, TurnStep::NextTurn);
}

#[test]
fn reading_ends_with_an_outcome_or_at_the_deadline() {
    let result = |outcome, redraw| InputEventResult { redraw, outcome, wants_completion: false };
    assert_eq!(after_event(&result(Some(InputResult::Quit), true), 9, 5), ReadStep::Finish);
    assert_eq!(after_event(&result(None, true), 5, 5), ReadStep::Refresh);
    assert_eq!(after_event(&result(None, true), 4, 5), ReadStep::Redraw);
    assert_eq!(after_event(&result(None, false), 4, 5), ReadStep::Wait);
}

#[test]
fn the_screen_is_drawn_when_something_moved() {
    let mut screen = WaitScreen::default();
    assert!(!screen.tick(0, "", false));
    assert!(screen.tick(130, "", false));
    assert!(!screen.tick(140, "", false));
    assert!(screen.tick(140, "a", false));
    screen.drawn("a");
    assert!(!screen.tick(141, "a", false));
    assert!(screen.tick(141, "a", true));
}

#[test]
fn the_history_is_read_back_as_written() {
    let content = history_line("one") + &history_line("  two") + &history_line("# three");
    assert_eq!(content, "one\n  two\n# three\n");
    assert_eq!(load_history("one\n\n  \ntwo\r\n"), list(&["one", "two"]));
    let mut file = history_line("one");
    file.push_str(&history_line("show x"));
    assert_eq!(load_history(&file), list(&["one", "show x"]));
    assert_eq!(echo_line("x"), "> x");
}

#[test]
fn lines_are_classified() {
    assert_eq!(classify_submission("  "), Submission::Ignored);
    assert_eq!(classify_submission(" \\x"), Submission::Ignored);
    assert_eq!(classify_submission(" # x "), Submission::Note("# x".to_string()));
    assert_eq!(classify_submission(" x "), Submission::Accepted("x".to_string()));
}

#[test]
fn profiles_are_listed_by_name() {
    let mut profiles = Profiles::new();
    profiles.insert(profile("b", "openai", "e", "gpt"));
    profiles.insert(profile("a", "llama.cpp", "e", "gemma"));
    profiles.insert(profile("b", "openai", "e", "gpt-2"));
    assert_eq!(sorted_model_names(&profiles), list(&["a", "b"]));
    assert_eq!(format_models(&profiles), "- a: gemma (llama.cpp)\n- b: gpt-2 (openai)");
    assert_eq!(profiles.get("b").map(|p| p.model.as_str()), Some("gpt-2"));
    assert!(profiles.get("c").is_none());
    let mut own = profile("c", "p", "e", "m");
    own.system_prompt = "Be brief.".to_string();
    assert_eq!(system_prompt(&own), "Be brief.");
    assert!(system_prompt(profiles.get("a").unwrap()).starts_with("You are Orangu"));
    assert_eq!(format_tools(&vec![]), "");
}

#[test]
fn the_usage_of_a_session_is_reported() {
    let figures = UsageFigures {
        total_time: 61_500_000_000,
        waiting_time: 2_000_000_000,
        tokens: 85,
    };
    assert_eq!(
        usage_report(figures),
        "Application time: 61s\nWaiting for responses: 2s\nTokens generated: 85\nAverage: 42.5 t/s"
    );
    assert!(usage_report(NO_USE).ends_with("Average: 0.0 t/s"));
    let counted = count_answer(count_answer(NO_USE, 5, 7), 1, u64::MAX);
    assert_eq!((counted.waiting_time, counted.tokens), (6, u64::MAX));
}

#[test]
fn sessions_worth_it_can_be_resumed() {
    let told = Some("orangu --resume id".to_string());
    assert_eq!(resume_command("id", 0, true, Some("main")), None);
    assert_eq!(resume_command("id", 0, true, Some("master")), None);
    assert_eq!(resume_command("id", 0, false, None), None);
    assert_eq!(resume_command("id", 1, false, None), told);
    assert_eq!(resume_command("id", 1, true, Some("main")), told);
    assert_eq!(resume_command("id", 0, true, Some("topic")), told);
    assert_eq!(resume_command("id", 0, true, None), told);
}
