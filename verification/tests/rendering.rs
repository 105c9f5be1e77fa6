use orangu_console::ansi::ANSI_RESET;
use orangu_console::bytes::{ProcessOutput, RunResult};
use orangu_console::command::ShowFileOptions;
use orangu_console::dispatch::{
    finish_command, handle_command, CommandContext, CommandOutcome, CommandStep,
};
use orangu_console::document::{
    frame_code, frame_table, render_document, render_link, render_list, render_markdown_for_console,
    MdLiteral, MdNest, MdNode,
};
use orangu_console::highlight::{
    escape_pieces, highlight_file, render_plain_code_lines, show_code, split_lines_with_endings,
    syntax_highlight_assets, Rgba, StyledText,
};
use orangu_console::profiles::Profiles;
use orangu_console::report::UsageFigures;
use orangu_console::show_file::{
    bat_request, blame_start, format_listing, parse_blame, parse_show_file_arguments,
    show_after_bat, show_after_blame, show_after_read, show_start, BlamePlace, GitLineMetadata,
    ShowNext,
};
use orangu_console::tree::{list_workspace_files_tree, should_include_listed_path, TreeEntry};
use orangu_console::usage::{local_command_error, LocalError};

const PLAIN: ShowFileOptions = ShowFileOptions {
    show_hash: false,
    show_author: false,
};

fn rendered(text: &str) -> String {
    render_markdown_for_console(&syntax_highlight_assets(), text)
}

fn printed(success: bool, text: &str) -> RunResult {
    RunResult::Finished(ProcessOutput {
        success,
        stdout: text.as_bytes().to_vec(),
        stderr: b"why\n".to_vec(),
    })
}

#[test]
fn renders_markdown_emphasis_for_console() {
    let rendered = rendered("Hello **bold** and *italic*.");

    assert!(rendered.contains("\x1b[1mbold\x1b[22m"));
    assert!(rendered.contains("\x1b[3mitalic\x1b[23m"));
}

#[test]
fn renders_markdown_blocks_for_console() {
    let rendered = rendered("# Title\n\n- one\n- two\n\n`code`\n\n[docs](https://example.com)");

    assert!(rendered.contains("\x1b[1m# Title\x1b[22m"));
    assert!(rendered.contains("- one"));
    assert!(rendered.contains("- two"));
    assert!(rendered.contains("\x1b[38;2;255;215;120m`code\x1b[39m`"));
    assert!(rendered.contains("docs"));
    assert!(rendered.contains("https://example.com"));
}

#[test]
fn renders_fenced_code_blocks_with_syntax_highlighting() {
    let rendered = rendered("```c\nprintf(\"Hello World !\\\\n\");\n```");

    assert!(rendered.contains("```c"));
    assert!(rendered.contains("printf"));
    assert!(rendered.contains("\x1b["));
}

#[test]
fn renders_unknown_fenced_code_blocks_with_plain_code_color() {
    let rendered = rendered("```unknownlang\nplain text\n```");

    assert!(rendered.contains("```unknownlang"));
    assert!(rendered.contains("\x1b[38;2;255;215;120mplain text\x1b[39m"));
}

#[test]
fn documents_that_do_not_parse_are_shown_as_they_are() {
    let assets = syntax_highlight_assets();
    assert_eq!(render_document(&assets, "a *b*", None), "a *b*");
}

#[test]
fn ordered_lists_count_from_their_start() {
    assert_eq!(rendered("3. three\n4. four"), "3. three\n4. four");
    assert_eq!(rendered("- one\n- two"), "- one\n- two");
    let assets = syntax_highlight_assets();
    let item = |text: &str| {
        MdNode::ListItem(
            false,
            vec![MdNode::Nest(
                MdNest::Paragraph,
                vec![MdNode::Literal(MdLiteral::Text, text.to_string())],
            )],
        )
    };
    let items = vec![item("a"), item("b")];
    assert_eq!(
        render_list(&assets, true, Some(4_294_967_295), &items),
        "4294967295. a\n4294967296. b"
    );
}

#[test]
fn quotes_are_prefixed() {
    assert_eq!(rendered("> a\n> b"), "> a\n> b");
}

#[test]
fn links_show_where_they_lead() {
    assert_eq!(render_link("same", "same").matches("same").count(), 1);
    let link = render_link("docs", "https://example.com");
    assert!(link.contains("docs"));
    assert!(link.contains("https://example.com"));
}

#[test]
fn tables_are_framed() {
    let rows = vec![
        vec!["a".to_string(), "long".to_string()],
        vec!["b".to_string()],
    ];
    let table = frame_table(&rows);
    assert!(table.contains("| a"));
    assert!(table.contains("long"));
    assert_eq!(frame_table(&vec![]), "");
}

#[test]
fn code_is_framed_by_its_fences() {
    let framed = frame_code(Some("c"), vec!["x".to_string()]);
    assert_eq!(
        framed,
        "\x1b[38;2;255;215;120m```c\x1b[39m\nx\n\x1b[38;2;255;215;120m```\x1b[39m"
    );
}

#[test]
fn pieces_are_escaped_with_their_colors() {
    let piece = StyledText {
        foreground: Rgba { r: 1, g: 2, b: 3, a: 255 },
        background: Rgba { r: 4, g: 5, b: 6, a: 255 },
        text: "x".to_string(),
    };
    assert_eq!(escape_pieces(&vec![piece]), "\x1b[38;2;1;2;3mx");
    assert_eq!(escape_pieces(&vec![]), "");
}

#[test]
fn lines_keep_their_endings() {
    assert_eq!(split_lines_with_endings("a\nb\r\nc"), ["a\n", "b\r\n", "c"]);
    assert!(split_lines_with_endings("").is_empty());
}

#[test]
fn files_are_highlighted_by_their_names() {
    let assets = syntax_highlight_assets();
    let rust = highlight_file(&assets, "src/main.rs", "fn main() {}\n").expect("rust");
    let text = highlight_file(&assets, "notes.unknown", "fn main() {}\n").expect("text");
    assert_eq!(rust.len(), 1);
    assert_eq!(text.len(), 1);
    assert_ne!(rust, text);
    let script = highlight_file(&assets, "run", "#!/bin/bash\nif true; then echo; fi\n").expect("sh");
    let plain = highlight_file(&assets, "run", "# bin\nif true; then echo; fi\n").expect("plain");
    assert_ne!(script[1], plain[1]);
    let make = highlight_file(&assets, "Makefile", "all: x\n").expect("make");
    let other = highlight_file(&assets, "Other", "all: x\n").expect("other");
    assert_ne!(make, other);
}

#[test]
fn plain_text_has_the_colour_of_the_theme() {
    let assets = syntax_highlight_assets();
    let text = highlight_file(&assets, "notes.unknown", "x\n").expect("text");
    assert_eq!(text, ["\x1b[38;2;192;197;206mx\n"]);
}

#[test]
fn code_without_a_syntax_is_plain() {
    assert_eq!(
        show_code(None, "x"),
        render_plain_code_lines("x")
    );
    assert_eq!(
        show_code(Some(Err("broken".to_string())), "x"),
        render_plain_code_lines("x")
    );
    assert_eq!(
        show_code(Some(Ok(vec!["colored".to_string()])), "x"),
        ["colored"]
    );
}

#[test]
fn show_file_outputs_line_numbers_and_syntax_highlighting() {
    let assets = syntax_highlight_assets();
    let content = "fn main() {\n    println!(\"hello\");\n}\n";
    assert_eq!(show_start(PLAIN), ShowNext::Bat);
    let next = show_after_bat("main.rs", RunResult::NotFound("no bat".to_string()));
    assert_eq!(next, ShowNext::Read);
    let output = match show_after_read(&assets, "main.rs", PLAIN, Ok(content.to_string())) {
        ShowNext::Done(Ok(output)) => output,
        other => panic!("unexpected step {other:?}"),
    };
    assert!(output.contains("1 "));
    assert!(output.contains("2 "));
    assert!(output.contains("\u{1b}["));
    assert!(output.contains("println!"));
    assert_eq!(output.lines().count(), 3);
}

#[test]
fn show_file_can_include_git_hash_and_author() {
    let assets = syntax_highlight_assets();
    let options = ShowFileOptions { show_hash: true, show_author: true };
    let (path, parsed) = parse_show_file_arguments("--hash --author README.md").expect("arguments");
    assert_eq!((path.as_str(), parsed), ("README.md", options));
    assert_eq!(show_start(options), ShowNext::Read);
    let content = "alpha\nbeta\n";
    assert_eq!(
        show_after_read(&assets, "README.md", options, Ok(content.to_string())),
        ShowNext::Blame(content.to_string())
    );
    let request = blame_start("README.md", BlamePlace::At("README.md".to_string())).expect("request");
    assert_eq!(request.args, ["blame", "--line-porcelain", "--abbrev=8", "--", "README.md"]);
    let blame = "deadbeefcafe 1 1 2\nauthor Orangu Tests\n\talpha\ndeadbeefcafe 2 2\nauthor Orangu Tests\n\tbeta\n";
    let output = show_after_blame(&assets, "README.md", options, content, printed(true, blame))
        .expect("show file");
    assert!(output.contains("deadbeef"));
    assert!(output.contains("Orangu Tests"));
    assert!(output.contains("1 "));
    assert!(output.contains("2 "));
}

#[test]
fn show_file_uses_bat_when_available_without_metadata_columns() {
    let request = bat_request("/work/main.rs", 123);
    let line = request.args.join(" ");
    assert_eq!(request.program, "bat");
    assert!(line.contains("--paging=never"));
    assert!(line.contains("--color=always"));
    assert!(line.contains("--style=numbers"));
    assert!(line.contains("--terminal-width"));
    assert!(line.contains("/work/main.rs"));
    assert_eq!(
        show_after_bat("/work/main.rs", printed(true, "BAT:x\n")),
        ShowNext::Done(Ok("BAT:x\n".to_string()))
    );
}

#[test]
fn show_file_bypasses_bat_when_metadata_columns_are_requested() {
    let assets = syntax_highlight_assets();
    let (path, options) = parse_show_file_arguments("--hash README.md").expect("arguments");
    assert_eq!(show_start(options), ShowNext::Read);
    let content = match show_after_read(&assets, &path, options, Ok("alpha\nbeta\n".to_string())) {
        ShowNext::Blame(content) => content,
        other => panic!("unexpected step {other:?}"),
    };
    let blame = "deadbeefcafe 1 1 2\nauthor Orangu Tests\n\talpha\ndeadbeefcafe 2 2\nauthor Orangu Tests\n\tbeta\n";
    let output = show_after_blame(&assets, &path, options, &content, printed(true, blame))
        .expect("show file");
    assert!(!output.contains("BAT:"));
    assert!(output.contains("alpha"));
    assert!(output.contains("beta"));
}

#[test]
fn files_that_cannot_be_shown_say_why() {
    let assets = syntax_highlight_assets();
    assert_eq!(
        show_after_read(&assets, "x", PLAIN, Err("gone".to_string())),
        ShowNext::Done(Err("failed to read x: gone".to_string()))
    );
    assert_eq!(
        blame_start("x", BlamePlace::NoRepository),
        Err("Git blame metadata is only available inside a Git repository".to_string())
    );
    assert_eq!(
        blame_start("x", BlamePlace::Outside("prefix not found".to_string())),
        Err("x is outside the Git repository: prefix not found".to_string())
    );
    assert!(show_after_blame(&assets, "x", PLAIN, "", printed(false, "")).is_err());
}

#[test]
fn listings_number_their_lines() {
    let rows = vec![GitLineMetadata {
        hash: "h".to_string(),
        author: "a".to_string(),
    }];
    let options = ShowFileOptions { show_hash: true, show_author: false };
    let listed = format_listing(
        "x\ny\n",
        Ok(vec!["x".to_string(), "y".to_string()]),
        &Some(rows),
        options,
    );
    assert_eq!(
        listed,
        Ok(format!("1 h {ANSI_RESET}x{ANSI_RESET}\n2 {ANSI_RESET}y{ANSI_RESET}"))
    );
    assert_eq!(
        format_listing("x", Err("broken".to_string()), &None, options),
        Err("failed to highlight source line: broken".to_string())
    );
}

#[test]
fn blame_is_read_by_its_lines() {
    let rows = parse_blame("0123456789ab 1 1\nauthor Ann Example\nsummary x\n\tcode\n");
    assert_eq!(rows.len(), 1);
    assert_eq!(rows[0].hash, "01234567");
    assert_eq!(rows[0].author, "Ann Example");
}

#[test]
fn wrong_arguments_of_show_are_usage_errors() {
    assert!(matches!(parse_show_file_arguments("--what x"), Err(LocalError::Usage(_))));
    assert!(matches!(parse_show_file_arguments("a b"), Err(LocalError::Usage(_))));
    assert!(matches!(parse_show_file_arguments(""), Err(LocalError::Usage(_))));
    assert_eq!(local_command_error(LocalError::Failed("no".to_string())), "Error: no");
    assert_eq!(local_command_error(LocalError::Usage("use".to_string())), "use");
}

fn dir(name: &str, children: Vec<TreeEntry>) -> TreeEntry {
    TreeEntry {
        name: name.to_string(),
        is_dir: true,
        is_file: false,
        children,
    }
}

fn leaf(name: &str) -> TreeEntry {
    TreeEntry {
        name: name.to_string(),
        is_dir: false,
        is_file: true,
        children: vec![],
    }
}

#[test]
fn list_files_outputs_filtered_workspace_tree() {
    let tree = list_workspace_files_tree(
        "/work",
        &vec![
            leaf("README.md"),
            dir("src", vec![leaf("lib.rs")]),
            dir("doc", vec![leaf("guide.txt")]),
            dir(".git", vec![leaf("config")]),
            dir("build", vec![leaf("output.txt")]),
            dir("target", vec![leaf("app")]),
        ],
    );
    assert_eq!(
        tree,
        format!(
            "{}\n├── doc\n│   └── guide.txt\n├── src\n│   └── lib.rs\n└── README.md",
            "/work"
        )
    );

    let context = CommandContext {
        startup_model: "llama".to_string(),
        startup_endpoint: "http://localhost:8100/v1".to_string(),
        profiles: Profiles::new(),
        tools: vec![],
        help_text: String::new(),
        usage: UsageFigures { total_time: 0, waiting_time: 0, tokens: 0 },
    };
    let mut active_model = "llama".to_string();
    let mut current_endpoint = Some("http://localhost:8100/v1".to_string());
    let (step, _) =
        handle_command("/list_files", &mut active_model, &mut current_endpoint, &context);
    assert_eq!(step, Ok(CommandStep::ListFiles));
    let outcome = finish_command(true, Ok(tree.clone()));
    assert!(matches!(outcome, CommandOutcome::Output(output) if output == tree));
}

#[test]
fn names_are_ordered_whatever_their_case() {
    let tree = list_workspace_files_tree("w", &vec![leaf("b"), leaf("A"), leaf("É"), leaf("C")]);
    assert_eq!(tree, "w\n├── A\n├── b\n├── C\n└── É");
    assert!(should_include_listed_path("build", false));
    assert!(!should_include_listed_path("build", true));
}
