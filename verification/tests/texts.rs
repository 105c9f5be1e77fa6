use orangu_console::command::{parse_local_command, LocalCommand};
use orangu_console::completion::commands;
use orangu_console::number::{format_u128, format_u64, parse_u64};
use orangu_console::offset::{byte_length, byte_offset, char_position, char_width};
use orangu_console::order::{dedup_texts, sort_texts};
use orangu_console::output::OutputState;
use orangu_console::paths::{extension, file_name};
use orangu_console::shell::{
    last_shell_word_start, quote_shell_argument, shell_words, strip_matching_quotes,
    ShellWordsError,
};
use orangu_console::text::{
    ends_with, eq_ignore_case, is_whitespace, lines, split, starts_with, strip_ascii_prefix,
    strip_ascii_suffix, trim, trim_end, trim_start,
};

fn list(items: &[&str]) -> Vec<String> {
    items.iter().map(|s| s.to_string()).collect()
}

#[test]
fn white_space_is_that_of_the_standard_library() {
    for n in 0..=0x10ffff_u32 {
        if let Some(c) = char::from_u32(n) {
            assert_eq!(is_whitespace(c), c.is_whitespace(), "{n:x}");
        }
    }
}

#[test]
fn widths_are_those_of_utf8() {
    for c in ['a', '\u{7f}', '\u{80}', 'é', '\u{7ff}', '\u{800}', '€', '\u{ffff}', '😀'] {
        assert_eq!(char_width(c), c.len_utf8());
    }
    assert_eq!(byte_length("aé€😀"), 10);
    assert_eq!(byte_offset("aé€😀", 2), 3);
    assert_eq!(char_position("aé€😀", 6), 3);
}

#[test]
fn texts_are_trimmed_and_split_like_the_standard_library() {
    for s in ["", " ", "a", " a b ", "\u{2003}x\n", "a\n\nb\n", "a\r\nb", "\r\n", "a\r", "\n"] {
        assert_eq!(trim(s), s.trim());
        assert_eq!(trim_start(s), s.trim_start());
        assert_eq!(trim_end(s), s.trim_end());
        assert_eq!(lines(s), s.lines().collect::<Vec<_>>());
        assert_eq!(split(s, '\n'), s.split('\n').collect::<Vec<_>>());
        assert_eq!(starts_with(s, "a"), s.starts_with("a"));
        assert_eq!(ends_with(s, "\n"), s.ends_with("\n"));
    }
    assert!(eq_ignore_case("GiT", "git"));
    assert!(!eq_ignore_case("É", "é"));
    assert_eq!(strip_ascii_prefix("Open x", "open "), Some("x"));
    assert_eq!(strip_ascii_prefix("Ope", "open "), None);
    assert_eq!(strip_ascii_suffix("main Branch", " branch"), Some("main"));
}

#[test]
fn numbers_read_back() {
    for n in [0u64, 7, 10, 99, 100, u64::MAX] {
        assert_eq!(format_u64(n), n.to_string());
        assert_eq!(parse_u64(&n.to_string()), Some(n));
    }
    assert_eq!(format_u128(u128::MAX), u128::MAX.to_string());
    for s in ["", "+", "-1", "1x", "18446744073709551616", " 1"] {
        assert_eq!(parse_u64(s), s.parse::<u64>().ok(), "{s:?}");
    }
    assert_eq!(parse_u64("+5"), Some(5));
}

#[test]
fn quoted_arguments_are_split_back() {
    for s in ["plain", "two words", "a\"b", "a\\b", "it's", "\u{a0}x"] {
        let quoted = quote_shell_argument(s);
        assert_eq!(shell_words(&quoted), Ok(list(&[s])), "{quoted}");
    }
    let line = format!("{} {}", quote_shell_argument("a b"), quote_shell_argument("c"));
    assert_eq!(shell_words(&line), Ok(list(&["a b", "c"])));
}

#[test]
fn command_lines_can_be_wrong() {
    assert_eq!(shell_words("a \"b"), Err(ShellWordsError::Unterminated));
    assert_eq!(shell_words("   "), Err(ShellWordsError::Empty));
    assert_eq!(shell_words("a\\"), Ok(list(&["a"])));
    assert!(!ShellWordsError::Unterminated.message().is_empty());
    assert_ne!(
        ShellWordsError::Unterminated.message(),
        ShellWordsError::Empty.message()
    );
}

#[test]
fn the_last_word_may_be_quoted() {
    let start = |s: &str| last_shell_word_start(&s.chars().collect());
    assert_eq!(start("a b"), 2);
    assert_eq!(start("a \"b c"), 2);
    assert_eq!(start("a "), 2);
    assert_eq!(start(""), 0);
    assert_eq!(strip_matching_quotes("\"a\""), "a");
    assert_eq!(strip_matching_quotes("'a\""), "'a\"");
    assert_eq!(strip_matching_quotes("\""), "\"");
}

#[test]
fn texts_are_sorted_and_made_distinct() {
    let v = list(&["b", "B", "é", "a", "b", ""]);
    let mut expected = v.clone();
    expected.sort();
    assert_eq!(sort_texts(&v), expected);
    expected.dedup();
    assert_eq!(dedup_texts(&sort_texts(&v)), expected);
}

#[test]
fn names_and_extensions_are_taken_from_paths() {
    assert_eq!(file_name("src/main.rs"), Some("main.rs".to_string()));
    assert_eq!(file_name("src/"), Some("src".to_string()));
    assert_eq!(file_name(".."), None);
    assert_eq!(extension("main.rs"), "rs");
    assert_eq!(extension("archive.tar.gz"), "gz");
    assert_eq!(extension(".bashrc"), "");
    assert_eq!(extension("Makefile"), "");
}

#[test]
fn every_offered_command_is_understood() {
    for name in commands() {
        assert!(parse_local_command(&name).is_some(), "{name}");
    }
}

#[test]
fn the_case_of_phrases_does_not_matter() {
    assert_eq!(parse_local_command("GIT STATUS"), Some(LocalCommand::Status));
    assert_eq!(parse_local_command("show USAGE"), Some(LocalCommand::Usage));
    assert_eq!(parse_local_command("/usage"), Some(LocalCommand::Usage));
}

#[test]
fn transcripts_stay_where_they_were_scrolled() {
    let mut output = OutputState::default();
    for i in 0..30 {
        output.push_text(&format!("{i}"));
    }
    output.page_up(10);
    let back = output.scroll_offset();
    assert!(back > 0);
    output.push_text("new");
    assert_eq!(output.scroll_offset(), back + 1);
    output.page_down(10);
    output.page_down(10);
    output.page_down(10);
    assert_eq!(output.scroll_offset(), 0);
    output.page_up(10);
    output.reset_scroll();
    assert_eq!(output.scroll_offset(), 0);
    output.clear();
    assert!(output.lines().is_empty());
}
