//! The short status of a repository, in colour.
use vstd::prelude::*;
use vstd::string::*;

use crate::ansi::{ANSI_FG_LIGHT_GREEN, ANSI_FG_LIGHT_RED, ANSI_FG_RESET, ANSI_FG_SUBTLE};
use crate::text::{chars_of, lines, lines_of, starts_with, texts};

verus! {

/// The colour of an entry with these two status letters; none for most.
pub open spec fn entry_color(x: char, y: char) -> Seq<char> {
    if x == 'D' || y == 'D' {
        ANSI_FG_LIGHT_RED@
    } else if x == 'A' || x == '?' {
        ANSI_FG_LIGHT_GREEN@
    } else {
        ""@
    }
}

/// The colour of an entry with these two status letters.
pub fn status_entry_color(x: char, y: char) -> (r: &'static str)
    ensures
        r@ == entry_color(x, y),
{
    if x == 'D' || y == 'D' {
        ANSI_FG_LIGHT_RED
    } else if x == 'A' || x == '?' {
        ANSI_FG_LIGHT_GREEN
    } else {
        ""
    }
}

/// The colour of a line: its status letters are its first two characters.
pub open spec fn line_color(line: Seq<char>) -> Seq<char> {
    if line.len() >= 2 && line[0] <= '\u{7f}' {
        entry_color(line[0], line[1])
    } else {
        ""@
    }
}

/// A line of the status in colour. The line about the branch is subdued.
pub open spec fn colored_line(line: Seq<char>) -> Seq<char> {
    if "## "@.is_prefix_of(line) {
        ANSI_FG_SUBTLE@ + line + ANSI_FG_RESET@
    } else if line_color(line).len() > 0 {
        line_color(line) + line + ANSI_FG_RESET@
    } else {
        line
    }
}

/// The lines of a status in colour, each with a line feed.
pub open spec fn colored_lines(rows: Seq<Seq<char>>) -> Seq<char>
    decreases rows.len(),
{
    if rows.len() == 0 {
        seq![]
    } else {
        (colored_lines(rows.drop_last()) + colored_line(rows.last())).push('\n')
    }
}

/// A text without the line feeds at its end.
pub open spec fn without_final_newlines(s: Seq<char>) -> Seq<char>
    decreases s.len(),
{
    if s.len() > 0 && s.last() == '\n' {
        without_final_newlines(s.drop_last())
    } else {
        s
    }
}

/// A status in colour.
pub open spec fn colored_status(raw: Seq<char>) -> Seq<char> {
    without_final_newlines(colored_lines(lines_of(raw)))
}

/// Drops the line feeds at the end.
pub fn trim_final_newlines(s: &str) -> (r: &str)
    ensures
        r@ == without_final_newlines(s@),
{
    let x = chars_of(s);
    let mut i: usize = x.len();
    assert(s@.take(i as int) =~= s@);
    while i > 0 && x[i - 1] == '\n'
        invariant
            i <= x@.len(),
            x@ == s@,
            without_final_newlines(s@) == without_final_newlines(s@.take(i as int)),
        decreases i,
    {
        assert(s@.take(i as int).drop_last() =~= s@.take(i - 1));
        i -= 1;
    }
    let r = s.substring_char(0, i);
    assert(r@ =~= s@.take(i as int));
    r
}

fn color_line(line: &str) -> (r: String)
    ensures
        r@ == colored_line(line@),
{
    let mut r = String::new();
    if starts_with(line, "## ") {
        r.append(ANSI_FG_SUBTLE);
        r.append(line);
        r.append(ANSI_FG_RESET);
    } else {
        let color = if line.unicode_len() >= 2 && line.get_char(0) <= '\u{7f}' {
            status_entry_color(line.get_char(0), line.get_char(1))
        } else {
            ""
        };
        r.append(color);
        r.append(line);
        if !color.is_empty() {
            r.append(ANSI_FG_RESET);
        }
    }
    assert(r@ =~= colored_line(line@));
    r
}

/// Colours the short status that git prints.
pub fn colorize_git_status(raw: &str) -> (r: String)
    ensures
        r@ == colored_status(raw@),
{
    let rows = lines(raw);
    let mut r = String::new();
    let mut i: usize = 0;
    let ghost all = texts(rows@);
    while i < rows.len()
        invariant
            i <= rows@.len(),
            all == texts(rows@),
            r@ == colored_lines(all.take(i as int)),
        decreases rows.len() - i,
    {
        assert(all.take(i + 1).drop_last() =~= all.take(i as int));
        let line = color_line(rows[i].as_str());
        r.append(line.as_str());
        r.push('\n');
        i += 1;
    }
    assert(all.take(rows@.len() as int) =~= all);
    trim_final_newlines(r.as_str()).to_string()
}

} // verus!
