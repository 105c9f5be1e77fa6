//! Listings of files: arguments, columns, and where their content comes from.
use vstd::prelude::*;
use vstd::string::*;
use vstd::utf8::*;

use crate::ansi::ANSI_RESET;
use crate::bytes::{fault_of, utf8_fault, utf8_text, RunResult};
use crate::command::{no_columns, show_file_arguments, ShowFileOptions};
use crate::completion::owned_list;
use crate::git::{add_detail, err_of, find_fault, trimmed_err, with_detail, Place, ProcessRequest};
use crate::highlight::{
    file_syntax, highlight_file, highlighted_lines, lines_result, lines_with_endings,
    split_lines_with_endings, SyntaxHighlightAssets,
};
use crate::document::{palette, repeat_char, repeated, Palette};
use crate::number::{decimal, format_u64};
use crate::shell::{
    all_quoted, law_quoted_arguments_split_back, plain_argument, quoted, shell_words, words_of,
};
use crate::text::{
    chars_of, first_index, is_whitespace, join, joined, lemma_first_index_props,
    lemma_split_nonempty, lemma_texts_push, lines, lines_of, split_on, starts_with, str_eq,
    string_of, strip_prefix, texts, whitespace,
};
use crate::usage::{show_file_usage_message, LocalError};

verus! {

/// How the show command is used.
pub open spec fn show_usage() -> Seq<char> {
    "Usage: /show_file [--hash] [--author] <path>. Use /help to see available commands."@
}

/// What the arguments read so far ask for.
pub open spec fn show_arguments(words: Seq<Seq<char>>) -> Result<
    (Option<Seq<char>>, ShowFileOptions),
    Seq<char>,
>
    decreases words.len(),
{
    if words.len() == 0 {
        Ok((None, no_columns()))
    } else {
        match show_arguments(words.drop_last()) {
            Err(e) => Err(e),
            Ok((path, options)) => {
                let arg = words.last();
                if arg == "--hash"@ {
                    Ok((path, ShowFileOptions { show_hash: true, ..options }))
                } else if arg == "--author"@ {
                    Ok((path, ShowFileOptions { show_author: true, ..options }))
                } else if "-"@.is_prefix_of(arg) {
                    Err("Unknown option '"@ + arg + "'. "@ + show_usage())
                } else if path is None {
                    Ok((Some(arg), options))
                } else {
                    Err(show_usage())
                }
            },
        }
    }
}

/// The path and the columns that the arguments of the show command ask for.
pub open spec fn show_request(raw: Seq<char>) -> Result<(Seq<char>, ShowFileOptions), Seq<char>> {
    match words_of(raw) {
        Err(_) => Err(show_usage()),
        Ok(words) => match show_arguments(words) {
            Err(e) => Err(e),
            Ok((Some(path), options)) => Ok((path, options)),
            Ok((None, _)) => Err(show_usage()),
        },
    }
}

proof fn lemma_argument_error_stays(words: Seq<Seq<char>>, k: int)
    requires
        0 <= k <= words.len(),
        show_arguments(words.take(k)) is Err,
    ensures
        show_arguments(words) == show_arguments(words.take(k)),
    decreases words.len(),
{
    if k == words.len() {
        assert(words.take(k) =~= words);
    } else {
        assert(words.drop_last().take(k) =~= words.take(k));
        lemma_argument_error_stays(words.drop_last(), k);
    }
}

/// Reads the arguments of the show command.
pub fn parse_show_file_arguments(raw_args: &str) -> (r: Result<
    (String, ShowFileOptions),
    LocalError<String>,
>)
    ensures
        match r {
            Ok((path, options)) => show_request(raw_args@) == Ok::<
                (Seq<char>, ShowFileOptions),
                Seq<char>,
            >((path@, options)),
            Err(e) => e is Usage && show_request(raw_args@) == Err::<
                (Seq<char>, ShowFileOptions),
                Seq<char>,
            >(e@->Usage_0),
        },
{
    let args = match shell_words(raw_args) {
        Ok(words) => words,
        Err(_) => {
            return Err(LocalError::Usage(show_file_usage_message().to_string()));
        },
    };
    let mut options = ShowFileOptions { show_hash: false, show_author: false };
    let mut path: Option<String> = None;
    let mut i: usize = 0;
    let ghost all = texts(args@);
    while i < args.len()
        invariant
            i <= args@.len(),
            all == texts(args@),
            words_of(raw_args@) == Ok::<Seq<Seq<char>>, crate::shell::ShellWordsError>(all),
            show_arguments(all.take(i as int)) == Ok::<
                (Option<Seq<char>>, ShowFileOptions),
                Seq<char>,
            >((crate::text::opt_text(path), options)),
        decreases args.len() - i,
    {
        let ghost part = all.take(i + 1);
        assert(part.drop_last() =~= all.take(i as int));
        let arg = args[i].as_str();
        if str_eq(arg, "--hash") {
            options = ShowFileOptions { show_hash: true, show_author: options.show_author };
        } else if str_eq(arg, "--author") {
            options = ShowFileOptions { show_hash: options.show_hash, show_author: true };
        } else if starts_with(arg, "-") {
            let mut message = "Unknown option '".to_string();
            message.append(arg);
            message.append("'. ");
            message.append(show_file_usage_message());
            proof {
                lemma_argument_error_stays(all, i + 1);
            }
            return Err(LocalError::Usage(message));
        } else if path.is_none() {
            path = Some(args[i].clone());
        } else {
            proof {
                lemma_argument_error_stays(all, i + 1);
            }
            return Err(LocalError::Usage(show_file_usage_message().to_string()));
        }
        i += 1;
    }
    assert(all.take(args@.len() as int) =~= all);
    match path {
        Some(p) => Ok((p, options)),
        None => Err(LocalError::Usage(show_file_usage_message().to_string())),
    }
}

/// Who wrote a line, and in which commit; the texts are of the type `T`.
#[derive(Debug, PartialEq, Eq)]
pub struct GitLineMetadata<T> {
    pub hash: T,
    pub author: T,
}

impl View for GitLineMetadata<String> {
    type V = GitLineMetadata<Seq<char>>;

    open spec fn view(&self) -> GitLineMetadata<Seq<char>> {
        GitLineMetadata { hash: self.hash@, author: self.author@ }
    }
}

/// The views of the columns of all lines.
pub open spec fn metadata_views(v: Seq<GitLineMetadata<String>>) -> Seq<
    GitLineMetadata<Seq<char>>,
> {
    v.map_values(|m: GitLineMetadata<String>| m@)
}

/// A number with spaces before it, as wide as asked for.
pub open spec fn right_aligned(n: nat, width: nat) -> Seq<char> {
    let digits = decimal(n);
    if digits.len() < width {
        repeated(' ', (width - digits.len()) as nat) + digits
    } else {
        digits
    }
}

/// A line of a listing: its number, the columns asked for, and the source, whose
/// colours end with it.
pub open spec fn listing_line(
    line_no: nat,
    line: Seq<char>,
    metadata: Option<GitLineMetadata<Seq<char>>>,
    options: ShowFileOptions,
    width: nat,
) -> Seq<char> {
    let number = seq![right_aligned(line_no, width)];
    let hash = if options.show_hash && metadata is Some {
        seq![metadata.unwrap().hash]
    } else {
        seq![]
    };
    let author = if options.show_author && metadata is Some {
        seq![metadata.unwrap().author]
    } else {
        seq![]
    };
    let source = if line.len() > 0 {
        seq![ANSI_RESET@ + line + ANSI_RESET@]
    } else {
        seq![]
    };
    joined(number + hash + author + source, " "@)
}

/// Writes a line of a listing.
pub fn format_show_file_line(
    line_no: usize,
    line: &str,
    metadata: Option<&GitLineMetadata<String>>,
    options: ShowFileOptions,
    line_number_width: usize,
) -> (r: String)
    ensures
        r@ == listing_line(
            line_no as nat,
            line@,
            match metadata {
                Some(m) => Some(m@),
                None => None,
            },
            options,
            line_number_width as nat,
        ),
{
    let digits = format_u64(line_no as u64);
    let n = digits.as_str().unicode_len();
    let mut number = if n < line_number_width {
        repeat_char(' ', line_number_width - n)
    } else {
        String::new()
    };
    number.append(digits.as_str());
    assert(number@ =~= right_aligned(line_no as nat, line_number_width as nat));
    let mut parts: Vec<String> = Vec::new();
    parts.push(number);
    if let Some(m) = metadata {
        if options.show_hash {
            parts.push(m.hash.clone());
        }
        if options.show_author {
            parts.push(m.author.clone());
        }
    }
    if !line.is_empty() {
        let mut source = String::new();
        source.append(ANSI_RESET);
        source.append(line);
        source.append(ANSI_RESET);
        parts.push(source);
    }
    proof {
        let meta = match metadata {
            Some(m) => Some(m@),
            None => None,
        };
        let hash = if options.show_hash && meta is Some {
            seq![meta.unwrap().hash]
        } else {
            seq![]
        };
        let author = if options.show_author && meta is Some {
            seq![meta.unwrap().author]
        } else {
            seq![]
        };
        let source = if line@.len() > 0 {
            seq![ANSI_RESET@ + line@ + ANSI_RESET@]
        } else {
            seq![]
        };
        assert(texts(parts@) =~= seq![number@] + hash + author + source);
    }
    join(&parts, " ")
}

/// A text without the line feeds and carriage returns at its end.
pub open spec fn without_line_end(s: Seq<char>) -> Seq<char>
    decreases s.len(),
{
    if s.len() > 0 && (s.last() == '\n' || s.last() == '\r') {
        without_line_end(s.drop_last())
    } else {
        s
    }
}

/// Drops the line feeds and carriage returns at the end.
pub fn trim_line_end(s: &str) -> (r: &str)
    ensures
        r@ == without_line_end(s@),
{
    let x = chars_of(s);
    let mut i: usize = x.len();
    assert(s@.take(i as int) =~= s@);
    while i > 0 && (x[i - 1] == '\n' || x[i - 1] == '\r')
        invariant
            i <= x@.len(),
            x@ == s@,
            without_line_end(s@) == without_line_end(s@.take(i as int)),
        decreases i,
    {
        assert(s@.take(i as int).drop_last() =~= s@.take(i - 1));
        i -= 1;
    }
    let r = s.substring_char(0, i);
    assert(r@ =~= s@.take(i as int));
    r
}

/// How many digits the number of a line needs in a listing.
pub open spec fn number_width(content: Seq<char>) -> nat {
    let count = lines_of(content).len();
    decimal(if count == 0 { 1 } else { count }).len()
}

/// The columns of a line, if there are any.
pub open spec fn metadata_at(blame: Option<Seq<GitLineMetadata<Seq<char>>>>, i: int) -> Option<
    GitLineMetadata<Seq<char>>,
> {
    match blame {
        Some(rows) => if i < rows.len() {
            Some(rows[i])
        } else {
            None
        },
        None => None,
    }
}

/// The source of a line: its text in colour, unless the line shows nothing.
pub open spec fn source_column(raw: Seq<char>, colored: Seq<char>) -> Seq<char> {
    if without_line_end(raw).len() == 0 {
        Seq::empty()
    } else {
        without_line_end(colored)
    }
}

/// The lines of a listing, given the lines of the file in colour.
pub open spec fn listing_lines(
    content: Seq<char>,
    colored: Seq<Seq<char>>,
    blame: Option<Seq<GitLineMetadata<Seq<char>>>>,
    options: ShowFileOptions,
) -> Seq<Seq<char>> {
    let rows = lines_with_endings(content);
    let width = number_width(content);
    if content.len() == 0 {
        seq![listing_line(1, Seq::empty(), metadata_at(blame, 0), options, width)]
    } else {
        Seq::new(
            rows.len(),
            |i: int|
                listing_line(
                    (i + 1) as nat,
                    source_column(rows[i], colored[i]),
                    metadata_at(blame, i),
                    options,
                    width,
                ),
        )
    }
}

/// A listing, given the lines of the file in colour or what went wrong with
/// them.
pub open spec fn listing(
    content: Seq<char>,
    colored: Result<Seq<Seq<char>>, Seq<char>>,
    blame: Option<Seq<GitLineMetadata<Seq<char>>>>,
    options: ShowFileOptions,
) -> Result<Seq<char>, Seq<char>> {
    if content.len() == 0 {
        Ok(joined(listing_lines(content, seq![], blame, options), "\n"@))
    } else {
        match colored {
            Ok(rows) => Ok(joined(listing_lines(content, rows, blame, options), "\n"@)),
            Err(fault) => Err("failed to highlight source line: "@ + fault),
        }
    }
}

/// The view of optional columns.
pub open spec fn blame_view(blame: Option<Vec<GitLineMetadata<String>>>) -> Option<
    Seq<GitLineMetadata<Seq<char>>>,
> {
    match blame {
        Some(v) => Some(metadata_views(v@)),
        None => None,
    }
}

fn metadata_of(blame: &Option<Vec<GitLineMetadata<String>>>, i: usize) -> (r: Option<
    &GitLineMetadata<String>,
>)
    ensures
        (match r {
            Some(m) => Some(m@),
            None => None,
        }) == metadata_at(blame_view(*blame), i as int),
{
    match blame {
        Some(rows) => if i < rows.len() {
            Some(&rows[i])
        } else {
            None
        },
        None => None,
    }
}

/// The view of a result with a text.
pub open spec fn text_result(r: Result<String, String>) -> Result<Seq<char>, Seq<char>> {
    match r {
        Ok(s) => Ok(s@),
        Err(e) => Err(e@),
    }
}

fn format_rows(
    content: &str,
    shown: &Vec<String>,
    blame: &Option<Vec<GitLineMetadata<String>>>,
    options: ShowFileOptions,
    width: usize,
) -> (out: Vec<String>)
    requires
        content@.len() > 0,
        shown@.len() == lines_with_endings(content@).len(),
        width == number_width(content@),
    ensures
        texts(out@) == listing_lines(content@, texts(shown@), blame_view(*blame), options),
{
    let mut out: Vec<String> = Vec::new();
    let rows = split_lines_with_endings(content);
    let ghost want = listing_lines(content@, texts(shown@), blame_view(*blame), options);
    let mut i: usize = 0;
    assert(texts(rows@).len() == rows@.len());
    assert(texts(out@) =~= want.take(0));
    while i < rows.len()
        invariant
            i <= rows@.len(),
            rows@.len() == shown@.len(),
            content@.len() > 0,
            texts(rows@) == lines_with_endings(content@),
            width == number_width(content@),
            want == listing_lines(content@, texts(shown@), blame_view(*blame), options),
            want.len() == rows@.len(),
            texts(out@) == want.take(i as int),
        decreases rows.len() - i,
    {
        assert(texts(rows@)[i as int] == rows@[i as int]@);
        assert(texts(shown@)[i as int] == shown@[i as int]@);
        let bare = trim_line_end(rows[i].as_str());
        let source = if bare.is_empty() {
            String::new()
        } else {
            trim_line_end(shown[i].as_str()).to_string()
        };
        let line = format_show_file_line(
            i + 1,
            source.as_str(),
            metadata_of(blame, i),
            options,
            width,
        );
        let ghost before = out@;
        out.push(line);
        proof {
            assert(source@ =~= source_column(texts(rows@)[i as int], texts(shown@)[i as int]));
            lemma_texts_push(before, line);
            assert(line@ == want[i as int]);
            assert(texts(out@) =~= want.take(i + 1));
        }
        i += 1;
    }
    assert(want.take(rows@.len() as int) =~= want);
    out
}

/// Writes a listing, given the lines of the file in colour: one for each line of
/// the content.
pub fn format_listing(
    content: &str,
    colored: Result<Vec<String>, String>,
    blame: &Option<Vec<GitLineMetadata<String>>>,
    options: ShowFileOptions,
) -> (r: Result<String, String>)
    requires
        colored matches Ok(rows) ==> rows@.len() == lines_with_endings(content@).len(),
    ensures
        text_result(r) == listing(content@, lines_result(colored), blame_view(*blame), options),
{
    let count = lines(content).len();
    let digits = format_u64(
        if count == 0 {
            1
        } else {
            count as u64
        },
    );
    let width = digits.as_str().unicode_len();
    assert(lines_of(content@).len() == count);
    let mut out: Vec<String> = Vec::new();
    if content.is_empty() {
        let line = format_show_file_line(1, "", metadata_of(blame, 0), options, width);
        out.push(line);
        proof {
            reveal_strlit("");
            assert(""@ =~= Seq::<char>::empty());
            assert(texts(out@) =~= listing_lines(content@, seq![], blame_view(*blame), options));
        }
        return Ok(join(&out, "\n"));
    }
    let shown = match colored {
        Ok(rows) => rows,
        Err(fault) => {
            let mut message = "failed to highlight source line: ".to_string();
            message.append(fault.as_str());
            return Err(message);
        },
    };
    let out = format_rows(content, &shown, blame, options, width);
    Ok(join(&out, "\n"))
}

/// The lines of a file in colour, or the first fault.
pub open spec fn colored_file(p: Palette, path: Seq<char>, content: Seq<char>) -> Result<
    Seq<Seq<char>>,
    Seq<char>,
> {
    highlighted_lines(
        (p.definitions, file_syntax(p.definitions, path, content)),
        p.theme,
        lines_with_endings(content),
    )
}

proof fn lemma_highlighted_count(
    syntax: (Seq<Seq<char>>, int),
    theme: Seq<Seq<char>>,
    rows: Seq<Seq<char>>,
)
    ensures
        highlighted_lines(syntax, theme, rows) matches Ok(done) ==> done.len() == rows.len(),
    decreases rows.len(),
{
    if rows.len() > 0 {
        lemma_highlighted_count(syntax, theme, rows.drop_last());
    }
}

/// Writes the listing of a file.
pub fn render_show_file_content(
    assets: &SyntaxHighlightAssets,
    path: &str,
    content: &str,
    blame: &Option<Vec<GitLineMetadata<String>>>,
    options: ShowFileOptions,
) -> (r: Result<String, String>)
    ensures
        text_result(r) == listing(
            content@,
            colored_file(palette(*assets), path@, content@),
            blame_view(*blame),
            options,
        ),
{
    let colored = highlight_file(assets, path, content);
    proof {
        let p = palette(*assets);
        lemma_highlighted_count(
            (p.definitions, file_syntax(p.definitions, path@, content@)),
            p.theme,
            lines_with_endings(content@),
        );
        if colored is Ok {
            assert(texts(colored->Ok_0@).len() == colored->Ok_0@.len());
        }
    }
    format_listing(content, colored, blame, options)
}

/// The words of a line: what stands between white space.
pub open spec fn space_words(s: Seq<char>) -> Seq<Seq<char>>
    decreases s.len(),
{
    if s.len() == 0 {
        seq![]
    } else {
        let init = s.drop_last();
        let rest = space_words(init);
        if whitespace(s.last()) {
            rest
        } else if init.len() == 0 || whitespace(init.last()) {
            rest.push(seq![s.last()])
        } else {
            rest.drop_last().push(rest.last().push(s.last()))
        }
    }
}

proof fn lemma_space_words(s: Seq<char>)
    ensures
        s.len() > 0 && !whitespace(s.last()) ==> space_words(s).len() > 0,
    decreases s.len(),
{
    if s.len() > 0 {
        lemma_space_words(s.drop_last());
    }
}

/// Splits a line into its words.
pub fn split_space(s: &str) -> (r: Vec<String>)
    ensures
        texts(r@) == space_words(s@),
{
    let x = chars_of(s);
    let mut words: Vec<String> = Vec::new();
    let mut current = String::new();
    let mut open = false;
    let mut i: usize = 0;
    assert(texts(words@) =~= space_words(x@.take(0)));
    while i < x.len()
        invariant
            i <= x@.len(),
            x@ == s@,
            open == (i > 0 && !whitespace(x@[i - 1])),
            open ==> space_words(x@.take(i as int)) == texts(words@).push(current@),
            !open ==> space_words(x@.take(i as int)) == texts(words@),
        decreases x.len() - i,
    {
        let c = x[i];
        let ghost part = x@.take(i + 1);
        let ghost init = x@.take(i as int);
        assert(part.drop_last() =~= init);
        assert(part.last() == c);
        assert(i > 0 ==> init.last() == x@[i - 1]);
        if is_whitespace(c) {
            if open {
                let ghost before = words@;
                words.push(current);
                proof {
                    lemma_texts_push(before, current);
                }
                current = String::new();
                open = false;
            }
        } else if open {
            let ghost old_current = current@;
            current.push(c);
            assert(space_words(part) =~= texts(words@).push(current@));
        } else {
            current = String::new();
            current.push(c);
            open = true;
            assert(current@ =~= seq![c]);
        }
        i += 1;
    }
    assert(x@.take(x@.len() as int) =~= s@);
    if open {
        let ghost before = words@;
        words.push(current);
        proof {
            lemma_texts_push(before, current);
        }
    }
    words
}

/// Whether a character is a hexadecimal digit.
pub open spec fn hex_digit(c: char) -> bool {
    '0' <= c <= '9' || 'a' <= c <= 'f' || 'A' <= c <= 'F'
}

/// Whether a text is the hash of a commit: at least eight hexadecimal digits.
pub open spec fn is_hash(s: Seq<char>) -> bool {
    s.len() >= 8 && forall|i: int| 0 <= i < s.len() ==> hex_digit(#[trigger] s[i])
}

fn looks_like_hash(s: &str) -> (r: bool)
    ensures
        r == is_hash(s@),
{
    let x = chars_of(s);
    if x.len() < 8 {
        return false;
    }
    let mut i: usize = 0;
    while i < x.len()
        invariant
            i <= x@.len(),
            x@ == s@,
            forall|j: int| 0 <= j < i ==> hex_digit(#[trigger] x@[j]),
        decreases x.len() - i,
    {
        let c = x[i];
        if !(('0' <= c && c <= '9') || ('a' <= c && c <= 'f') || ('A' <= c && c <= 'F')) {
            assert(!hex_digit(x@[i as int]));
            return false;
        }
        i += 1;
    }
    true
}

/// What has been read of the output of blame: the lines that are complete, and
/// the commit and the author of the next one.
#[verifier::ext_equal]
pub struct BlameView {
    pub done: Seq<GitLineMetadata<Seq<char>>>,
    pub hash: Seq<char>,
    pub author: Seq<char>,
}

/// What one more line of the output of blame tells. The source of a line, behind
/// a tab, completes it. A commit comes with two numbers.
pub open spec fn blame_step(v: BlameView, row: Seq<char>) -> BlameView {
    if "\t"@.is_prefix_of(row) {
        BlameView { done: v.done.push(GitLineMetadata { hash: v.hash, author: v.author }), ..v }
    } else if "author "@.is_prefix_of(row) {
        BlameView { author: row.skip("author "@.len() as int), ..v }
    } else if space_words(row).len() >= 3 && is_hash(space_words(row)[0]) {
        BlameView { hash: space_words(row)[0].take(8), author: Seq::empty(), ..v }
    } else {
        v
    }
}

/// What the output of blame tells.
pub open spec fn blame_read(rows: Seq<Seq<char>>) -> BlameView
    decreases rows.len(),
{
    if rows.len() == 0 {
        BlameView { done: seq![], hash: seq![], author: seq![] }
    } else {
        blame_step(blame_read(rows.drop_last()), rows.last())
    }
}

/// Reads the commit and the author of each line out of the output of blame.
pub fn parse_blame(text: &str) -> (r: Vec<GitLineMetadata<String>>)
    ensures
        metadata_views(r@) == blame_read(lines_of(text@)).done,
{
    let rows = lines(text);
    let mut done: Vec<GitLineMetadata<String>> = Vec::new();
    let mut hash = String::new();
    let mut author = String::new();
    let mut i: usize = 0;
    let ghost all = texts(rows@);
    assert(metadata_views(done@) =~= seq![]);
    assert(hash@ =~= seq![]);
    while i < rows.len()
        invariant
            i <= rows@.len(),
            all == texts(rows@),
            blame_read(all.take(i as int)) == (BlameView {
                done: metadata_views(done@),
                hash: hash@,
                author: author@,
            }),
        decreases rows.len() - i,
    {
        assert(all.take(i + 1).drop_last() =~= all.take(i as int));
        let row = rows[i].as_str();
        if starts_with(row, "\t") {
            let ghost before = done@;
            let entry = GitLineMetadata { hash: hash.clone(), author: author.clone() };
            done.push(entry);
            assert(metadata_views(done@) =~= metadata_views(before).push(entry@));
        } else if let Some(name) = strip_prefix(row, "author ") {
            author = name.to_string();
        } else {
            let words = split_space(row);
            assert(texts(words@).len() == words@.len());
            if words.len() >= 3 {
                assert(texts(words@)[0] == words@[0]@);
                if looks_like_hash(words[0].as_str()) {
                    let chars = chars_of(words[0].as_str());
                    hash = string_of(&chars, 0, 8);
                    assert(hash@ =~= words@[0]@.take(8));
                    author = String::new();
                }
            }
        }
        i += 1;
    }
    assert(all.take(rows@.len() as int) =~= all);
    done
}

/// Blame for a file, given by its path in the repository.
pub open spec fn blame_args(relative: Seq<char>) -> Seq<Seq<char>> {
    seq!["blame"@, "--line-porcelain"@, "--abbrev=8"@, "--"@, relative]
}

/// The run of git that tells who wrote the lines of a file.
pub fn blame_request(relative: &str) -> (r: ProcessRequest<String, Vec<String>, Vec<u8>>)
    ensures
        r@ == (ProcessRequest::<Seq<char>, Seq<Seq<char>>, Seq<u8>> {
            program: "git"@,
            args: blame_args(relative@),
            place: Place::GitRoot,
            columns: false,
            input: None,
        }),
{
    let args = owned_list(&["blame", "--line-porcelain", "--abbrev=8", "--", relative]);
    assert(texts(args@) =~= blame_args(relative@));
    ProcessRequest {
        program: "git".to_string(),
        args,
        place: Place::GitRoot,
        columns: false,
        input: None,
    }
}

/// What a run of blame tells.
pub open spec fn blame_result(run: RunResult) -> Result<
    Seq<GitLineMetadata<Seq<char>>>,
    Seq<char>,
> {
    match run {
        RunResult::Finished(output) => if !output.success {
            Err(with_detail("git blame failed"@, err_of(output)))
        } else if !valid_utf8(output.stdout@) {
            Err("git blame output was not UTF-8: "@ + utf8_fault(output.stdout@))
        } else {
            Ok(blame_read(lines_of(decode_utf8(output.stdout@))).done)
        },
        _ => Err("failed to run git blame: "@ + fault_of(run).unwrap()),
    }
}

/// Reads what a run of blame tells.
pub fn git_blame_metadata(run: RunResult) -> (r: Result<Vec<GitLineMetadata<String>>, String>)
    ensures
        match r {
            Ok(v) => blame_result(run) == Ok::<Seq<GitLineMetadata<Seq<char>>>, Seq<char>>(
                metadata_views(v@),
            ),
            Err(e) => blame_result(run) == Err::<Seq<GitLineMetadata<Seq<char>>>, Seq<char>>(e@),
        },
{
    if let Some(reason) = find_fault(&run) {
        let mut message = "failed to run git blame: ".to_string();
        message.append(reason);
        return Err(message);
    }
    if let RunResult::Finished(output) = run {
        if !output.success {
            let err = trimmed_err(&output);
            return Err(add_detail("git blame failed", err.as_str()));
        }
        return match utf8_text(output.stdout) {
            Ok(text) => Ok(parse_blame(text.as_str())),
            Err(fault) => {
                let mut message = "git blame output was not UTF-8: ".to_string();
                message.append(fault.as_str());
                Err(message)
            },
        };
    }
    Err(String::new())
}

/// The arguments with which `bat` lists a file.
pub open spec fn bat_args(path: Seq<char>, width: nat) -> Seq<Seq<char>> {
    seq![
        "--paging=never"@,
        "--color=always"@,
        "--style=numbers"@,
        "--terminal-width"@,
        decimal(width),
        path,
    ]
}

/// The run of `bat` that lists a file.
pub fn bat_request(path: &str, terminal_width: usize) -> (r: ProcessRequest<
    String,
    Vec<String>,
    Vec<u8>,
>)
    ensures
        r@ == (ProcessRequest::<Seq<char>, Seq<Seq<char>>, Seq<u8>> {
            program: "bat"@,
            args: bat_args(path@, terminal_width as nat),
            place: Place::Anywhere,
            columns: false,
            input: None,
        }),
{
    let width = format_u64(terminal_width as u64);
    let args = owned_list(
        &[
            "--paging=never",
            "--color=always",
            "--style=numbers",
            "--terminal-width",
            width.as_str(),
            path,
        ],
    );
    assert(texts(args@) =~= bat_args(path@, terminal_width as nat));
    ProcessRequest {
        program: "bat".to_string(),
        args,
        place: Place::Anywhere,
        columns: false,
        input: None,
    }
}

/// What a run of `bat` gives: its listing, nothing where it is not installed, or
/// what went wrong.
pub open spec fn bat_result(path: Seq<char>, run: RunResult) -> Result<Option<Seq<char>>, Seq<char>> {
    match run {
        RunResult::Finished(output) => if !output.success {
            Err(with_detail("bat failed"@, err_of(output)))
        } else if !valid_utf8(output.stdout@) {
            Err("bat output for "@ + path + " was not UTF-8: "@ + utf8_fault(output.stdout@))
        } else {
            Ok(Some(decode_utf8(output.stdout@)))
        },
        RunResult::NotFound(_) => Ok(None),
        _ => Err("failed to run bat for "@ + path + ": "@ + fault_of(run).unwrap()),
    }
}

/// Reads what a run of `bat` gives.
pub fn show_file_output_with_bat(path: &str, run: RunResult) -> (r: Result<Option<String>, String>)
    ensures
        match r {
            Ok(o) => bat_result(path@, run) == Ok::<Option<Seq<char>>, Seq<char>>(
                crate::text::opt_text(o),
            ),
            Err(e) => bat_result(path@, run) == Err::<Option<Seq<char>>, Seq<char>>(e@),
        },
{
    if let RunResult::NotFound(_) = run {
        return Ok(None);
    }
    if let Some(reason) = find_fault(&run) {
        let mut message = "failed to run bat for ".to_string();
        message.append(path);
        message.append(": ");
        message.append(reason);
        return Err(message);
    }
    if let RunResult::Finished(output) = run {
        if !output.success {
            let err = trimmed_err(&output);
            return Err(add_detail("bat failed", err.as_str()));
        }
        return match utf8_text(output.stdout) {
            Ok(text) => Ok(Some(text)),
            Err(fault) => {
                let mut message = "bat output for ".to_string();
                message.append(path);
                message.append(" was not UTF-8: ");
                message.append(fault.as_str());
                Err(message)
            },
        };
    }
    Ok(None)
}

/// What a listing does next; the texts are of the type `T`.
#[derive(Debug, PartialEq, Eq)]
pub enum ShowNext<T> {
    /// Asks `bat` for the listing.
    Bat,
    /// Reads the file.
    Read,
    /// Asks git who wrote the lines of the content.
    Blame(T),
    /// Ends with the listing, or with the reason why there is none.
    Done(Result<T, T>),
}

impl View for ShowNext<String> {
    type V = ShowNext<Seq<char>>;

    open spec fn view(&self) -> ShowNext<Seq<char>> {
        match *self {
            ShowNext::Bat => ShowNext::Bat,
            ShowNext::Read => ShowNext::Read,
            ShowNext::Blame(t) => ShowNext::Blame(t@),
            ShowNext::Done(r) => ShowNext::Done(text_result(r)),
        }
    }
}

/// Whether a listing has columns about commits.
pub open spec fn has_columns(options: ShowFileOptions) -> bool {
    options.show_hash || options.show_author
}

/// Begins a listing: with columns the file is read, and without them `bat` is
/// asked first.
pub fn show_start(options: ShowFileOptions) -> (r: ShowNext<String>)
    ensures
        r@ == (if has_columns(options) {
            ShowNext::<Seq<char>>::Read
        } else {
            ShowNext::Bat
        }),
{
    if options.show_hash || options.show_author {
        ShowNext::Read
    } else {
        ShowNext::Bat
    }
}

/// Goes on behind a run of `bat`: where it is not installed, the file is read.
pub fn show_after_bat(path: &str, run: RunResult) -> (r: ShowNext<String>)
    ensures
        r@ == (match bat_result(path@, run) {
            Ok(Some(text)) => ShowNext::Done(Ok(text)),
            Ok(None) => ShowNext::Read,
            Err(e) => ShowNext::Done(Err(e)),
        }),
{
    match show_file_output_with_bat(path, run) {
        Ok(Some(text)) => ShowNext::Done(Ok(text)),
        Ok(None) => ShowNext::Read,
        Err(e) => ShowNext::Done(Err(e)),
    }
}

/// Goes on behind the file: with columns git is asked for them, and without them
/// the listing is written.
pub fn show_after_read(
    assets: &SyntaxHighlightAssets,
    path: &str,
    options: ShowFileOptions,
    content: Result<String, String>,
) -> (r: ShowNext<String>)
    ensures
        r@ == (match text_result(content) {
            Err(reason) => ShowNext::Done(Err("failed to read "@ + path@ + ": "@ + reason)),
            Ok(text) => if has_columns(options) {
                ShowNext::Blame(text)
            } else {
                ShowNext::Done(
                    listing(text, colored_file(palette(*assets), path@, text), None, options),
                )
            },
        }),
{
    match content {
        Err(reason) => {
            let mut message = "failed to read ".to_string();
            message.append(path);
            message.append(": ");
            message.append(reason.as_str());
            ShowNext::Done(Err(message))
        },
        Ok(text) => {
            if options.show_hash || options.show_author {
                return ShowNext::Blame(text);
            }
            ShowNext::Done(render_show_file_content(assets, path, text.as_str(), &None, options))
        },
    }
}

/// Where a file lies for git.
pub enum BlamePlace {
    /// There is no repository.
    NoRepository,
    /// The file is outside of the repository, for the reason given.
    Outside(String),
    /// At this path in the repository.
    At(String),
}

/// Why git cannot be asked about a file.
pub open spec fn blame_obstacle(path: Seq<char>, place: BlamePlace) -> Option<Seq<char>> {
    match place {
        BlamePlace::NoRepository => Some(
            "Git blame metadata is only available inside a Git repository"@,
        ),
        BlamePlace::Outside(reason) => Some(
            path + " is outside the Git repository: "@ + reason@,
        ),
        BlamePlace::At(_) => None,
    }
}

/// The run of git that tells who wrote the lines of a file, or why there is
/// none.
pub fn blame_start(path: &str, place: BlamePlace) -> (r: Result<
    ProcessRequest<String, Vec<String>, Vec<u8>>,
    String,
>)
    ensures
        match r {
            Ok(request) => place matches BlamePlace::At(relative) && request@.args == blame_args(
                relative@,
            ) && request@.program == "git"@ && request@.place == Place::GitRoot
                && !request@.columns && request@.input is None,
            Err(e) => blame_obstacle(path@, place) == Some(e@),
        },
{
    match place {
        BlamePlace::NoRepository => Err(
            "Git blame metadata is only available inside a Git repository".to_string(),
        ),
        BlamePlace::Outside(reason) => {
            let mut message = path.to_string();
            message.append(" is outside the Git repository: ");
            message.append(reason.as_str());
            Err(message)
        },
        BlamePlace::At(relative) => Ok(blame_request(relative.as_str())),
    }
}

/// Ends a listing with columns, given what git told about the lines.
pub fn show_after_blame(
    assets: &SyntaxHighlightAssets,
    path: &str,
    options: ShowFileOptions,
    content: &str,
    run: RunResult,
) -> (r: Result<String, String>)
    ensures
        text_result(r) == (match blame_result(run) {
            Ok(rows) => listing(
                content@,
                colored_file(palette(*assets), path@, content@),
                Some(rows),
                options,
            ),
            Err(e) => Err(e),
        }),
{
    match git_blame_metadata(run) {
        Ok(rows) => render_show_file_content(assets, path, content, &Some(rows), options),
        Err(e) => Err(e),
    }
}

/// The arguments that a phrase is turned into are read back by the show command
/// as the path and the columns of the phrase. A path behind a dash would be
/// taken for a flag.
pub proof fn law_phrases_are_read_back(path: Seq<char>, options: ShowFileOptions)
    requires
        has_columns(options),
        path.len() > 0,
        path[0] != '-',
    ensures
        show_request(show_file_arguments(path, options)) == Ok::<
            (Seq<char>, ShowFileOptions),
            Seq<char>,
        >((path, options)),
{
    reveal_strlit("--hash");
    reveal_strlit("--hash ");
    reveal_strlit("--author");
    reveal_strlit("--author ");
    reveal_strlit("-");
    let hash = "--hash"@;
    let author = "--author"@;
    let space = seq![' '];
    assert(plain_argument(hash));
    assert(plain_argument(author));
    assert("--hash "@ =~= hash + space);
    assert("--author "@ =~= author + space);
    let words = if options.show_hash && options.show_author {
        seq![hash, author, path]
    } else if options.show_hash {
        seq![hash, path]
    } else {
        seq![author, path]
    };
    law_quoted_arguments_split_back(words);
    let q = all_quoted(words);
    let line = show_file_arguments(path, options);
    assert(!("-"@.is_prefix_of(path))) by {
        if "-"@.is_prefix_of(path) {
            assert("-"@[0] == path.take(1)[0]);
        }
    }
    assert(path != hash && path != author);
    if options.show_hash && options.show_author {
        assert(q =~= seq![hash, author, quoted(path)]);
        assert(q.drop_last() =~= seq![hash, author]);
        assert(q.drop_last().drop_last() =~= seq![hash]);
        assert(joined(seq![hash], space) == hash);
        assert(joined(seq![hash, author], space) == hash + space + author);
        assert(joined(q, space) == joined(seq![hash, author], space) + space + quoted(path));
        assert(line =~= joined(q, space));
        let one = words.drop_last().drop_last();
        assert(one.drop_last() =~= seq![]);
        assert(show_arguments(one.drop_last()) == Ok::<
            (Option<Seq<char>>, ShowFileOptions),
            Seq<char>,
        >((None, no_columns())));
        assert(words.drop_last().last() == author);
        assert(one.last() == hash);
        assert(author[2] != hash[2]);
        assert(show_arguments(one) is Ok);
        assert(show_arguments(words.drop_last()) is Ok);
    } else {
        let flag = if options.show_hash {
            hash
        } else {
            author
        };
        assert(q =~= seq![flag, quoted(path)]);
        assert(q.drop_last() =~= seq![flag]);
        assert(joined(q, space) == joined(seq![flag], space) + space + quoted(path));
        assert(line =~= joined(q, space));
        let one = words.drop_last();
        assert(one.drop_last() =~= seq![]);
        assert(one.last() == flag);
        assert(author[2] != hash[2]);
        assert(show_arguments(one.drop_last()) == Ok::<
            (Option<Seq<char>>, ShowFileOptions),
            Seq<char>,
        >((None, no_columns())));
        assert(show_arguments(one) is Ok);
    }
    assert(words.last() == path);
}

/// A listing has a line for each line of the file, and one for an empty file.
pub proof fn law_listing_has_every_line(
    content: Seq<char>,
    colored: Seq<Seq<char>>,
    blame: Option<Seq<GitLineMetadata<Seq<char>>>>,
    options: ShowFileOptions,
)
    ensures
        content.len() > 0 ==> listing_lines(content, colored, blame, options).len() == lines_of(
            content,
        ).len(),
        content.len() == 0 ==> listing_lines(content, colored, blame, options).len() == 1,
{
    lemma_same_line_count(content);
}

proof fn lemma_same_line_count(s: Seq<char>)
    ensures
        lines_with_endings(s).len() == lines_of(s).len(),
    decreases s.len(),
{
    let n = first_index(s, '\n');
    lemma_first_index_props(s, '\n');
    if s.len() == 0 {
        assert(split_on(s, '\n') =~= seq![s]);
    } else if n < s.len() {
        let rest = s.skip(n + 1);
        lemma_same_line_count(rest);
        lemma_split_nonempty(rest, '\n');
        let pieces = split_on(rest, '\n');
        assert(split_on(s, '\n') == seq![s.take(n)] + pieces);
        assert((seq![s.take(n)] + pieces).last() == pieces.last());
    } else {
        assert(split_on(s, '\n') =~= seq![s]);
    }
}

} // verus!
