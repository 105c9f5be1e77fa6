//! Listings of files: which line has which number, commit and author.
use vstd::prelude::*;
use vstd::string::*;
use vstd::utf8::{decode_utf8, valid_utf8};

use crate::ansi::ANSI_RESET;
use crate::bytes::{utf8_fault, ProcessOutput, RunResult};
use crate::command::ShowFileOptions;
use crate::git::err_of;
use crate::highlight::lines_with_endings;
use crate::number::decimal;
use crate::show_file::{
    bat_args, bat_result, blame_args, blame_obstacle, blame_read, blame_result, blame_step,
    is_hash, listing, listing_line, listing_lines, right_aligned, show_arguments, space_words,
    without_line_end, BlamePlace, GitLineMetadata,
};
use crate::text::{joined, lines_of, no_whitespace, whitespace};

verus! {

/// Whether a word is the name of a commit: at least eight hexadecimal digits.
pub open spec fn names_commit(word: Seq<char>) -> bool {
    word.len() >= 8 && forall|i: int|
        0 <= i < word.len() ==> ('0' <= #[trigger] word[i] <= '9' || 'a' <= word[i] <= 'f' || 'A'
            <= word[i] <= 'F')
}

/// What blame prints about one line: a header with the commit and at least two
/// numbers, further rows with the author among them, and the source behind a
/// tab.
pub struct BlameEntry {
    pub commit: Seq<char>,
    pub numbers: Seq<Seq<char>>,
    pub before: Seq<Seq<char>>,
    pub author: Seq<char>,
    pub after: Seq<Seq<char>>,
    pub source: Seq<char>,
}

/// Whether a row of blame tells neither a commit, nor an author, nor a source.
pub open spec fn tells_nothing(row: Seq<char>) -> bool {
    &&& !"\t"@.is_prefix_of(row)
    &&& !"author "@.is_prefix_of(row)
    &&& space_words(row).len() == 0 || !names_commit(space_words(row)[0])
}

impl BlameEntry {
    /// The rows of the entry.
    pub open spec fn rows(self) -> Seq<Seq<char>> {
        seq![joined(seq![self.commit] + self.numbers, " "@)] + self.before + seq![
            "author "@ + self.author,
        ] + self.after + seq!["\t"@ + self.source]
    }

    pub open spec fn wf(self) -> bool {
        &&& names_commit(self.commit)
        &&& self.numbers.len() >= 2
        &&& forall|i: int|
            0 <= i < self.numbers.len() ==> (#[trigger] self.numbers[i]).len() > 0 && no_whitespace(
                self.numbers[i],
            )
        &&& forall|i: int| 0 <= i < self.before.len() ==> tells_nothing(#[trigger] self.before[i])
        &&& forall|i: int| 0 <= i < self.after.len() ==> tells_nothing(#[trigger] self.after[i])
    }
}

/// The rows of several entries.
pub open spec fn all_rows(entries: Seq<BlameEntry>) -> Seq<Seq<char>>
    decreases entries.len(),
{
    if entries.len() == 0 {
        seq![]
    } else {
        all_rows(entries.drop_last()) + entries.last().rows()
    }
}

proof fn lemma_word_grows(s: Seq<char>, w: Seq<char>)
    requires
        s.len() == 0 || whitespace(s.last()),
        w.len() > 0,
        no_whitespace(w),
    ensures
        space_words(s + w) == space_words(s).push(w),
    decreases w.len(),
{
    let init = w.drop_last();
    let all = s + w;
    assert(all.drop_last() =~= s + init);
    assert(!whitespace(w.last()));
    if init.len() == 0 {
        assert(s + init =~= s);
        assert(w =~= seq![w.last()]);
        assert(space_words(all) =~= space_words(s).push(w));
    } else {
        assert(no_whitespace(init)) by {
            assert forall|i: int| 0 <= i < init.len() implies !whitespace(#[trigger] init[i]) by {
                assert(init[i] == w[i]);
            }
        }
        lemma_word_grows(s, init);
        assert((s + init).last() == init.last());
        assert(!whitespace(init.last())) by {
            assert(init.last() == w[w.len() - 2]);
        }
        let rest = space_words(s).push(init);
        assert(rest.drop_last() =~= space_words(s));
        assert(init.push(w.last()) =~= w);
    }
}

/// Words with blanks between them are these words.
pub proof fn law_words_are_what_stands_between_blanks(words: Seq<Seq<char>>)
    requires
        forall|i: int|
            0 <= i < words.len() ==> (#[trigger] words[i]).len() > 0 && no_whitespace(words[i]),
    ensures
        space_words(joined(words, " "@)) == words,
    decreases words.len(),
{
    reveal_strlit(" ");
    if words.len() == 0 {
        assert(space_words(joined(words, " "@)) =~= words);
    } else {
        let init = words.drop_last();
        let w = words.last();
        assert forall|i: int| 0 <= i < init.len() implies (#[trigger] init[i]).len() > 0
            && no_whitespace(init[i]) by {
            assert(init[i] == words[i]);
        }
        law_words_are_what_stands_between_blanks(init);
        assert(init.push(w) =~= words);
        if init.len() == 0 {
            let none = Seq::<char>::empty();
            lemma_word_grows(none, w);
            assert(none + w =~= w);
            assert(space_words(none) =~= init);
        } else {
            let head = joined(init, " "@);
            let open = head + " "@;
            assert(open.drop_last() =~= head);
            assert(whitespace(open.last()));
            assert(space_words(open) == space_words(head));
            lemma_word_grows(open, w);
        }
    }
}

proof fn lemma_nothing(s: Seq<Seq<char>>, rows: Seq<Seq<char>>)
    requires
        forall|i: int| 0 <= i < rows.len() ==> tells_nothing(#[trigger] rows[i]),
    ensures
        blame_read(s + rows) == blame_read(s),
    decreases rows.len(),
{
    if rows.len() == 0 {
        assert(s + rows =~= s);
    } else {
        let init = rows.drop_last();
        assert forall|i: int| 0 <= i < init.len() implies tells_nothing(#[trigger] init[i]) by {
            assert(init[i] == rows[i]);
        }
        lemma_nothing(s, init);
        assert((s + rows).drop_last() =~= s + init);
        assert((s + rows).last() == rows[rows.len() - 1]);
        assert(tells_nothing(rows[rows.len() - 1]));
    }
}

proof fn lemma_read_one(s: Seq<Seq<char>>, row: Seq<char>)
    ensures
        blame_read(s + seq![row]) == blame_step(blame_read(s), row),
{
    assert((s + seq![row]).drop_last() =~= s);
}

proof fn lemma_entry(s: Seq<Seq<char>>, e: BlameEntry)
    requires
        e.wf(),
    ensures
        blame_read(s + e.rows()).done == blame_read(s).done.push(
            GitLineMetadata { hash: e.commit.take(8), author: e.author },
        ),
{
    reveal_strlit("\t");
    reveal_strlit("author ");
    reveal_strlit(" ");
    let words = seq![e.commit] + e.numbers;
    assert forall|i: int| 0 <= i < words.len() implies (#[trigger] words[i]).len() > 0
        && no_whitespace(words[i]) by {
        if i > 0 {
            assert(words[i] == e.numbers[i - 1]);
        } else {
            assert(no_whitespace(e.commit));
        }
    }
    law_words_are_what_stands_between_blanks(words);
    let header = joined(words, " "@);
    lemma_joined_begins(words);
    assert(header[0] == e.commit[0] && header[1] == e.commit[1]);
    assert(!"\t"@.is_prefix_of(header)) by {
        if "\t"@.is_prefix_of(header) {
            assert(header.subrange(0, 1)[0] == header[0]);
        }
    }
    assert(!"author "@.is_prefix_of(header)) by {
        if "author "@.is_prefix_of(header) {
            assert(header.subrange(0, 7)[1] == header[1]);
        }
    }
    let author = "author "@ + e.author;
    assert("author "@ =~= author.subrange(0, 7));
    assert(author.skip(7) =~= e.author);
    assert(!"\t"@.is_prefix_of(author)) by {
        if "\t"@.is_prefix_of(author) {
            assert(author.subrange(0, 1)[0] == author[0]);
        }
    }
    let source = "\t"@ + e.source;
    assert("\t"@ =~= source.subrange(0, 1));
    let s1 = s + seq![header];
    let s2 = s1 + e.before;
    let s3 = s2 + seq![author];
    let s4 = s3 + e.after;
    let s5 = s4 + seq![source];
    assert(s5 =~= s + e.rows());
    lemma_read_one(s, header);
    lemma_nothing(s1, e.before);
    lemma_read_one(s2, author);
    lemma_nothing(s3, e.after);
    lemma_read_one(s4, source);
    assert(is_hash(words[0]));
}

proof fn lemma_joined_begins(words: Seq<Seq<char>>)
    requires
        words.len() > 0,
    ensures
        words[0].is_prefix_of(joined(words, " "@)),
        joined(words, " "@).len() >= words[0].len(),
        forall|i: int| 0 <= i < words[0].len() ==> #[trigger] joined(words, " "@)[i] == words[0][i],
    decreases words.len(),
{
    let all = joined(words, " "@);
    if words.len() > 1 {
        lemma_joined_begins(words.drop_last());
        let head = joined(words.drop_last(), " "@);
        assert forall|i: int| 0 <= i < words[0].len() implies #[trigger] all[i] == words[0][i] by {
            assert(head[i] == words[0][i]);
        }
    }
    assert(words[0] =~= all.subrange(0, words[0].len() as int));
}

/// The columns of a line depend on its own entry alone: each line has the first
/// eight digits of the commit that its header names, and the author of its entry.
pub proof fn law_each_line_has_its_own_commit_and_author(entries: Seq<BlameEntry>)
    requires
        forall|i: int| 0 <= i < entries.len() ==> (#[trigger] entries[i]).wf(),
    ensures
        blame_read(all_rows(entries)).done == Seq::new(
            entries.len(),
            |i: int|
                GitLineMetadata { hash: entries[i].commit.take(8), author: entries[i].author },
        ),
    decreases entries.len(),
{
    let f = |i: int|
        GitLineMetadata { hash: entries[i].commit.take(8), author: entries[i].author };
    if entries.len() == 0 {
        assert(blame_read(all_rows(entries)).done =~= Seq::new(entries.len(), f));
    } else {
        let init = entries.drop_last();
        assert forall|i: int| 0 <= i < init.len() implies (#[trigger] init[i]).wf() by {
            assert(init[i] == entries[i]);
        }
        law_each_line_has_its_own_commit_and_author(init);
        lemma_entry(all_rows(init), entries.last());
        assert(blame_read(all_rows(entries)).done =~= Seq::new(entries.len(), f));
    }
}

/// Numbers stand below each other: each fills the width, blanks before it.
pub proof fn law_numbers_are_aligned(n: nat, width: nat)
    ensures
        decimal(n).is_suffix_of(right_aligned(n, width)),
        decimal(n).len() <= width ==> right_aligned(n, width).len() == width,
        forall|i: int|
            0 <= i < right_aligned(n, width).len() - decimal(n).len() ==> #[trigger] right_aligned(
                n,
                width,
            )[i] == ' ',
{
    let s = right_aligned(n, width);
    let d = decimal(n);
    assert(d =~= s.subrange(s.len() - d.len(), s.len() as int));
}

/// A line of a listing shows its number, then the hash and the author where they
/// are asked for and known, and then the source between resets of the colour.
pub proof fn law_listing_lines_show_their_parts(
    n: nat,
    line: Seq<char>,
    hash: Seq<char>,
    author: Seq<char>,
    width: nat,
)
    requires
        line.len() > 0,
    ensures
        ({
            let m = Some(GitLineMetadata { hash, author });
            let number = right_aligned(n, width);
            let source = "\x1b[0m"@ + line + "\x1b[0m"@;
            let options = |h: bool, a: bool| ShowFileOptions { show_hash: h, show_author: a };
            &&& listing_line(n, line, m, options(false, false), width) == number + " "@ + source
            &&& listing_line(n, line, m, options(true, false), width) == number + " "@ + hash + " "@
                + source
            &&& listing_line(n, line, m, options(false, true), width) == number + " "@ + author
                + " "@ + source
            &&& listing_line(n, line, m, options(true, true), width) == number + " "@ + hash + " "@
                + author + " "@ + source
            &&& listing_line(n, line, None, options(true, true), width) == number + " "@ + source
            &&& listing_line(n, seq![], m, options(true, true), width) == number + " "@ + hash
                + " "@ + author
            &&& listing_line(n, seq![], None, options(false, false), width) == number
        }),
{
    let number = right_aligned(n, width);
    let source = ANSI_RESET@ + line + ANSI_RESET@;
    let none = Seq::<Seq<char>>::empty();
    lemma_join_two(number, source);
    lemma_join_three(number, hash, source);
    lemma_join_three(number, author, source);
    lemma_join_three(number, hash, author);
    lemma_join_four(number, hash, author, source);
    assert(seq![number] + none + none + seq![source] =~= seq![number, source]);
    assert(seq![number] + seq![hash] + none + seq![source] =~= seq![number, hash, source]);
    assert(seq![number] + none + seq![author] + seq![source] =~= seq![number, author, source]);
    assert(seq![number] + seq![hash] + seq![author] + seq![source] =~= seq![
        number,
        hash,
        author,
        source,
    ]);
    assert(seq![number] + seq![hash] + seq![author] + none =~= seq![number, hash, author]);
    assert(seq![number] + none + none + none =~= seq![number]);
}

proof fn lemma_join_two(a: Seq<char>, b: Seq<char>)
    ensures
        joined(seq![a, b], " "@) == a + " "@ + b,
{
    reveal_with_fuel(joined, 2);
    assert(seq![a, b].drop_last() =~= seq![a]);
}

proof fn lemma_join_three(a: Seq<char>, b: Seq<char>, c: Seq<char>)
    ensures
        joined(seq![a, b, c], " "@) == a + " "@ + b + " "@ + c,
{
    lemma_join_two(a, b);
    assert(seq![a, b, c].drop_last() =~= seq![a, b]);
}

proof fn lemma_join_four(a: Seq<char>, b: Seq<char>, c: Seq<char>, d: Seq<char>)
    ensures
        joined(seq![a, b, c, d], " "@) == a + " "@ + b + " "@ + c + " "@ + d,
{
    lemma_join_three(a, b, c);
    assert(seq![a, b, c, d].drop_last() =~= seq![a, b, c]);
}

/// The lines of a listing are numbered from one, in the order of the file, and
/// each shows its own source and columns; the numbers are as wide as that of the
/// last line.
pub proof fn law_listings_are_numbered_from_one(
    content: Seq<char>,
    colored: Seq<Seq<char>>,
    blame: Option<Seq<GitLineMetadata<Seq<char>>>>,
    options: ShowFileOptions,
    i: int,
)
    requires
        content.len() > 0,
        0 <= i < lines_with_endings(content).len(),
        colored.len() == lines_with_endings(content).len(),
    ensures
        ({
            let all = listing_lines(content, colored, blame, options);
            let width = decimal(lines_of(content).len()).len();
            let source = if without_line_end(lines_with_endings(content)[i]).len() == 0 {
                Seq::<char>::empty()
            } else {
                without_line_end(colored[i])
            };
            let m = match blame {
                Some(rows) => if i < rows.len() {
                    Some(rows[i])
                } else {
                    None
                },
                None => None,
            };
            &&& all.len() == lines_with_endings(content).len()
            &&& lines_of(content).len() > 0 ==> all[i] == listing_line(
                (i + 1) as nat,
                source,
                m,
                options,
                width,
            )
            &&& listing(content, Ok(colored), blame, options) == Ok::<Seq<char>, Seq<char>>(
                joined(all, "\n"@),
            )
        }),
{
}

/// Line endings are dropped, and nothing else.
pub proof fn law_line_ends_are_dropped(s: Seq<char>)
    ensures
        without_line_end(s).is_prefix_of(s),
        without_line_end(s).len() > 0 ==> without_line_end(s).last() != '\n' && without_line_end(
            s,
        ).last() != '\r',
        forall|i: int|
            without_line_end(s).len() <= i < s.len() ==> #[trigger] s[i] == '\n' || s[i] == '\r',
    decreases s.len(),
{
    if s.len() > 0 && (s.last() == '\n' || s.last() == '\r') {
        let init = s.drop_last();
        law_line_ends_are_dropped(init);
        assert forall|i: int| without_line_end(s).len() <= i < s.len() implies #[trigger] s[i]
            == '\n' || s[i] == '\r' by {
            if i < init.len() {
                assert(init[i] == s[i]);
            }
        }
        let r = without_line_end(init);
        assert(r =~= s.subrange(0, r.len() as int));
    } else {
        assert(s =~= s.subrange(0, s.len() as int));
    }
}

/// Of the words behind the show command, the flags switch their columns on
/// wherever they stand, exactly one word is no flag, and that is the path.
pub proof fn law_show_flags_switch_columns_on(words: Seq<Seq<char>>)
    ensures
        match show_arguments(words) {
            Ok((path, options)) => {
                &&& options.show_hash <==> words.contains("--hash"@)
                &&& options.show_author <==> words.contains("--author"@)
                &&& path matches Some(p) ==> words.contains(p) && !"-"@.is_prefix_of(p)
                &&& forall|i: int|
                    0 <= i < words.len() ==> #[trigger] words[i] == "--hash"@ || words[i]
                        == "--author"@ || path == Some(words[i])
            },
            Err(e) => exists|i: int|
                0 <= i < words.len() && #[trigger] words[i] != "--hash"@ && words[i]
                    != "--author"@,
        },
    decreases words.len(),
{
    reveal_strlit("--hash");
    reveal_strlit("--author");
    reveal_strlit("-");
    assert("--hash"@[2] == 'h' && "--author"@[2] == 'a');
    if words.len() > 0 {
        let init = words.drop_last();
        law_show_flags_switch_columns_on(init);
        lemma_has_last(words, "--hash"@);
        lemma_has_last(words, "--author"@);
        assert forall|i: int| 0 <= i < init.len() implies #[trigger] words[i] == init[i] by {}
        match show_arguments(init) {
            Ok((path, options)) => {
                if let Some(p) = path {
                    lemma_has_last(words, p);
                }
                lemma_has_last(words, words.last());
                assert(words[words.len() - 1] == words.last());
                assert forall|i: int| 0 <= i < words.len() implies (#[trigger] words[i] == "--hash"@
                    || words[i] == "--author"@ || path == Some(words[i]) || i == words.len() - 1) by {
                    if i < init.len() {
                        assert(init[i] == words[i]);
                    }
                }
            },
            Err(e) => {
                let i = choose|i: int|
                    0 <= i < init.len() && #[trigger] init[i] != "--hash"@ && init[i]
                        != "--author"@;
                assert(words[i] != "--hash"@ && words[i] != "--author"@);
            },
        }
    }
}

proof fn lemma_has_last(words: Seq<Seq<char>>, x: Seq<char>)
    requires
        words.len() > 0,
    ensures
        words.contains(x) <==> words.drop_last().contains(x) || words.last() == x,
{
    let init = words.drop_last();
    if init.contains(x) {
        let i = choose|i: int| 0 <= i < init.len() && init[i] == x;
        assert(words[i] == x);
    }
    if words.contains(x) && words.last() != x {
        let i = choose|i: int| 0 <= i < words.len() && words[i] == x;
        assert(init[i] == x);
    }
    if words.last() == x {
        assert(words[words.len() - 1] == x);
    }
}

/// A flag that is not known, a second path, and no path at all are refused.
pub proof fn law_show_refuses_what_it_does_not_know(flag: Seq<char>, a: Seq<char>, b: Seq<char>)
    requires
        "-"@.is_prefix_of(flag),
        flag != "--hash"@,
        flag != "--author"@,
        !"-"@.is_prefix_of(a),
        !"-"@.is_prefix_of(b),
    ensures
        ({
            let usage =
                "Usage: /show_file [--hash] [--author] <path>. Use /help to see available commands."@;
            let unknown = Err::<(Option<Seq<char>>, ShowFileOptions), Seq<char>>(
                "Unknown option '"@ + flag + "'. "@ + usage,
            );
            &&& show_arguments(seq![flag, a]) == unknown
            &&& show_arguments(seq![a, flag]) == unknown
            &&& show_arguments(seq![a, b]) == Err::<
                (Option<Seq<char>>, ShowFileOptions),
                Seq<char>,
            >(usage)
        }),
        show_arguments(seq![a]) matches Ok((path, options)) && path == Some(a)
            && !options.show_hash && !options.show_author,
{
    reveal_strlit("--hash");
    reveal_strlit("--author");
    reveal_strlit("-");
    assert("-"@ =~= "--hash"@.subrange(0, 1));
    assert("-"@ =~= "--author"@.subrange(0, 1));
    assert(a != "--hash"@ && a != "--author"@ && b != "--hash"@ && b != "--author"@);
    reveal_with_fuel(show_arguments, 3);
    assert(seq![flag, a].drop_last() =~= seq![flag]);
    assert(seq![a, flag].drop_last() =~= seq![a]);
    assert(seq![a, b].drop_last() =~= seq![a]);
    assert(seq![a].drop_last() =~= seq![]);
    assert(seq![flag].drop_last() =~= seq![]);
}

/// Git is asked about every line of exactly the file that is listed, and `bat`
/// lists the file as wide as the terminal and without a pager.
pub proof fn law_listings_ask_for_the_file(path: Seq<char>, width: nat)
    ensures
        blame_args(path) == seq!["blame"@, "--line-porcelain"@, "--abbrev=8"@, "--"@, path],
        bat_args(path, width).last() == path,
        bat_args(path, width).contains("--paging=never"@),
        bat_args(path, width).contains("--color=always"@),
        bat_args(path, width).contains("--style=numbers"@),
        bat_args(path, width)[3] == "--terminal-width"@ && bat_args(path, width)[4] == decimal(
            width,
        ),
{
    let args = bat_args(path, width);
    assert(args[0] == "--paging=never"@ && args[1] == "--color=always"@ && args[2]
        == "--style=numbers"@);
}

/// Where `bat` is not installed, the listing goes on without it; where it fails,
/// the user is told.
pub proof fn law_bat_may_be_missing(path: Seq<char>, reason: String, output: ProcessOutput)
    ensures
        bat_result(path, RunResult::NotFound(reason)) == Ok::<Option<Seq<char>>, Seq<char>>(None),
        !output.success ==> bat_result(path, RunResult::Finished(output)) is Err,
        !output.success ==> blame_result(RunResult::Finished(output)) is Err,
        bat_result(path, RunResult::Failed(reason)) is Err,
        blame_result(RunResult::NotFound(reason)) is Err,
{
}

/// What `bat` prints is the listing, and what blame prints is read line by line,
/// where it is text; else the user is told what is wrong with it.
pub proof fn law_output_that_is_text_is_taken(
    path: Seq<char>,
    output: ProcessOutput,
    reason: String,
)
    ensures
        output.success && valid_utf8(output.stdout@) ==> {
            &&& bat_result(path, RunResult::Finished(output)) == Ok::<
                Option<Seq<char>>,
                Seq<char>,
            >(Some(decode_utf8(output.stdout@)))
            &&& blame_result(RunResult::Finished(output)) == Ok::<
                Seq<GitLineMetadata<Seq<char>>>,
                Seq<char>,
            >(blame_read(lines_of(decode_utf8(output.stdout@))).done)
        },
        output.success && !valid_utf8(output.stdout@) ==> {
            &&& bat_result(path, RunResult::Finished(output)) == Err::<
                Option<Seq<char>>,
                Seq<char>,
            >("bat output for "@ + path + " was not UTF-8: "@ + utf8_fault(output.stdout@))
            &&& blame_result(RunResult::Finished(output)) == Err::<
                Seq<GitLineMetadata<Seq<char>>>,
                Seq<char>,
            >("git blame output was not UTF-8: "@ + utf8_fault(output.stdout@))
        },
        !output.success && err_of(output).len() == 0 ==> {
            &&& bat_result(path, RunResult::Finished(output)) == Err::<
                Option<Seq<char>>,
                Seq<char>,
            >("bat failed"@)
            &&& blame_result(RunResult::Finished(output)) == Err::<
                Seq<GitLineMetadata<Seq<char>>>,
                Seq<char>,
            >("git blame failed"@)
        },
        !output.success && err_of(output).len() > 0 ==> {
            &&& bat_result(path, RunResult::Finished(output)) == Err::<
                Option<Seq<char>>,
                Seq<char>,
            >("bat failed"@ + ": "@ + err_of(output))
            &&& blame_result(RunResult::Finished(output)) == Err::<
                Seq<GitLineMetadata<Seq<char>>>,
                Seq<char>,
            >("git blame failed"@ + ": "@ + err_of(output))
        },
        bat_result(path, RunResult::Failed(reason)) == Err::<Option<Seq<char>>, Seq<char>>(
            "failed to run bat for "@ + path + ": "@ + reason@,
        ),
        blame_result(RunResult::Failed(reason)) == Err::<
            Seq<GitLineMetadata<Seq<char>>>,
            Seq<char>,
        >("failed to run git blame: "@ + reason@),
{
}

/// Commits and authors are known of files inside a repository alone.
pub proof fn law_columns_need_a_repository(path: Seq<char>, text: String)
    ensures
        blame_obstacle(path, BlamePlace::NoRepository) == Some(
            "Git blame metadata is only available inside a Git repository"@,
        ),
        blame_obstacle(path, BlamePlace::Outside(text)) == Some(
            path + " is outside the Git repository: "@ + text@,
        ),
        blame_obstacle(path, BlamePlace::At(text)) is None,
{
}

} // verus!
