//! Texts and their pieces: lines, words, names, and what puts them together
//! again.
use vstd::prelude::*;
use vstd::string::*;
use vstd::utf8::{decode_utf8, valid_utf8};

use crate::dispatch::without_final_slashes;
use crate::gitignore::{is_relative, line_end, rules_in, without_marks, workspace_rules};
use crate::highlight::{
    blended, file_syntax, language_syntax, lines_with_endings, plain_syntax,
    syntax_for_extension, syntax_for_first_line, syntax_for_token,
};
use crate::history::history_entries;
use crate::number::{
    decimal, digit_char, digits_value, is_digit, lemma_decimal_digits, number_in, without_plus,
};
use crate::offset::byte_width;
use crate::paths::{extension_of, last_dot, last_part, name_of_path};
use crate::phrases::is_argument;
use crate::repository::{
    branch_in, gitdir_in, normalized, repository_at, FoundRepository, GitEntry, PathComponent,
};
use crate::shell::{
    all_quoted, law_quoted_arguments_split_back, needs_quotes, plain_argument, quoted, shell_mode,
    shell_pieces, unquoted, words_of, ShellMode, ShellWordsError,
};
use crate::status::colored_line;
use crate::text::{
    ascii_lower, first_index, joined, lemma_first_index_props, lemma_lines_append, lemma_split_join,
    lines_of, split_on, trimmed, trimmed_end, trimmed_start, whitespace, with_slashes, without_cr,
};

verus! {

/// White space in ASCII is the blank, the tab and the characters that end a line
/// or a page.
pub proof fn law_ascii_white_space(c: char)
    requires
        c <= '\u{7f}',
    ensures
        whitespace(c) <==> (c == ' ' || c == '\t' || c == '\n' || c == '\r' || c == '\u{b}' || c
            == '\u{c}'),
{
}

/// Only the letters from A to Z have another form in lower case, the one with
/// the same place in the alphabet.
pub proof fn law_lower_case_of_letters(c: char)
    ensures
        'A' <= c <= 'Z' ==> ascii_lower(c) as int == c as int - 'A' as int + 'a' as int,
        !('A' <= c <= 'Z') ==> ascii_lower(c) == c,
{
}

/// The bytes that a character takes are those of UTF-8.
pub proof fn law_characters_take_their_bytes(c: char)
    ensures
        byte_width(c) == (if (c as int) < 0x80 {
            1
        } else if (c as int) < 0x800 {
            2
        } else if (c as int) < 0x1_0000 {
            3
        } else {
            4int
        }),
{
}

proof fn lemma_trim_start(s: Seq<char>)
    ensures
        trimmed_start(s).len() <= s.len(),
        s.skip(s.len() - trimmed_start(s).len()) == trimmed_start(s),
        forall|i: int| 0 <= i < s.len() - trimmed_start(s).len() ==> whitespace(#[trigger] s[i]),
        trimmed_start(s).len() > 0 ==> !whitespace(trimmed_start(s)[0]),
    decreases s.len(),
{
    if s.len() > 0 && whitespace(s[0]) {
        let rest = s.drop_first();
        lemma_trim_start(rest);
        let n = s.len() - trimmed_start(s).len();
        assert(s.skip(n) =~= rest.skip(n - 1));
        assert forall|i: int| 0 <= i < n implies whitespace(#[trigger] s[i]) by {
            if i > 0 {
                assert(rest[i - 1] == s[i]);
            }
        }
    } else {
        assert(s.skip(0) =~= s);
    }
}

proof fn lemma_trim_end(s: Seq<char>)
    ensures
        trimmed_end(s).len() <= s.len(),
        s.take(trimmed_end(s).len() as int) == trimmed_end(s),
        forall|i: int| trimmed_end(s).len() <= i < s.len() ==> whitespace(#[trigger] s[i]),
        trimmed_end(s).len() > 0 ==> !whitespace(trimmed_end(s).last()),
    decreases s.len(),
{
    if s.len() > 0 && whitespace(s.last()) {
        let rest = s.drop_last();
        lemma_trim_end(rest);
        let n = trimmed_end(s).len() as int;
        assert(s.take(n) =~= rest.take(n));
        assert forall|i: int| n <= i < s.len() implies whitespace(#[trigger] s[i]) by {
            if i < rest.len() {
                assert(rest[i] == s[i]);
            }
        }
    } else {
        assert(s.take(s.len() as int) =~= s);
    }
}

/// Trimming takes white space from both ends, all of it and nothing else.
pub proof fn law_trimming_takes_white_space(s: Seq<char>)
    ensures
        exists|a: int, b: int| #[trigger] trims(s, a, b) && trimmed(s) == s.subrange(a, b),
        trimmed(s).len() > 0 ==> is_argument(trimmed(s)),
{
    let m = trimmed_start(s);
    lemma_trim_start(s);
    lemma_trim_end(m);
    let a = s.len() - m.len();
    let b = a + trimmed_end(m).len();
    assert(trimmed(s) =~= s.subrange(a, b));
    assert forall|i: int| b <= i < s.len() implies whitespace(#[trigger] s[i]) by {
        assert(m[i - a] == s[i]);
    }
    if trimmed(s).len() > 0 {
        assert(trimmed(s)[0] == m[0]);
    }
    assert(trims(s, a, b));
}

/// Whether what stands before and behind two positions is white space.
pub open spec fn trims(s: Seq<char>, a: int, b: int) -> bool {
    &&& 0 <= a <= b <= s.len()
    &&& forall|i: int| 0 <= i < a ==> whitespace(#[trigger] s[i])
    &&& forall|i: int| b <= i < s.len() ==> whitespace(#[trigger] s[i])
}

/// White space around a text that has none comes off again.
pub proof fn law_white_space_around_comes_off(a: Seq<char>, t: Seq<char>, b: Seq<char>)
    requires
        is_argument(t),
        forall|i: int| 0 <= i < a.len() ==> whitespace(#[trigger] a[i]),
        forall|i: int| 0 <= i < b.len() ==> whitespace(#[trigger] b[i]),
    ensures
        trimmed(a + t + b) == t,
{
    let s = a + t + b;
    lemma_strip_start(a, t + b);
    assert(a + (t + b) =~= s);
    assert((t + b)[0] == t[0]);
    lemma_strip_end(t, b);
}

proof fn lemma_strip_start(a: Seq<char>, t: Seq<char>)
    requires
        t.len() > 0,
        !whitespace(t[0]),
        forall|i: int| 0 <= i < a.len() ==> whitespace(#[trigger] a[i]),
    ensures
        trimmed_start(a + t) == t,
    decreases a.len(),
{
    if a.len() == 0 {
        assert(a + t =~= t);
    } else {
        let rest = a.drop_first();
        assert forall|i: int| 0 <= i < rest.len() implies whitespace(#[trigger] rest[i]) by {
            assert(rest[i] == a[i + 1]);
        }
        lemma_strip_start(rest, t);
        assert((a + t).drop_first() =~= rest + t);
    }
}

proof fn lemma_strip_end(t: Seq<char>, b: Seq<char>)
    requires
        t.len() > 0,
        !whitespace(t.last()),
        forall|i: int| 0 <= i < b.len() ==> whitespace(#[trigger] b[i]),
    ensures
        trimmed_end(t + b) == t,
    decreases b.len(),
{
    if b.len() == 0 {
        assert(t + b =~= t);
    } else {
        let rest = b.drop_last();
        assert forall|i: int| 0 <= i < rest.len() implies whitespace(#[trigger] rest[i]) by {
            assert(rest[i] == b[i]);
        }
        lemma_strip_end(t, rest);
        assert((t + b).drop_last() =~= t + rest);
    }
}

/// A text made of rows, each with a line feed behind it.
pub open spec fn text_of_rows(rows: Seq<Seq<char>>) -> Seq<char>
    decreases rows.len(),
{
    if rows.len() == 0 {
        seq![]
    } else {
        text_of_rows(rows.drop_last()) + rows.last().push('\n')
    }
}

/// Lines come back: a text made of rows, each with a line feed behind it, has
/// these rows as its lines. A carriage return before the line feed does not
/// count.
pub proof fn law_lines_come_back(rows: Seq<Seq<char>>)
    requires
        forall|i: int| 0 <= i < rows.len() ==> !(#[trigger] rows[i]).contains('\n'),
    ensures
        lines_of(text_of_rows(rows)) == rows.map_values(|r: Seq<char>| without_cr(r)),
    decreases rows.len(),
{
    let none = Seq::<char>::empty();
    if rows.len() == 0 {
        lemma_first_index_props(none, '\n');
        assert(split_on(none, '\n') =~= seq![none]);
        assert(lines_of(none) =~= rows.map_values(|r: Seq<char>| without_cr(r)));
    } else {
        let init = rows.drop_last();
        assert forall|i: int| 0 <= i < init.len() implies !(#[trigger] init[i]).contains('\n') by {
            assert(init[i] == rows[i]);
        }
        law_lines_come_back(init);
        let before = text_of_rows(init);
        assert(before.len() == 0 || before.last() == '\n') by {
            if init.len() > 0 {
                let row = init.last().push('\n');
                assert((text_of_rows(init.drop_last()) + row).last() == row.last());
            }
        }
        assert(!rows[rows.len() - 1].contains('\n'));
        lemma_lines_append(before, rows.last());
        assert(lines_of(text_of_rows(rows)) =~= rows.map_values(|r: Seq<char>| without_cr(r)));
    }
}

/// A text without a line feed is one line, or none where it is empty.
pub proof fn law_one_line_is_one_line(s: Seq<char>)
    requires
        !s.contains('\n'),
    ensures
        s.len() > 0 ==> lines_of(s) == seq![s],
        s.len() == 0 ==> lines_of(s).len() == 0,
        without_cr(s.push('\r')) == s,
{
    lemma_first_index_props(s, '\n');
    assert(split_on(s, '\n') =~= seq![s]);
    assert(seq![s].drop_last() =~= seq![]);
    assert(lines_of(s) =~= (if s.len() == 0 {
        Seq::<Seq<char>>::empty()
    } else {
        seq![s]
    }));
    assert(s.push('\r').drop_last() =~= s);
}

/// Splitting at a character and putting it back between the pieces gives the
/// text back, and no piece holds the character.
pub proof fn law_split_pieces_join_again(s: Seq<char>, c: char, i: int)
    ensures
        joined(split_on(s, c), seq![c]) == s,
        0 <= i < split_on(s, c).len() ==> !split_on(s, c)[i].contains(c),
    decreases s.len(),
{
    let n = first_index(s, c);
    lemma_first_index_props(s, c);
    let head = s.take(n);
    assert(!head.contains(c)) by {
        if head.contains(c) {
            let j = choose|j: int| 0 <= j < head.len() && head[j] == c;
            assert(s[j] == c);
        }
    }
    if n >= s.len() {
        assert(head =~= s);
    } else {
        let rest = s.skip(n + 1);
        law_split_pieces_join_again(rest, c, i - 1);
        crate::text::lemma_split_nonempty(rest, c);
        lemma_joined_more(head, split_on(rest, c), seq![c]);
        assert(head + seq![c] + rest =~= s);
    }
}

proof fn lemma_joined_more(a: Seq<char>, rest: Seq<Seq<char>>, sep: Seq<char>)
    requires
        rest.len() > 0,
    ensures
        joined(seq![a] + rest, sep) == a + sep + joined(rest, sep),
    decreases rest.len(),
{
    let all = seq![a] + rest;
    assert(all.drop_last() =~= seq![a] + rest.drop_last());
    if rest.len() == 1 {
        assert(rest.drop_last() =~= seq![]);
        assert(all.drop_last() =~= seq![a]);
        reveal_with_fuel(joined, 2);
    } else {
        lemma_joined_more(a, rest.drop_last(), sep);
        assert(joined(all, sep) =~= a + sep + joined(rest, sep));
    }
}

/// Joining puts the separator between the parts, and nowhere else.
pub proof fn law_joining_separates_the_parts(
    a: Seq<char>,
    rest: Seq<Seq<char>>,
    sep: Seq<char>,
)
    ensures
        joined(seq![], sep).len() == 0,
        joined(seq![a], sep) == a,
        rest.len() > 0 ==> joined(seq![a] + rest, sep) == a + sep + joined(rest, sep),
{
    if rest.len() > 0 {
        lemma_joined_more(a, rest, sep);
    }
}

/// Quotes around a text come off where they match, one pair of them; other texts
/// stay as they are.
pub proof fn law_matching_quotes_come_off(s: Seq<char>)
    ensures
        unquoted(seq!['"'] + s + seq!['"']) == s,
        unquoted(seq!['\''] + s + seq!['\'']) == s,
        s.len() == 0 || (s[0] != '"' && s[0] != '\'') ==> unquoted(s) == s,
        s.len() > 0 && s.last() != s[0] ==> unquoted(s) == s,
        s.len() < 2 ==> unquoted(s) == s,
{
    let a = seq!['"'] + s + seq!['"'];
    let b = seq!['\''] + s + seq!['\''];
    assert(a.subrange(1, a.len() - 1) =~= s);
    assert(b.subrange(1, b.len() - 1) =~= s);
}

/// Words without any sign that the shell reads stand for themselves: with blanks
/// between them they are the words of the line.
pub proof fn law_plain_words_are_words(words: Seq<Seq<char>>)
    requires
        words.len() > 0,
        forall|i: int, k: int|
            0 <= i < words.len() && 0 <= k < words[i].len() ==> !whitespace(#[trigger] words[i][k])
                && words[i][k] != '"' && words[i][k] != '\'' && words[i][k] != '\\' && words[i][k]
                != '$' && words[i][k] != '`',
        forall|i: int| 0 <= i < words.len() ==> (#[trigger] words[i]).len() > 0,
    ensures
        words_of(joined(words, seq![' '])) == Ok::<Seq<Seq<char>>, ShellWordsError>(words),
{
    assert forall|i: int| 0 <= i < words.len() implies quoted(#[trigger] words[i]) == words[i] by {
        assert forall|k: int| 0 <= k < words[i].len() implies !needs_quotes(
            #[trigger] words[i][k],
        ) by {}
        assert(plain_argument(words[i]));
    }
    assert(all_quoted(words) =~= words);
    law_quoted_arguments_split_back(words);
}

proof fn lemma_in_quotes(q: char, s: Seq<char>)
    requires
        q == '"' || q == '\'',
        forall|i: int| 0 <= i < s.len() ==> #[trigger] s[i] != q && s[i] != '\\',
    ensures
        shell_mode(seq![q] + s) == ShellMode::Quoted(q),
        shell_pieces(seq![q] + s) == seq![s],
    decreases s.len(),
{
    let none = Seq::<char>::empty();
    let all = seq![q] + s;
    if s.len() == 0 {
        assert(all.drop_last() =~= none);
        assert(all =~= seq![q]);
        assert(shell_pieces(none) =~= seq![none]);
        assert(shell_mode(none) == ShellMode::Plain);
        assert(all.last() == q);
        assert(s =~= none);
    } else {
        let init = s.drop_last();
        assert forall|i: int| 0 <= i < init.len() implies #[trigger] init[i] != q && init[i]
            != '\\' by {
            assert(init[i] == s[i]);
        }
        lemma_in_quotes(q, init);
        assert(all.drop_last() =~= seq![q] + init);
        assert(all.last() == s[s.len() - 1]);
        assert(seq![init].drop_last().push(init.push(s.last())) =~= seq![s]) by {
            assert(init.push(s.last()) =~= s);
        }
    }
}

/// Quotes keep a word together: what stands between them is one word, blanks and
/// all. Quotes that are not closed are an error.
pub proof fn law_quotes_keep_words_together(q: char, s: Seq<char>)
    requires
        q == '"' || q == '\'',
        s.len() > 0,
        forall|i: int| 0 <= i < s.len() ==> #[trigger] s[i] != q && s[i] != '\\',
    ensures
        words_of(seq![q] + s + seq![q]) == Ok::<Seq<Seq<char>>, ShellWordsError>(seq![s]),
        words_of(seq![q] + s) == Err::<Seq<Seq<char>>, ShellWordsError>(
            ShellWordsError::Unterminated,
        ),
        words_of(seq![]) == Err::<Seq<Seq<char>>, ShellWordsError>(ShellWordsError::Empty),
{
    let all = seq![q] + s + seq![q];
    lemma_in_quotes(q, s);
    assert(all.drop_last() =~= seq![q] + s);
    assert(shell_pieces(all) == seq![s]);
    assert(seq![s].drop_last() =~= seq![]);
    reveal_with_fuel(crate::shell::nonempty, 2);
    assert(crate::shell::nonempty(seq![s]) =~= seq![s]);
    let none = Seq::<char>::empty();
    assert(shell_pieces(none) =~= seq![none]);
    assert(seq![none].drop_last() =~= seq![]);
}

/// A decimal number has no needless zero before it, and its digits stand for it.
pub proof fn law_decimals_have_no_leading_zero(n: nat)
    ensures
        n > 0 ==> decimal(n)[0] != '0',
        n < 10 ==> decimal(n) == seq![digit_char(n)],
        digits_value(decimal(n)) == n,
        forall|i: int| 0 <= i < decimal(n).len() ==> is_digit(#[trigger] decimal(n)[i]),
    decreases n,
{
    lemma_decimal_digits(n);
    if n >= 10 {
        law_decimals_have_no_leading_zero(n / 10);
        lemma_decimal_digits(n / 10);
        assert(decimal(n)[0] == decimal(n / 10)[0]);
    }
}

/// The name of the file at a path is what stands behind its last slash.
pub proof fn law_names_stand_behind_the_last_slash(directory: Seq<char>, name: Seq<char>)
    requires
        name.len() > 0,
        !name.contains('/'),
        name != "."@,
        name != ".."@,
    ensures
        name_of_path(name) == Some(name),
        name_of_path(directory.push('/') + name) == Some(name),
        name_of_path(directory.push('/') + name.push('/')) == Some(name),
{
    let none = Seq::<char>::empty();
    lemma_first_index_props(name, '/');
    assert(split_on(name, '/') =~= seq![name]);
    lemma_split_join(directory, name, '/');
    lemma_split_join(name, none, '/');
    lemma_first_index_props(none, '/');
    assert(split_on(none, '/') =~= seq![none]);
    assert(name.push('/') + none =~= name.push('/'));
    let two = split_on(name.push('/'), '/');
    assert(two =~= seq![name, none]);
    lemma_split_join(directory, name.push('/'), '/');
    let a = split_on(directory, '/') + seq![name];
    assert(a.last() == name);
    let b = split_on(directory, '/') + seq![name, none];
    assert(b.last() == none);
    assert(b.drop_last() =~= a);
    reveal_with_fuel(last_part, 3);
}

/// The extension of a name is what stands behind its last dot; a dot at the start
/// begins none.
pub proof fn law_extensions_stand_behind_the_last_dot(stem: Seq<char>, end: Seq<char>)
    requires
        !end.contains('.'),
    ensures
        stem.len() > 0 ==> extension_of(stem.push('.') + end) == end,
        extension_of(end).len() == 0,
        extension_of(seq!['.'] + end).len() == 0,
{
    lemma_last_dot(stem, end);
    lemma_last_dot(seq![], end);
    lemma_no_dot(end);
    let name = stem.push('.') + end;
    assert(name.skip(stem.len() as int + 1) =~= end);
    assert(Seq::<char>::empty().push('.') + end =~= seq!['.'] + end);
}

proof fn lemma_last_dot(stem: Seq<char>, end: Seq<char>)
    requires
        !end.contains('.'),
    ensures
        last_dot(stem.push('.') + end) == Some(stem.len() as int),
    decreases end.len(),
{
    let name = stem.push('.') + end;
    if end.len() == 0 {
        assert(name =~= stem.push('.'));
    } else {
        let init = end.drop_last();
        assert(!init.contains('.')) by {
            if init.contains('.') {
                let j = choose|j: int| 0 <= j < init.len() && init[j] == '.';
                assert(end[j] == '.');
            }
        }
        lemma_last_dot(stem, init);
        assert(name.drop_last() =~= stem.push('.') + init);
        assert(end.contains(end.last()));
    }
}

proof fn lemma_no_dot(end: Seq<char>)
    requires
        !end.contains('.'),
    ensures
        last_dot(end) is None,
    decreases end.len(),
{
    if end.len() > 0 {
        let init = end.drop_last();
        assert(!init.contains('.')) by {
            if init.contains('.') {
                let j = choose|j: int| 0 <= j < init.len() && init[j] == '.';
                assert(end[j] == '.');
            }
        }
        assert(end.contains(end.last()));
        lemma_no_dot(init);
    }
}

/// The head of a repository names its branch behind `refs/heads/`; a head that
/// names a commit has none. A file in the place of the directory names where it
/// is.
pub proof fn law_heads_name_their_branch(branch: Seq<char>)
    requires
        is_argument(branch),
    ensures
        branch_in("ref: refs/heads/"@ + branch + "\n"@) == Some(branch),
        gitdir_in("gitdir: "@ + branch + "\n"@) == Some(branch),
        branch[0] != 'r' ==> branch_in(branch + "\n"@) is None,
        branch[0] != 'g' ==> gitdir_in(branch + "\n"@) is None,
{
    reveal_strlit("ref: refs/heads/");
    reveal_strlit("ref: ");
    reveal_strlit("refs/heads/");
    reveal_strlit("gitdir: ");
    reveal_strlit("\n");
    let none = Seq::<char>::empty();
    let head = "ref: refs/heads/"@ + branch;
    law_white_space_around_comes_off(none, head, "\n"@);
    assert(none + head + "\n"@ =~= "ref: refs/heads/"@ + branch + "\n"@);
    assert("ref: "@ =~= head.subrange(0, 5));
    let reference = head.skip(5);
    assert("refs/heads/"@ =~= reference.subrange(0, 11));
    assert(reference.skip(11) =~= branch);
    let file = "gitdir: "@ + branch;
    law_white_space_around_comes_off(none, file, "\n"@);
    assert(none + file + "\n"@ =~= "gitdir: "@ + branch + "\n"@);
    assert("gitdir: "@ =~= file.subrange(0, 8));
    assert(file.skip(8) =~= branch);
    law_white_space_around_comes_off(none, branch, none);
    assert(none + branch + none =~= branch);
    law_white_space_around_comes_off(none, branch, "\n"@);
    assert(none + branch + "\n"@ =~= branch + "\n"@);
    if "ref: "@.is_prefix_of(branch) {
        assert(branch.subrange(0, 5)[0] == branch[0]);
    }
    if "gitdir: "@.is_prefix_of(branch) {
        assert(branch.subrange(0, 8)[0] == branch[0]);
    }
}

/// The repository is the one at the nearest place that has an entry for it:
/// places without one are passed over.
pub proof fn law_the_nearest_repository_counts(
    before: Seq<GitEntry<Seq<char>>>,
    rest: Seq<GitEntry<Seq<char>>>,
    directory: Seq<char>,
    from: int,
)
    requires
        forall|i: int| 0 <= i < before.len() ==> (#[trigger] before[i]) is Missing,
        is_argument(directory),
        before.len() < usize::MAX,
        0 <= from <= before.len(),
    ensures
        repository_at(before, from) is None,
        repository_at(before + (seq![GitEntry::Directory] + rest), from) == Some(
            FoundRepository::<Seq<char>> { place: before.len() as usize, directory: None },
        ),
        repository_at(
            before + (seq![GitEntry::File(Some("gitdir: "@ + directory + "\n"@))] + rest),
            from,
        ) == Some(
            FoundRepository { place: before.len() as usize, directory: Some(directory) },
        ),
    decreases before.len() - from,
{
    let a = before + (seq![GitEntry::Directory] + rest);
    let file = GitEntry::File(Some("gitdir: "@ + directory + "\n"@));
    let b = before + (seq![file] + rest);
    law_heads_name_their_branch(directory);
    if from < before.len() {
        assert(a[from] == before[from] && b[from] == before[from]);
        assert(before[from] is Missing);
        law_the_nearest_repository_counts(before, rest, directory, from + 1);
    } else {
        assert(a[from] == GitEntry::<Seq<char>>::Directory);
        assert(b[from] == file);
    }
}

/// Behind a path, a step to a name and back leads nowhere, and a step to the
/// directory itself neither. There is no step back from the root, which begins a
/// path anew unless a prefix stands before it.
pub proof fn law_steps_back_undo_steps(
    parts: Seq<PathComponent<Seq<char>>>,
    name: Seq<char>,
)
    ensures
        normalized(parts.push(PathComponent::Normal(name)).push(PathComponent::Parent))
            == normalized(parts),
        normalized(parts.push(PathComponent::Current)) == normalized(parts),
        normalized(parts.push(PathComponent::Normal(name))) == normalized(parts).push(
            PathComponent::Normal(name),
        ),
        normalized(parts.push(PathComponent::Prefix(name))) == seq![
            PathComponent::<Seq<char>>::Prefix(name),
        ],
        normalized(parts.push(PathComponent::Prefix(name)).push(PathComponent::Root)) == seq![
            PathComponent::Prefix(name),
            PathComponent::<Seq<char>>::Root,
        ],
        normalized(parts.push(PathComponent::Normal(name)).push(PathComponent::Root)) == seq![
            PathComponent::<Seq<char>>::Root,
        ],
        normalized(seq![PathComponent::<Seq<char>>::Root]) == seq![
            PathComponent::<Seq<char>>::Root,
        ],
        normalized(seq![PathComponent::<Seq<char>>::Root, PathComponent::Parent]) == seq![
            PathComponent::<Seq<char>>::Root,
        ],
        normalized(seq![PathComponent::<Seq<char>>::Parent]).len() == 0,
{
    let prefix = parts.push(PathComponent::Prefix(name));
    assert(prefix.drop_last() =~= parts);
    assert(prefix.push(PathComponent::Root).drop_last() =~= prefix);
    assert(seq![PathComponent::Prefix(name)].push(PathComponent::Root) =~= seq![
        PathComponent::Prefix(name),
        PathComponent::<Seq<char>>::Root,
    ]);
    assert(parts.push(PathComponent::Normal(name)).push(PathComponent::Root).drop_last()
        =~= parts.push(PathComponent::Normal(name)));
    assert(seq![PathComponent::<Seq<char>>::Parent].drop_last() =~= seq![]);
    let one = parts.push(PathComponent::Normal(name));
    let two = one.push(PathComponent::Parent);
    assert(one.drop_last() =~= parts);
    assert(two.drop_last() =~= one);
    assert(parts.push(PathComponent::Current).drop_last() =~= parts);
    assert(normalized(parts).push(PathComponent::Normal(name)).drop_last() =~= normalized(parts));
    let root = seq![PathComponent::<Seq<char>>::Root, PathComponent::Parent];
    assert(root.drop_last() =~= seq![PathComponent::<Seq<char>>::Root]);
    assert(seq![PathComponent::<Seq<char>>::Root].drop_last() =~= seq![]);
    reveal_with_fuel(normalized, 3);
}

/// The history keeps the lines that are not blank, in order, without white space
/// around them.
pub proof fn law_history_keeps_the_lines(a: Seq<Seq<char>>, row: Seq<char>)
    ensures
        trimmed(row).len() == 0 ==> history_entries(a.push(row)) == history_entries(a),
        trimmed(row).len() > 0 ==> history_entries(a.push(row)) == history_entries(a).push(
            trimmed(row),
        ),
        history_entries(seq![]).len() == 0,
{
    assert(a.push(row).drop_last() =~= a);
}

/// A line of the status keeps its text: it is only wrapped in a colour. What was
/// deleted is red, what is new is green, and the line about the branch is
/// subdued.
pub proof fn law_status_lines_keep_their_text(x: char, y: char, rest: Seq<char>)
    requires
        x <= '\u{7f}',
    ensures
        ({
            let line = seq![x, y] + rest;
            let red = "\x1b[38;2;255;170;170m"@ + line + "\x1b[39m"@;
            let green = "\x1b[38;2;170;255;170m"@ + line + "\x1b[39m"@;
            &&& x != '#' && (x == 'D' || y == 'D') ==> colored_line(line) == red
            &&& x != '#' && x != 'D' && y != 'D' && (x == 'A' || x == '?') ==> colored_line(line)
                == green
            &&& x != '#' && x != 'D' && y != 'D' && x != 'A' && x != '?' ==> colored_line(line)
                == line
        }),
        colored_line("## "@ + rest) == "\x1b[38;2;180;190;205m"@ + ("## "@ + rest) + "\x1b[39m"@,
{
    reveal_strlit("## ");
    reveal_strlit("");
    reveal_strlit("\x1b[38;2;255;170;170m");
    reveal_strlit("\x1b[38;2;170;255;170m");
    let line = seq![x, y] + rest;
    if "## "@.is_prefix_of(line) {
        assert(line.subrange(0, 3)[0] == line[0]);
    }
    assert("## "@ =~= ("## "@ + rest).subrange(0, 3));
}

/// A number may have a plus sign before it; what has anything but digits in it,
/// or none, is no number.
pub proof fn law_numbers_are_digits(s: Seq<char>, n: u64, i: int)
    ensures
        number_in(decimal(n as nat)) == Some(n),
        number_in(seq!['+'] + decimal(n as nat)) == Some(n),
        number_in(seq![]) is None,
        0 <= i < s.len() && !('0' <= s[i] <= '9') && (i > 0 || s[i] != '+') ==> number_in(s) is None,
        s.len() > 0 && (forall|k: int| 0 <= k < s.len() ==> '0' <= #[trigger] s[k] <= '9')
            && digits_value(s) > u64::MAX ==> number_in(s) is None,
{
    let d = decimal(n as nat);
    lemma_decimal_digits(n as nat);
    assert(is_digit(d[0]));
    assert((seq!['+'] + d).skip(1) =~= d);
    assert((seq!['+'] + d).drop_first() =~= d);
    if 0 <= i < s.len() && !('0' <= s[i] <= '9') && (i > 0 || s[i] != '+') {
        let body = without_plus(s);
        if body.len() == s.len() {
            assert(body[i] == s[i]);
        } else if i > 0 {
            assert(body[i - 1] == s[i]);
        }
        assert(!is_digit(s[i]));
    }
}

/// Paths are written with slashes: each backslash becomes one, and nothing else
/// changes.
pub proof fn law_backslashes_become_slashes(s: Seq<char>, i: int)
    requires
        0 <= i < s.len(),
    ensures
        with_slashes(s).len() == s.len(),
        s[i] == '\\' ==> with_slashes(s)[i] == '/',
        s[i] != '\\' ==> with_slashes(s)[i] == s[i],
{
}

proof fn lemma_line_end(row: Seq<u8>, rest: Seq<u8>)
    requires
        !row.contains(10u8),
    ensures
        line_end(row) == row.len(),
        line_end(row + (seq![10u8] + rest)) == row.len(),
    decreases row.len(),
{
    let all = row + (seq![10u8] + rest);
    if row.len() == 0 {
        assert(all[0] == 10u8);
    } else {
        let tail = row.drop_first();
        assert(!tail.contains(10u8)) by {
            if tail.contains(10u8) {
                let j = choose|j: int| 0 <= j < tail.len() && tail[j] == 10u8;
                assert(row[j + 1] == 10u8);
            }
        }
        assert(row.contains(row[0]));
        lemma_line_end(tail, rest);
        assert(all.drop_first() =~= tail + (seq![10u8] + rest));
        assert(all[0] == row[0]);
    }
}

/// The rules of a file are its lines. The bytes of a line are its text, without
/// a carriage return at its end; the lines behind one that is no text do not
/// count.
pub proof fn law_rules_are_lines(row: Seq<u8>, rest: Seq<u8>)
    requires
        !row.contains(10u8),
        row.len() == 0 || row.last() != 13u8,
    ensures
        rules_in(seq![], false).len() == 0,
        valid_utf8(row) ==> {
            &&& rules_in(row + (seq![10u8] + rest), false) == seq![decode_utf8(row)] + rules_in(
                rest,
                false,
            )
            &&& rules_in(row + (seq![13u8, 10u8] + rest), false) == seq![decode_utf8(row)]
                + rules_in(rest, false)
            &&& row.len() > 0 ==> rules_in(row, false) == seq![decode_utf8(row)]
        },
        !valid_utf8(row) ==> rules_in(row + (seq![10u8] + rest), false).len() == 0,
{
    let all = row + (seq![10u8] + rest);
    lemma_line_end(row, rest);
    assert(all.take(row.len() as int) =~= row);
    assert(all.skip(row.len() as int + 1) =~= rest);
    assert(row.take(row.len() as int) =~= row);
    let long = row.push(13u8);
    assert(!long.contains(10u8)) by {
        if long.contains(10u8) {
            let j = choose|j: int| 0 <= j < long.len() && long[j] == 10u8;
            assert(row[j] == 10u8);
        }
    }
    lemma_line_end(long, rest);
    let other = row + (seq![13u8, 10u8] + rest);
    assert(long + (seq![10u8] + rest) =~= other);
    assert(other.take(long.len() as int) =~= long);
    assert(long.take(row.len() as int) =~= row);
    assert(other.skip(long.len() as int + 1) =~= rest);
}

/// Byte order marks at the start of a file are no part of its first rule.
pub proof fn law_rules_begin_behind_the_marks(row: Seq<u8>, rest: Seq<u8>, text: Seq<char>)
    requires
        !row.contains(10u8),
        row.len() == 0 || row.last() != 13u8,
        valid_utf8(row),
        text.len() == 0 || text[0] != '\u{feff}',
        decode_utf8(row) == text || decode_utf8(row) == seq!['\u{feff}'] + text,
    ensures
        rules_in(row + (seq![10u8] + rest), true) == seq![text] + rules_in(rest, false),
{
    let all = row + (seq![10u8] + rest);
    lemma_line_end(row, rest);
    assert(all.take(row.len() as int) =~= row);
    assert(all.skip(row.len() as int + 1) =~= rest);
    assert((seq!['\u{feff}'] + text).drop_first() =~= text);
    reveal_with_fuel(without_marks, 2);
}

/// The rules of the workspace come behind those of the repository, so that they
/// count more.
pub proof fn law_rules_of_the_workspace_come_last(root: Seq<u8>, workspace: Seq<u8>)
    ensures
        workspace_rules(Some(root), Some(workspace)) == rules_in(root, true) + rules_in(
            workspace,
            true,
        ),
        workspace_rules(Some(root), None) == rules_in(root, true),
        workspace_rules(None, Some(workspace)) == rules_in(workspace, true),
        workspace_rules(None, None).len() == 0,
{
    let none = Seq::<Seq<char>>::empty();
    assert(rules_in(root, true) + none =~= rules_in(root, true));
    assert(none + rules_in(workspace, true) =~= rules_in(workspace, true));
}

/// Only paths below the directory of the rules can be ignored.
pub proof fn law_rules_hold_for_relative_paths(path: Seq<char>)
    ensures
        path.len() > 0 && path[0] == '/' ==> !is_relative(path),
        path.len() > 0 && path[0] != '/' && path[0] != '.' ==> is_relative(path),
        path.len() > 1 && path[0] == '.' && path[1] != '/' ==> is_relative(path),
        is_relative(seq!['.', '/'] + path) <==> path.len() == 0 || path[0] != '/',
{
    assert((seq!['.', '/'] + path).skip(2) =~= path);
}

/// Slashes at the end of a path come off, all of them.
pub proof fn law_final_slashes_come_off(s: Seq<char>)
    ensures
        without_final_slashes(s.push('/')) == without_final_slashes(s),
        s.len() > 0 && s.last() != '/' ==> without_final_slashes(s) == s,
        without_final_slashes(seq![]).len() == 0,
{
    assert(s.push('/').drop_last() =~= s);
}

/// The syntax of a file is the one that its name tells; where it tells none, the
/// one that its extension tells, then the one that its first line tells, and
/// else the one without colours.
pub proof fn law_syntaxes_are_told_by_names_first(
    definitions: Seq<Seq<char>>,
    directory: Seq<char>,
    stem: Seq<char>,
    end: Seq<char>,
    content: Seq<char>,
)
    requires
        stem.len() > 0,
        !stem.contains('/') && !end.contains('/') && !end.contains('.'),
        end.len() > 0,
    ensures
        ({
            let name = stem.push('.') + end;
            let path = directory.push('/') + name;
            let found = file_syntax(definitions, path, content);
            let by_name = syntax_for_extension(definitions, name);
            let by_extension = syntax_for_extension(definitions, end);
            let rows = lines_with_endings(content);
            let first = if rows.len() == 0 { seq![] } else { rows[0] };
            let by_line = syntax_for_first_line(definitions, first);
            &&& (by_name matches Some(i) ==> found == i)
            &&& (by_name is None ==> (by_extension matches Some(i) ==> found == i))
            &&& (by_name is None && by_extension is None ==> (by_line matches Some(i) ==> found
                == i))
            &&& (by_name is None && by_extension is None && by_line is None ==> Some(found)
                == plain_syntax(definitions) || plain_syntax(definitions) is None)
        }),
{
    let name = stem.push('.') + end;
    assert(!name.contains('/')) by {
        if name.contains('/') {
            let j = choose|j: int| 0 <= j < name.len() && name[j] == '/';
            if j < stem.len() {
                assert(stem[j] == '/');
            } else if j > stem.len() {
                assert(end[j - stem.len() - 1] == '/');
            }
        }
    }
    reveal_strlit(".");
    reveal_strlit("..");
    assert(name.len() > 1);
    assert(name[stem.len() as int + 1] == end[0]);
    if name == ".."@ {
        assert(end[0] == '.');
        assert(end.contains('.'));
    }
    law_names_stand_behind_the_last_slash(directory, name);
    law_extensions_stand_behind_the_last_dot(stem, end);
}

/// A colour that is opaque is shown as it is, one that is transparent as what is
/// behind it, and any other as one between the two.
pub proof fn law_colours_are_blended(front: u8, back: u8, opacity: u8)
    ensures
        blended(front, back, 255) == front,
        blended(front, back, 0) == back,
        front <= back ==> front <= blended(front, back, opacity) <= back,
        back <= front ==> back <= blended(front, back, opacity) <= front,
        blended(front, front, opacity) == front,
{
    let f = front as int;
    let b = back as int;
    let o = opacity as int;
    lemma_between(f, b, o);
    lemma_between(b, f, 255 - o);
    lemma_between(f, f, o);
    lemma_between(f, b, 0);
}

proof fn lemma_between(f: int, b: int, o: int)
    requires
        0 <= f <= 255,
        0 <= b <= 255,
        0 <= o <= 255,
    ensures
        f <= b ==> f <= (f * o + b * (255 - o)) / 255 <= b,
        b <= f ==> b <= (f * o + b * (255 - o)) / 255 <= f,
{
    let v = f * o + b * (255 - o);
    if f <= b {
        assert(f * 255 <= v <= b * 255) by (nonlinear_arith)
            requires
                f <= b,
                0 <= o <= 255,
                v == f * o + b * (255 - o),
        ;
    } else {
        assert(b * 255 <= v <= f * 255) by (nonlinear_arith)
            requires
                b <= f,
                0 <= o <= 255,
                v == f * o + b * (255 - o),
        ;
    }
    assert(f <= b ==> f <= v / 255 <= b);
    assert(b <= f ==> b <= v / 255 <= f);
}

/// The language of a code block is looked for among the names of the syntaxes
/// and then among their extensions, without white space around it; a block
/// without one has no syntax.
pub proof fn law_languages_are_found_by_their_names(
    definitions: Seq<Seq<char>>,
    before: Seq<char>,
    name: Seq<char>,
    behind: Seq<char>,
)
    requires
        is_argument(name),
        forall|i: int| 0 <= i < before.len() ==> whitespace(#[trigger] before[i]),
        forall|i: int| 0 <= i < behind.len() ==> whitespace(#[trigger] behind[i]),
    ensures
        ({
            let found = language_syntax(definitions, Some(before + name + behind));
            let by_name = syntax_for_token(definitions, name);
            &&& by_name is Some ==> found == by_name
            &&& by_name is None ==> found == syntax_for_extension(definitions, name)
        }),
        language_syntax(definitions, None) is None,
        language_syntax(definitions, Some(seq![])) is None,
{
    law_white_space_around_comes_off(before, name, behind);
}

} // verus!
