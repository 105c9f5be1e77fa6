//! Letters in either case: commands in plain words do not depend on it.
use vstd::prelude::*;
use vstd::string::*;

use crate::command::{
    argument, begins_ci, branch_phrase, closing_phrase, commit_phrase, file_phrase, file_to_open,
    file_to_show, files_to_move, information_phrase, message_after, model_name, named_argument,
    natural_command, number_after, open_file_target, pull_number, repository_phrase,
    show_file_arguments, show_file_phrase, show_file_request, show_file_target, switch_target,
    two_words, two_words_after, worktree_phrase, LocalCommand, ShowFileOptions,
};
use crate::number::{all_digits, number_in, without_plus};
use crate::shell::{
    escaped, needs_quotes, nonempty, plain_argument, quoted, shell_mode, shell_pieces, unquoted,
    ShellMode,
};
use crate::text::{
    ascii_lower, before_suffix_ci, no_whitespace, same_ignoring_case, trimmed, trimmed_end,
    trimmed_start, whitespace,
};

verus! {

/// A text with its ASCII letters in lower case.
pub open spec fn lowered(s: Seq<char>) -> Seq<char> {
    s.map_values(|c: char| ascii_lower(c))
}

/// An optional text in lower case.
pub open spec fn opt_lowered(o: Option<Seq<char>>) -> Option<Seq<char>> {
    match o {
        Some(s) => Some(lowered(s)),
        None => None,
    }
}

/// Two optional texts in lower case.
pub open spec fn pair_lowered(o: Option<(Seq<char>, Seq<char>)>) -> Option<
    (Seq<char>, Seq<char>),
> {
    match o {
        Some((s, t)) => Some((lowered(s), lowered(t))),
        None => None,
    }
}

/// A command with its arguments in lower case.
pub open spec fn lowered_command(command: LocalCommand<Seq<char>>) -> LocalCommand<Seq<char>> {
    match command {
        LocalCommand::ConnectTo(s) => LocalCommand::ConnectTo(lowered(s)),
        LocalCommand::ShowFile(s) => LocalCommand::ShowFile(lowered(s)),
        LocalCommand::SetModel(s) => LocalCommand::SetModel(lowered(s)),
        LocalCommand::Merge(o) => LocalCommand::Merge(opt_lowered(o)),
        LocalCommand::Checkout(o) => LocalCommand::Checkout(opt_lowered(o)),
        LocalCommand::AddFile(o) => LocalCommand::AddFile(opt_lowered(o)),
        LocalCommand::RemoveFile(o) => LocalCommand::RemoveFile(opt_lowered(o)),
        LocalCommand::MoveFile(o) => LocalCommand::MoveFile(pair_lowered(o)),
        LocalCommand::CherryPick(o) => LocalCommand::CherryPick(opt_lowered(o)),
        LocalCommand::Commit(o) => LocalCommand::Commit(opt_lowered(o)),
        LocalCommand::DeleteBranch(o) => LocalCommand::DeleteBranch(opt_lowered(o)),
        LocalCommand::OpenFile(s) => LocalCommand::OpenFile(lowered(s)),
        other => other,
    }
}

/// An optional command with its arguments in lower case.
pub open spec fn opt_lowered_command(o: Option<LocalCommand<Seq<char>>>) -> Option<
    LocalCommand<Seq<char>>,
> {
    match o {
        Some(command) => Some(lowered_command(command)),
        None => None,
    }
}

/// Whether a character is neither a letter nor changed by lower case.
spec fn uncased(c: char) -> bool {
    !('A' <= c <= 'Z') && !('a' <= c <= 'z')
}

proof fn lemma_lower(c: char)
    ensures
        uncased(c) ==> ascii_lower(c) == c,
        !uncased(c) ==> 'a' <= ascii_lower(c) <= 'z',
        ascii_lower(ascii_lower(c)) == ascii_lower(c),
        whitespace(ascii_lower(c)) == whitespace(c),
{
}

proof fn lemma_lower_is(c: char, q: char)
    requires
        uncased(q),
    ensures
        (ascii_lower(c) == q) == (c == q),
{
    lemma_lower(c);
}

proof fn lemma_same_lowered(a: Seq<char>, b: Seq<char>)
    ensures
        same_ignoring_case(a, b) <==> lowered(a) == lowered(b),
{
    if same_ignoring_case(a, b) {
        assert(lowered(a) =~= lowered(b));
    }
    if lowered(a) == lowered(b) {
        assert(lowered(a).len() == a.len());
        assert forall|i: int| 0 <= i < a.len() implies ascii_lower(#[trigger] a[i]) == ascii_lower(
            b[i],
        ) by {
            assert(lowered(a)[i] == lowered(b)[i]);
        }
    }
}

proof fn lemma_lowered_twice(s: Seq<char>)
    ensures
        lowered(lowered(s)) == lowered(s),
{
    assert forall|i: int| 0 <= i < s.len() implies lowered(lowered(s))[i] == lowered(s)[i] by {
        lemma_lower(s[i]);
    }
    assert(lowered(lowered(s)) =~= lowered(s));
}

proof fn lemma_same_word(s: Seq<char>, word: Seq<char>)
    ensures
        same_ignoring_case(lowered(s), word) == same_ignoring_case(s, word),
{
    lemma_lowered_twice(s);
    lemma_same_lowered(lowered(s), word);
    lemma_same_lowered(s, word);
}

proof fn lemma_begins(s: Seq<char>, prefix: Seq<char>)
    ensures
        begins_ci(lowered(s), prefix) == begins_ci(s, prefix),
{
    let k = prefix.len() as int;
    if k <= s.len() {
        assert(lowered(s).take(k) =~= lowered(s.take(k)));
        lemma_same_word(s.take(k), prefix);
    }
}

proof fn lemma_trimmed_start(s: Seq<char>)
    ensures
        trimmed_start(lowered(s)) == lowered(trimmed_start(s)),
    decreases s.len(),
{
    if s.len() > 0 {
        lemma_lower(s[0]);
        if whitespace(s[0]) {
            assert(lowered(s).drop_first() =~= lowered(s.drop_first()));
            lemma_trimmed_start(s.drop_first());
        }
    }
}

proof fn lemma_trimmed_end(s: Seq<char>)
    ensures
        trimmed_end(lowered(s)) == lowered(trimmed_end(s)),
    decreases s.len(),
{
    if s.len() > 0 {
        lemma_lower(s.last());
        if whitespace(s.last()) {
            assert(lowered(s).drop_last() =~= lowered(s.drop_last()));
            lemma_trimmed_end(s.drop_last());
        }
    }
}

proof fn lemma_trimmed(s: Seq<char>)
    ensures
        trimmed(lowered(s)) == lowered(trimmed(s)),
{
    lemma_trimmed_start(s);
    lemma_trimmed_end(trimmed_start(s));
}

proof fn lemma_argument(s: Seq<char>, prefix: Seq<char>)
    ensures
        begins_ci(lowered(s), prefix) == begins_ci(s, prefix),
        begins_ci(s, prefix) ==> argument(lowered(s), prefix) == lowered(argument(s, prefix)),
{
    lemma_begins(s, prefix);
    if begins_ci(s, prefix) {
        let k = prefix.len() as int;
        assert(lowered(s).skip(k) =~= lowered(s.skip(k)));
        lemma_trimmed(s.skip(k));
    }
}

proof fn lemma_before_suffix(s: Seq<char>, suffix: Seq<char>)
    ensures
        before_suffix_ci(lowered(s), suffix) == opt_lowered(before_suffix_ci(s, suffix)),
{
    if suffix.len() <= s.len() {
        let k = s.len() - suffix.len();
        assert(lowered(s).skip(k) =~= lowered(s.skip(k)));
        assert(lowered(s).take(k) =~= lowered(s.take(k)));
        lemma_same_word(s.skip(k), suffix);
    }
}

proof fn lemma_unquoted(s: Seq<char>)
    ensures
        unquoted(lowered(s)) == lowered(unquoted(s)),
{
    if s.len() >= 2 {
        lemma_lower_is(s[0], '"');
        lemma_lower_is(s[0], '\'');
        lemma_lower_is(s.last(), '"');
        lemma_lower_is(s.last(), '\'');
        assert(lowered(s).subrange(1, s.len() - 1) =~= lowered(s.subrange(1, s.len() - 1)));
    }
}

proof fn lemma_shell(s: Seq<char>)
    ensures
        shell_mode(lowered(s)) == shell_mode(s),
        shell_mode(s) matches ShellMode::Quoted(q) ==> q == '"' || q == '\'',
        shell_pieces(lowered(s)) == shell_pieces(s).map_values(|p: Seq<char>| lowered(p)),
        shell_pieces(s).len() > 0,
    decreases s.len(),
{
    let f = |p: Seq<char>| lowered(p);
    if s.len() == 0 {
        assert(lowered(s) =~= s);
        assert(lowered(Seq::<char>::empty()) =~= Seq::<char>::empty());
        assert(shell_pieces(s).map_values(f) =~= seq![Seq::<char>::empty()]);
    } else {
        let init = s.drop_last();
        let c = s.last();
        assert(lowered(s).drop_last() =~= lowered(init));
        assert(lowered(s).last() == ascii_lower(c));
        lemma_shell(init);
        lemma_lower(c);
        lemma_lower_is(c, '"');
        lemma_lower_is(c, '\'');
        lemma_lower_is(c, '\\');
        let pieces = shell_pieces(init);
        let last = pieces.last();
        assert(lowered(last.push(c)) =~= lowered(last).push(ascii_lower(c)));
        assert(pieces.drop_last().push(last.push(c)).map_values(f) =~= pieces.map_values(
            f,
        ).drop_last().push(lowered(last).push(ascii_lower(c))));
        assert(lowered(Seq::<char>::empty()) =~= Seq::<char>::empty());
        assert(pieces.push(Seq::empty()).map_values(f) =~= pieces.map_values(f).push(
            Seq::empty(),
        ));
        assert(pieces.map_values(f).last() == lowered(last));
    }
}

proof fn lemma_nonempty(pieces: Seq<Seq<char>>)
    ensures
        nonempty(pieces.map_values(|p: Seq<char>| lowered(p))) == nonempty(pieces).map_values(
            |p: Seq<char>| lowered(p),
        ),
    decreases pieces.len(),
{
    let f = |p: Seq<char>| lowered(p);
    if pieces.len() > 0 {
        let init = pieces.drop_last();
        assert(pieces.map_values(f).drop_last() =~= init.map_values(f));
        lemma_nonempty(init);
        assert(lowered(pieces.last()).len() == pieces.last().len());
        assert(nonempty(init).push(pieces.last()).map_values(f) =~= nonempty(init).map_values(
            f,
        ).push(lowered(pieces.last())));
    } else {
        assert(pieces.map_values(f) =~= pieces);
    }
}

proof fn lemma_two_words(s: Seq<char>)
    ensures
        two_words(lowered(s)) == pair_lowered(two_words(s)),
{
    lemma_shell(s);
    lemma_nonempty(shell_pieces(s));
}

proof fn lemma_plain(s: Seq<char>)
    ensures
        no_whitespace(lowered(s)) == no_whitespace(s),
        plain_argument(lowered(s)) == plain_argument(s),
{
    assert forall|i: int| 0 <= i < s.len() implies whitespace(#[trigger] lowered(s)[i])
        == whitespace(s[i]) && needs_quotes(lowered(s)[i])
        == needs_quotes(s[i]) by {
        lemma_lower(s[i]);
        lemma_lower_is(s[i], '"');
        lemma_lower_is(s[i], '\'');
        lemma_lower_is(s[i], '\\');
        lemma_lower_is(s[i], '$');
        lemma_lower_is(s[i], '`');
    }
    if no_whitespace(lowered(s)) {
        assert forall|i: int| 0 <= i < s.len() implies !whitespace(#[trigger] s[i]) by {
            assert(!whitespace(lowered(s)[i]));
        }
    }
    if plain_argument(lowered(s)) {
        assert forall|i: int| 0 <= i < s.len() implies !needs_quotes(
            #[trigger] s[i],
        ) by {
            assert(!needs_quotes(lowered(s)[i]));
        }
    }
}

proof fn lemma_escaped(s: Seq<char>)
    ensures
        escaped(lowered(s)) == lowered(escaped(s)),
    decreases s.len(),
{
    if s.len() > 0 {
        let c = s.last();
        let init = s.drop_last();
        lemma_lower_is(c, '"');
        lemma_lower_is(c, '\\');
        lemma_lower_is(c, '$');
        lemma_lower_is(c, '`');
        assert(lowered(s).drop_last() =~= lowered(init));
        lemma_escaped(init);
        lemma_lower('\\');
        assert(lowered(escaped(init).push('\\').push(c)) =~= lowered(escaped(init)).push(
            '\\',
        ).push(ascii_lower(c)));
        assert(lowered(escaped(init).push(c)) =~= lowered(escaped(init)).push(ascii_lower(c)));
    } else {
        assert(lowered(s) =~= s);
        assert(lowered(escaped(s)) =~= escaped(s));
    }
}

proof fn lemma_quoted(s: Seq<char>)
    ensures
        quoted(lowered(s)) == lowered(quoted(s)),
{
    lemma_plain(s);
    lemma_escaped(s);
    lemma_lower('"');
    assert(lowered(seq!['"'] + escaped(s) + seq!['"']) =~= seq!['"'] + lowered(escaped(s)) + seq![
        '"',
    ]);
}

proof fn lemma_number(s: Seq<char>)
    ensures
        number_in(lowered(s)) == number_in(s),
{
    if s.len() > 0 {
        lemma_lower_is(s[0], '+');
    }
    let body = without_plus(s);
    assert(without_plus(lowered(s)) =~= lowered(body));
    if all_digits(body) {
        assert(lowered(body) =~= body) by {
            assert forall|i: int| 0 <= i < body.len() implies lowered(body)[i] == body[i] by {
                lemma_lower(body[i]);
            }
        }
    } else if all_digits(lowered(body)) {
        assert forall|i: int| 0 <= i < body.len() implies '0' <= #[trigger] body[i] <= '9' by {
            lemma_lower(body[i]);
            assert('0' <= lowered(body)[i] <= '9');
        }
    }
}

proof fn lemma_named(s: Seq<char>, phrase: Seq<char>)
    ensures
        named_argument(lowered(s), phrase) == opt_lowered(named_argument(s, phrase)),
{
    lemma_argument(s, phrase);
    assert(lowered(argument(s, phrase)).len() == argument(s, phrase).len());
}

proof fn lemma_message(s: Seq<char>, phrase: Seq<char>)
    ensures
        message_after(lowered(s), phrase) == opt_lowered(message_after(s, phrase)),
{
    lemma_argument(s, phrase);
    lemma_unquoted(argument(s, phrase));
    assert(lowered(unquoted(argument(s, phrase))).len() == unquoted(argument(s, phrase)).len());
}

proof fn lemma_open(s: Seq<char>, phrase: Seq<char>)
    ensures
        open_file_target(lowered(s), phrase) == opt_lowered(open_file_target(s, phrase)),
{
    lemma_argument(s, phrase);
    lemma_unquoted(argument(s, phrase));
    assert(lowered(argument(s, phrase)).len() == argument(s, phrase).len());
}

proof fn lemma_number_after(s: Seq<char>, phrase: Seq<char>)
    ensures
        number_after(lowered(s), phrase) == number_after(s, phrase),
{
    lemma_argument(s, phrase);
    lemma_number(argument(s, phrase));
}

proof fn lemma_two_after(s: Seq<char>, phrase: Seq<char>)
    ensures
        two_words_after(lowered(s), phrase) == pair_lowered(two_words_after(s, phrase)),
{
    lemma_argument(s, phrase);
    lemma_two_words(argument(s, phrase));
}

proof fn lemma_target(path: Seq<char>, single_word: bool)
    ensures
        show_file_target(lowered(path), single_word) == opt_lowered(
            show_file_target(path, single_word),
        ),
{
    lemma_plain(path);
    lemma_unquoted(path);
    if path.len() > 0 {
        lemma_lower_is(path[0], '"');
        lemma_lower_is(path[0], '\'');
    }
}

proof fn lemma_request(raw: Seq<char>, single_word: bool)
    ensures
        show_file_request(lowered(raw), single_word) == (match show_file_request(raw, single_word) {
            Some((path, options)) => Some((lowered(path), options)),
            None => None,
        }),
{
    lemma_before_suffix(raw, " with hash and author"@);
    lemma_before_suffix(raw, " with author and hash"@);
    lemma_before_suffix(raw, " with hash"@);
    lemma_before_suffix(raw, " with author"@);
    assert forall|p: Seq<char>| #[trigger] trimmed(lowered(p)) == lowered(trimmed(p)) by {
        lemma_trimmed(p);
    }
    assert forall|p: Seq<char>| #[trigger]
        show_file_target(lowered(p), single_word) == opt_lowered(
            show_file_target(p, single_word),
        ) by {
        lemma_target(p, single_word);
    }
}

proof fn lemma_arguments(path: Seq<char>, options: ShowFileOptions)
    ensures
        show_file_arguments(lowered(path), options) == lowered(show_file_arguments(path, options)),
{
    lemma_quoted(path);
    reveal_strlit("--hash ");
    reveal_strlit("--author ");
    let head = (if options.show_hash { "--hash "@ } else { Seq::empty() }) + (
    if options.show_author { "--author "@ } else { Seq::empty() });
    assert(lowered(head) =~= head) by {
        assert forall|i: int| 0 <= i < head.len() implies lowered(head)[i] == head[i] by {
            lemma_lower(head[i]);
        }
    }
    assert(lowered(head + quoted(path)) =~= lowered(head) + lowered(quoted(path)));
}

proof fn lemma_show(s: Seq<char>, prefix: Seq<char>, single_word: bool)
    ensures
        show_file_phrase(lowered(s), prefix, single_word) == opt_lowered(
            show_file_phrase(s, prefix, single_word),
        ),
{
    lemma_argument(s, prefix);
    if begins_ci(s, prefix) {
        let raw = argument(s, prefix);
        lemma_request(raw, single_word);
        if let Some((path, options)) = show_file_request(raw, single_word) {
            lemma_arguments(path, options);
        }
    }
}

proof fn lemma_information(s: Seq<char>)
    ensures
        information_phrase(lowered(s)) == opt_lowered_command(information_phrase(s)),
{
    assert forall|w: Seq<char>| #[trigger]
        same_ignoring_case(lowered(s), w) == same_ignoring_case(s, w) by {
        lemma_same_word(s, w);
    }
    lemma_argument(s, "connect to "@);
}

proof fn lemma_files(s: Seq<char>)
    ensures
        file_phrase(lowered(s)) == opt_lowered_command(file_phrase(s)),
{
    lemma_argument(s, "use model "@);
    lemma_argument(s, "switch model to "@);
    lemma_argument(s, "set model to "@);
    lemma_argument(s, "select model "@);
    assert(model_name(lowered(s)) == opt_lowered(model_name(s)));
    lemma_open(s, "/open_file "@);
    lemma_open(s, "open file "@);
    lemma_open(s, "open "@);
    lemma_open(s, "edit file "@);
    lemma_open(s, "edit "@);
    assert(file_to_open(lowered(s)) == opt_lowered(file_to_open(s)));
    lemma_show(s, "show file "@, false);
    lemma_show(s, "show "@, true);
    assert(file_to_show(lowered(s)) == opt_lowered(file_to_show(s)));
    lemma_number_after(s, "pull pull request "@);
    lemma_number_after(s, "pull request "@);
    lemma_number_after(s, "pull pr "@);
    lemma_number_after(s, "pull #"@);
    lemma_number_after(s, "pull "@);
    assert(pull_number(lowered(s)) == pull_number(s));
}

proof fn lemma_branches(s: Seq<char>)
    ensures
        branch_phrase(lowered(s)) == opt_lowered_command(branch_phrase(s)),
{
    assert forall|w: Seq<char>| #[trigger]
        same_ignoring_case(lowered(s), w) == same_ignoring_case(s, w) by {
        lemma_same_word(s, w);
    }
    lemma_named(s, "git merge "@);
    lemma_named(s, "merge "@);
    lemma_named(s, "git checkout "@);
    lemma_named(s, "checkout "@);
    lemma_argument(s, "switch to "@);
    let target = argument(s, "switch to "@);
    lemma_before_suffix(target, " branch"@);
    if let Some(name) = before_suffix_ci(target, " branch"@) {
        lemma_trimmed(name);
        assert(lowered(trimmed(name)).len() == trimmed(name).len());
    }
    assert(lowered(target).len() == target.len());
    assert(switch_target(lowered(s)) == opt_lowered(switch_target(s)));
}

proof fn lemma_worktree(s: Seq<char>)
    ensures
        worktree_phrase(lowered(s)) == opt_lowered_command(worktree_phrase(s)),
{
    assert forall|w: Seq<char>| #[trigger]
        same_ignoring_case(lowered(s), w) == same_ignoring_case(s, w) by {
        lemma_same_word(s, w);
    }
    lemma_named(s, "git add "@);
    lemma_named(s, "add file "@);
    lemma_named(s, "add "@);
    lemma_named(s, "git rm "@);
    lemma_named(s, "remove file "@);
    lemma_named(s, "remove "@);
    lemma_two_after(s, "git mv "@);
    lemma_two_after(s, "move file "@);
    lemma_two_after(s, "move "@);
    assert(files_to_move(lowered(s)) == pair_lowered(files_to_move(s)));
}

proof fn lemma_commits(s: Seq<char>)
    ensures
        commit_phrase(lowered(s)) == opt_lowered_command(commit_phrase(s)),
{
    assert forall|w: Seq<char>| #[trigger]
        same_ignoring_case(lowered(s), w) == same_ignoring_case(s, w) by {
        lemma_same_word(s, w);
    }
    lemma_named(s, "git cherry-pick "@);
    lemma_named(s, "cherry-pick "@);
    lemma_named(s, "cherry pick "@);
    lemma_message(s, "git commit -a -m "@);
    lemma_message(s, "git commit -m "@);
    lemma_message(s, "commit "@);
}

proof fn lemma_repository(s: Seq<char>)
    ensures
        repository_phrase(lowered(s)) == opt_lowered_command(repository_phrase(s)),
        closing_phrase(lowered(s)) == opt_lowered_command(closing_phrase(s)),
{
    assert forall|w: Seq<char>| #[trigger]
        same_ignoring_case(lowered(s), w) == same_ignoring_case(s, w) by {
        lemma_same_word(s, w);
    }
    lemma_named(s, "git branch -D "@);
    lemma_named(s, "delete branch "@);
    lemma_named(s, "delete "@);
}

/// A phrase in lower case is the same command, with its arguments in lower case.
pub proof fn law_lower_case_is_the_same_command(s: Seq<char>)
    ensures
        natural_command(lowered(s)) == opt_lowered_command(natural_command(s)),
{
    lemma_information(s);
    lemma_files(s);
    lemma_branches(s);
    lemma_worktree(s);
    lemma_commits(s);
    lemma_repository(s);
}

/// The case of letters does not matter in plain words: phrases that differ in
/// nothing else are the same command, and their arguments differ in nothing
/// else.
pub proof fn law_case_does_not_matter(a: Seq<char>, b: Seq<char>)
    requires
        same_ignoring_case(a, b),
    ensures
        opt_lowered_command(natural_command(a)) == opt_lowered_command(natural_command(b)),
{
    lemma_same_lowered(a, b);
    law_lower_case_is_the_same_command(a);
    law_lower_case_is_the_same_command(b);
}

} // verus!
