//! Lists of texts: filtering, and the lists that git prints.
use vstd::prelude::*;
use vstd::string::*;

use crate::bytes::{successful_out, successful_output, RunResult};
use crate::order::{dedup_texts, deduplicated, sort_texts, sorted_texts};
use crate::text::{
    chars_of, ends_with, first_index, lemma_first_index, lemma_texts_push, lines, lines_of,
    starts_with, str_eq, string_of, texts, trim, trimmed,
};

verus! {

/// The entries of a list that begin with `prefix`, in order.
pub open spec fn starting_with(list: Seq<Seq<char>>, prefix: Seq<char>) -> Seq<Seq<char>>
    decreases list.len(),
{
    if list.len() == 0 {
        seq![]
    } else if prefix.is_prefix_of(list.last()) {
        starting_with(list.drop_last(), prefix).push(list.last())
    } else {
        starting_with(list.drop_last(), prefix)
    }
}

/// Keeps the entries that begin with `prefix`.
pub fn keep_starting_with(list: &Vec<String>, prefix: &str) -> (r: Vec<String>)
    ensures
        texts(r@) == starting_with(texts(list@), prefix@),
{
    let mut r: Vec<String> = Vec::new();
    let mut i: usize = 0;
    let ghost all = texts(list@);
    while i < list.len()
        invariant
            i <= list@.len(),
            all == texts(list@),
            texts(r@) == starting_with(all.take(i as int), prefix@),
        decreases list.len() - i,
    {
        let ghost before = r@;
        assert(all.take(i + 1).drop_last() =~= all.take(i as int));
        if starts_with(list[i].as_str(), prefix) {
            let s = list[i].clone();
            r.push(s);
            proof {
                lemma_texts_push(before, s);
            }
        }
        i += 1;
    }
    assert(all.take(list@.len() as int) =~= all);
    r
}

/// Every entry that is kept begins with the prefix and was in the list.
pub proof fn law_kept_entries_extend_the_prefix(list: Seq<Seq<char>>, prefix: Seq<char>, x: Seq<char>)
    ensures
        starting_with(list, prefix).contains(x) <==> list.contains(x) && prefix.is_prefix_of(x),
    decreases list.len(),
{
    if list.len() > 0 {
        let init = list.drop_last();
        law_kept_entries_extend_the_prefix(init, prefix, x);
        assert(list =~= init.push(list.last()));
        let rest = starting_with(init, prefix);
        assert(forall|i: int| 0 <= i < init.len() ==> list[i] == init[i]);
        if list.contains(x) {
            let i = choose|i: int| 0 <= i < list.len() && list[i] == x;
            if i < init.len() {
                assert(init[i] == x);
            }
        }
        if init.contains(x) {
            let i = choose|i: int| 0 <= i < init.len() && init[i] == x;
            assert(list[i] == x);
        }
        if prefix.is_prefix_of(list.last()) {
            let kept = rest.push(list.last());
            if rest.contains(x) {
                let i = choose|i: int| 0 <= i < rest.len() && rest[i] == x;
                assert(kept[i] == x);
            }
            if kept.contains(x) {
                let i = choose|i: int| 0 <= i < kept.len() && kept[i] == x;
                if i < rest.len() {
                    assert(rest[i] == x);
                }
            }
            assert(kept[kept.len() - 1] == list.last());
            if x == list.last() {
                assert(list[list.len() - 1] == x);
            }
        }
    }
}

/// Whether a line of a list of branches names a branch, and not the pointer to
/// the current one.
pub open spec fn names_branch(line: Seq<char>) -> bool {
    line.len() > 0 && line != "HEAD"@ && !"/HEAD"@.is_suffix_of(line)
}

/// The lines of a text without white space around them, as far as `keep_heads`
/// or `names_branch` lets them through.
pub open spec fn listed_names(rows: Seq<Seq<char>>, keep_heads: bool) -> Seq<Seq<char>>
    decreases rows.len(),
{
    if rows.len() == 0 {
        seq![]
    } else {
        let rest = listed_names(rows.drop_last(), keep_heads);
        let name = trimmed(rows.last());
        if name.len() > 0 && (keep_heads || names_branch(name)) {
            rest.push(name)
        } else {
            rest
        }
    }
}

/// The names in a text with one name in a line: sorted, each once.
pub open spec fn names_in(text: Seq<char>, keep_heads: bool) -> Seq<Seq<char>> {
    deduplicated(sorted_texts(listed_names(lines_of(text), keep_heads)))
}

/// Reads the names in a text with one name in a line.
pub fn parse_names(text: &str, keep_heads: bool) -> (r: Vec<String>)
    ensures
        texts(r@) == names_in(text@, keep_heads),
{
    let rows = lines(text);
    let mut names: Vec<String> = Vec::new();
    let mut i: usize = 0;
    let ghost all = texts(rows@);
    while i < rows.len()
        invariant
            i <= rows@.len(),
            all == texts(rows@),
            texts(names@) == listed_names(all.take(i as int), keep_heads),
        decreases rows.len() - i,
    {
        let ghost before = names@;
        assert(all.take(i + 1).drop_last() =~= all.take(i as int));
        let name = trim(rows[i].as_str());
        if !name.is_empty() && (keep_heads || (!str_eq(name, "HEAD") && !ends_with(
            name,
            "/HEAD",
        ))) {
            let s = name.to_string();
            names.push(s);
            proof {
                lemma_texts_push(before, s);
            }
        }
        i += 1;
    }
    assert(all.take(rows@.len() as int) =~= all);
    let sorted = sort_texts(&names);
    dedup_texts(&sorted)
}

/// The names that a command printed, or none where it failed.
pub open spec fn printed_names(run: RunResult, keep_heads: bool) -> Seq<Seq<char>> {
    match successful_out(run) {
        Some(text) => names_in(text, keep_heads),
        None => seq![],
    }
}

fn names_of_run(run: &RunResult, keep_heads: bool) -> (r: Vec<String>)
    ensures
        texts(r@) == printed_names(*run, keep_heads),
{
    match successful_output(run) {
        Some(text) => parse_names(text.as_str(), keep_heads),
        None => {
            let r: Vec<String> = Vec::new();
            assert(texts(r@) =~= seq![]);
            r
        },
    }
}

/// The branches of a repository, local and remote, out of what
/// `git branch --all` printed.
pub fn git_branch_names(run: &RunResult) -> (r: Vec<String>)
    ensures
        texts(r@) == printed_names(*run, false),
{
    names_of_run(run, false)
}

/// The tags of a repository, out of what `git tag` printed.
pub fn git_tag_names(run: &RunResult) -> (r: Vec<String>)
    ensures
        texts(r@) == printed_names(*run, true),
{
    names_of_run(run, true)
}

/// The local branches of a repository, out of what `git branch` printed.
pub fn git_local_branch_names(run: &RunResult) -> (r: Vec<String>)
    ensures
        texts(r@) == printed_names(*run, true),
{
    names_of_run(run, true)
}

/// The lines that begin with a token, are not empty, and end with a slash or
/// not.
pub open spec fn entries_with(rows: Seq<Seq<char>>, token: Seq<char>, slash: bool) -> Seq<Seq<char>>
    decreases rows.len(),
{
    if rows.len() == 0 {
        seq![]
    } else {
        let rest = entries_with(rows.drop_last(), token, slash);
        let row = rows.last();
        if row.len() > 0 && token.is_prefix_of(row) && (row.last() == '/') == slash {
            rest.push(row)
        } else {
            rest
        }
    }
}

/// The untracked entries that begin with a token: directories first, then
/// files, each sorted.
pub open spec fn untracked_in(text: Seq<char>, token: Seq<char>) -> Seq<Seq<char>> {
    sorted_texts(entries_with(lines_of(text), token, true)) + sorted_texts(
        entries_with(lines_of(text), token, false),
    )
}

/// Reads the untracked entries that begin with a token.
pub fn parse_untracked(text: &str, token: &str) -> (r: Vec<String>)
    ensures
        texts(r@) == untracked_in(text@, token@),
{
    let rows = lines(text);
    let mut dirs: Vec<String> = Vec::new();
    let mut files: Vec<String> = Vec::new();
    let mut i: usize = 0;
    let ghost all = texts(rows@);
    while i < rows.len()
        invariant
            i <= rows@.len(),
            all == texts(rows@),
            texts(dirs@) == entries_with(all.take(i as int), token@, true),
            texts(files@) == entries_with(all.take(i as int), token@, false),
        decreases rows.len() - i,
    {
        let ghost dirs_before = dirs@;
        let ghost files_before = files@;
        assert(all.take(i + 1).drop_last() =~= all.take(i as int));
        let row = rows[i].as_str();
        if !row.is_empty() && starts_with(row, token) {
            let n = row.unicode_len();
            let s = row.to_string();
            if row.get_char(n - 1) == '/' {
                dirs.push(s);
                proof {
                    lemma_texts_push(dirs_before, s);
                }
            } else {
                files.push(s);
                proof {
                    lemma_texts_push(files_before, s);
                }
            }
        }
        i += 1;
    }
    assert(all.take(rows@.len() as int) =~= all);
    let mut r = sort_texts(&dirs);
    let mut rest = sort_texts(&files);
    let ghost first = r@;
    let ghost second = rest@;
    r.append(&mut rest);
    assert(texts(r@) =~= texts(first) + texts(second));
    r
}

/// The untracked entries that begin with a token, out of what
/// `git ls-files --others` printed.
pub fn git_untracked_candidates(run: &RunResult, token: &str) -> (r: Vec<String>)
    ensures
        texts(r@) == (match successful_out(*run) {
            Some(text) => untracked_in(text, token@),
            None => seq![],
        }),
{
    match successful_output(run) {
        Some(text) => parse_untracked(text.as_str(), token),
        None => {
            let r: Vec<String> = Vec::new();
            assert(texts(r@) =~= seq![]);
            r
        },
    }
}

/// The next directory below a token on the way to a path, with a slash behind
/// it; none where the path has no slash behind the token.
pub open spec fn next_directory(row: Seq<char>, token: Seq<char>) -> Option<Seq<char>> {
    let rest = row.skip(token.len() as int);
    let slash = first_index(rest, '/');
    if slash < rest.len() {
        Some(token + rest.take(slash) + seq!['/'])
    } else {
        None
    }
}

/// The directories one step below a token, for the paths that begin with it.
pub open spec fn directories_below(rows: Seq<Seq<char>>, token: Seq<char>) -> Seq<Seq<char>>
    decreases rows.len(),
{
    if rows.len() == 0 {
        seq![]
    } else {
        let rest = directories_below(rows.drop_last(), token);
        let row = rows.last();
        if row.len() > 0 && token.is_prefix_of(row) {
            match next_directory(row, token) {
                Some(dir) => rest.push(dir),
                None => rest,
            }
        } else {
            rest
        }
    }
}

/// The paths that begin with a token and have no slash behind it.
pub open spec fn files_below(rows: Seq<Seq<char>>, token: Seq<char>) -> Seq<Seq<char>>
    decreases rows.len(),
{
    if rows.len() == 0 {
        seq![]
    } else {
        let rest = files_below(rows.drop_last(), token);
        let row = rows.last();
        if row.len() > 0 && token.is_prefix_of(row) && next_directory(row, token) is None {
            rest.push(row)
        } else {
            rest
        }
    }
}

/// The tracked entries one step below a token: directories first, each once,
/// then files; both sorted.
pub open spec fn tracked_in(text: Seq<char>, token: Seq<char>) -> Seq<Seq<char>> {
    deduplicated(sorted_texts(directories_below(lines_of(text), token))) + sorted_texts(
        files_below(lines_of(text), token),
    )
}

fn find_next_directory(row: &str, token: &str) -> (r: Option<String>)
    requires
        token@.is_prefix_of(row@),
    ensures
        match r {
            Some(s) => next_directory(row@, token@) == Some(s@),
            None => next_directory(row@, token@) is None,
        },
{
    let k = token.unicode_len();
    let chars = chars_of(row);
    let ghost rest = row@.skip(k as int);
    let mut i: usize = k;
    while i < chars.len()
        invariant
            k == token@.len(),
            token@.is_prefix_of(row@),
            k <= i <= chars@.len(),
            chars@ == row@,
            rest == row@.skip(k as int),
            forall|j: int| k <= j < i ==> chars@[j] != '/',
        decreases chars.len() - i,
    {
        if chars[i] == '/' {
            proof {
                lemma_first_index(rest, '/', i - k);
            }
            let mut dir = string_of(&chars, 0, i);
            dir.push('/');
            assert(row@.take(k as int) =~= token@);
            assert(dir@ =~= token@ + rest.take(i - k) + seq!['/']);
            return Some(dir);
        }
        i += 1;
    }
    proof {
        lemma_first_index(rest, '/', rest.len() as int);
    }
    None
}

/// Reads the tracked entries one step below a token.
pub fn parse_tracked(text: &str, token: &str) -> (r: Vec<String>)
    ensures
        texts(r@) == tracked_in(text@, token@),
{
    let rows = lines(text);
    let mut dirs: Vec<String> = Vec::new();
    let mut files: Vec<String> = Vec::new();
    let mut i: usize = 0;
    let ghost all = texts(rows@);
    while i < rows.len()
        invariant
            i <= rows@.len(),
            all == texts(rows@),
            texts(dirs@) == directories_below(all.take(i as int), token@),
            texts(files@) == files_below(all.take(i as int), token@),
        decreases rows.len() - i,
    {
        let ghost dirs_before = dirs@;
        let ghost files_before = files@;
        assert(all.take(i + 1).drop_last() =~= all.take(i as int));
        let row = rows[i].as_str();
        if !row.is_empty() && starts_with(row, token) {
            match find_next_directory(row, token) {
                Some(dir) => {
                    dirs.push(dir);
                    proof {
                        lemma_texts_push(dirs_before, dir);
                    }
                },
                None => {
                    let s = row.to_string();
                    files.push(s);
                    proof {
                        lemma_texts_push(files_before, s);
                    }
                },
            }
        }
        i += 1;
    }
    assert(all.take(rows@.len() as int) =~= all);
    let sorted = sort_texts(&dirs);
    let mut r = dedup_texts(&sorted);
    let mut rest = sort_texts(&files);
    let ghost first = r@;
    let ghost second = rest@;
    r.append(&mut rest);
    assert(texts(r@) =~= texts(first) + texts(second));
    r
}

/// The tracked entries one step below a token, out of what `git ls-files`
/// printed.
pub fn git_tracked_candidates(run: &RunResult, token: &str) -> (r: Vec<String>)
    ensures
        texts(r@) == (match successful_out(*run) {
            Some(text) => tracked_in(text, token@),
            None => seq![],
        }),
{
    match successful_output(run) {
        Some(text) => parse_tracked(text.as_str(), token),
        None => {
            let r: Vec<String> = Vec::new();
            assert(texts(r@) =~= seq![]);
            r
        },
    }
}

/// The number of commits that a completion offers.
pub const MAX_OFFERED_COMMITS: usize = 50;

/// The lines of a log that begin with a token, without white space around
/// them.
pub open spec fn hashes_with(rows: Seq<Seq<char>>, token: Seq<char>) -> Seq<Seq<char>>
    decreases rows.len(),
{
    if rows.len() == 0 {
        seq![]
    } else {
        let rest = hashes_with(rows.drop_last(), token);
        let hash = trimmed(rows.last());
        if hash.len() > 0 && token.is_prefix_of(hash) {
            rest.push(hash)
        } else {
            rest
        }
    }
}

/// The first commits of a log that begin with a token.
pub open spec fn commits_in(text: Seq<char>, token: Seq<char>) -> Seq<Seq<char>> {
    let all = hashes_with(lines_of(text), token);
    if all.len() > MAX_OFFERED_COMMITS {
        all.take(MAX_OFFERED_COMMITS as int)
    } else {
        all
    }
}

proof fn lemma_hashes_grow(rows: Seq<Seq<char>>, token: Seq<char>, k: int)
    requires
        0 <= k <= rows.len(),
    ensures
        hashes_with(rows.take(k), token).is_prefix_of(hashes_with(rows, token)),
    decreases rows.len() - k,
{
    if k == rows.len() {
        assert(rows.take(k) =~= rows);
    } else {
        assert(rows.take(k + 1).drop_last() =~= rows.take(k));
        lemma_hashes_grow(rows, token, k + 1);
        let a = hashes_with(rows.take(k), token);
        let b = hashes_with(rows.take(k + 1), token);
        let c = hashes_with(rows, token);
        assert(a =~= b.take(a.len() as int));
        assert(c.take(a.len() as int) =~= c.take(b.len() as int).take(a.len() as int));
    }
}

/// Reads the first commits of a log that begin with a token.
pub fn parse_commits(text: &str, token: &str) -> (r: Vec<String>)
    ensures
        texts(r@) == commits_in(text@, token@),
{
    let rows = lines(text);
    let mut r: Vec<String> = Vec::new();
    let mut i: usize = 0;
    let ghost all = texts(rows@);
    while i < rows.len() && r.len() < MAX_OFFERED_COMMITS
        invariant
            i <= rows@.len(),
            all == texts(rows@),
            r@.len() <= MAX_OFFERED_COMMITS,
            texts(r@) == hashes_with(all.take(i as int), token@),
        decreases rows.len() - i,
    {
        let ghost before = r@;
        assert(all.take(i + 1).drop_last() =~= all.take(i as int));
        let hash = trim(rows[i].as_str());
        if !hash.is_empty() && starts_with(hash, token) {
            let s = hash.to_string();
            r.push(s);
            proof {
                lemma_texts_push(before, s);
            }
        }
        i += 1;
    }
    proof {
        lemma_hashes_grow(all, token@, i as int);
        assert(all.take(rows@.len() as int) =~= all);
        let whole = hashes_with(all, token@);
        assert(whole.take(whole.len() as int) =~= whole);
    }
    r
}

/// The commits that a completion offers: those of the first branch that has
/// any with the token. An empty token takes the first branch that has a log.
pub open spec fn offered_commits(logs: Seq<RunResult>, token: Seq<char>) -> Seq<Seq<char>>
    decreases logs.len(),
{
    if logs.len() == 0 {
        seq![]
    } else {
        match successful_out(logs[0]) {
            Some(text) => if commits_in(text, token).len() > 0 || token.len() == 0 {
                commits_in(text, token)
            } else {
                offered_commits(logs.drop_first(), token)
            },
            None => offered_commits(logs.drop_first(), token),
        }
    }
}

/// The commits that a completion offers, out of the logs of the branches in
/// the order in which they are preferred.
pub fn git_commit_hashes(logs: &Vec<RunResult>, token: &str) -> (r: Vec<String>)
    ensures
        texts(r@) == offered_commits(logs@, token@),
{
    let mut i: usize = 0;
    assert(logs@.skip(0) =~= logs@);
    while i < logs.len()
        invariant
            i <= logs@.len(),
            offered_commits(logs@, token@) == offered_commits(logs@.skip(i as int), token@),
        decreases logs.len() - i,
    {
        assert(logs@.skip(i as int).drop_first() =~= logs@.skip(i + 1));
        match successful_output(&logs[i]) {
            Some(text) => {
                let hashes = parse_commits(text.as_str(), token);
                if hashes.len() > 0 || token.is_empty() {
                    return hashes;
                }
            },
            None => {},
        }
        i += 1;
    }
    let r: Vec<String> = Vec::new();
    assert(texts(r@) =~= seq![]);
    r
}

/// Whether a log settles which commits are offered: it was printed, and holds
/// one with the token, or any will do.
pub open spec fn log_answers(run: RunResult, token: Seq<char>) -> bool {
    successful_out(run) matches Some(text) && (commits_in(text, token).len() > 0 || token.len()
        == 0)
}

/// Whether one of the logs settles which commits are offered.
pub open spec fn logs_answer(logs: Seq<RunResult>, token: Seq<char>) -> bool {
    exists|i: int| 0 <= i < logs.len() && log_answers(#[trigger] logs[i], token)
}

/// Tells whether one of the logs settles which commits are offered.
pub fn commits_are_settled(logs: &Vec<RunResult>, token: &str) -> (r: bool)
    ensures
        r == logs_answer(logs@, token@),
{
    let mut i: usize = 0;
    while i < logs.len()
        invariant
            i <= logs@.len(),
            forall|j: int| 0 <= j < i ==> !log_answers(#[trigger] logs@[j], token@),
        decreases logs.len() - i,
    {
        if let Some(text) = successful_output(&logs[i]) {
            let hashes = parse_commits(text.as_str(), token);
            assert(texts(hashes@).len() == hashes@.len());
            if hashes.len() > 0 || token.is_empty() {
                assert(log_answers(logs@[i as int], token@));
                return true;
            }
        }
        i += 1;
    }
    false
}

/// Once a log settles which commits are offered, further logs change nothing.
pub proof fn law_settled_commits_stay(
    logs: Seq<RunResult>,
    more: Seq<RunResult>,
    token: Seq<char>,
)
    requires
        logs_answer(logs, token),
    ensures
        offered_commits(logs + more, token) == offered_commits(logs, token),
    decreases logs.len(),
{
    let i = choose|i: int| 0 <= i < logs.len() && log_answers(#[trigger] logs[i], token);
    assert((logs + more)[0] == logs[0]);
    if !log_answers(logs[0], token) {
        let rest = logs.drop_first();
        assert(rest[i - 1] == logs[i]);
        assert((logs + more).drop_first() =~= rest + more);
        law_settled_commits_stay(rest, more, token);
    }
}

} // verus!
