//! Completion of the text before the cursor: what is asked for, and which
//! candidates answer it.
use vstd::prelude::*;
use vstd::string::*;

use crate::bytes::{successful_out, RunResult};
use crate::command::{begins, begins_ci, first_of, slash_command};
use crate::gitignore::{
    ignored_by, is_relative, offers_path, should_include_completion_path, IgnoreRules,
};
use crate::lists::{
    git_branch_names, git_commit_hashes, git_local_branch_names, git_tag_names,
    git_tracked_candidates, git_untracked_candidates, keep_starting_with, offered_commits,
    printed_names, starting_with, tracked_in, untracked_in,
};
use crate::offset::{
    byte_len, byte_length, byte_offset, char_position, chars_before, is_offset,
    lemma_chars_before,
};
use crate::order::{dedup_texts, deduplicated, sort_texts, sorted_texts};
use crate::shell::{last_shell_word_start, last_word_start, shell_words, words_of};
use crate::text::{
    chars_of, contains_char, contains_text, is_whitespace, lemma_texts_push,
    replace_backslashes, starts_with, starts_with_char, str_eq, strip_ascii_prefix, texts,
    trim_end, trim_start, trimmed_end, trimmed_start, whitespace, with_slashes,
};

verus! {

/// The branches that are neither overwritten nor deleted.
pub open spec fn protected_branch(branch: Seq<char>) -> bool {
    branch == "main"@ || branch == "master"@
}

/// Tells whether a branch is neither overwritten nor deleted.
pub fn is_protected_branch(branch: &str) -> (r: bool)
    ensures
        r == protected_branch(branch@),
{
    str_eq(branch, "main") || str_eq(branch, "master")
}

/// The commands that begin with a slash, in the order in which they are
/// offered.
pub open spec fn command_names() -> Seq<Seq<char>> {
    seq![
        "/help"@,
        "/connect"@,
        "/disconnect"@,
        "/reload"@,
        "/list_models"@,
        "/list_files"@,
        "/show_file"@,
        "/tools"@,
        "/model"@,
        "/diff"@,
        "/status"@,
        "/log"@,
        "/pull"@,
        "/rebase"@,
        "/merge"@,
        "/checkout"@,
        "/add_file"@,
        "/remove_file"@,
        "/move_file"@,
        "/cherry_pick"@,
        "/commit"@,
        "/push"@,
        "/init_repo"@,
        "/delete"@,
        "/open_file"@,
        "/usage"@,
        "/clear"@,
        "/quit"@,
    ]
}

/// A list of owned strings.
pub(crate) fn owned_list(items: &[&str]) -> (r: Vec<String>)
    ensures
        texts(r@) == items@.map_values(|s: &str| s@),
{
    let mut r: Vec<String> = Vec::new();
    let mut i: usize = 0;
    while i < items.len()
        invariant
            i <= items@.len(),
            texts(r@) == items@.take(i as int).map_values(|s: &str| s@),
        decreases items.len() - i,
    {
        let ghost before = r@;
        let s = items[i].to_string();
        r.push(s);
        proof {
            lemma_texts_push(before, s);
            assert(items@.take(i + 1) =~= items@.take(i as int).push(items@[i as int]));
            assert(texts(r@) =~= items@.take(i + 1).map_values(|s: &str| s@));
        }
        i += 1;
    }
    assert(items@.take(items@.len() as int) =~= items@);
    r
}

/// The commands that begin with a slash.
pub fn commands() -> (r: Vec<String>)
    ensures
        texts(r@) == command_names(),
{
    let names = [
        "/help",
        "/connect",
        "/disconnect",
        "/reload",
        "/list_models",
        "/list_files",
        "/show_file",
        "/tools",
        "/model",
        "/diff",
        "/status",
        "/log",
        "/pull",
        "/rebase",
        "/merge",
        "/checkout",
        "/add_file",
        "/remove_file",
        "/move_file",
        "/cherry_pick",
        "/commit",
        "/push",
        "/init_repo",
        "/delete",
        "/open_file",
        "/usage",
        "/clear",
        "/quit",
    ];
    let r = owned_list(&names);
    assert(texts(r@) =~= command_names());
    r
}

/// What a completion asks for. `T` is a text and `L` a list of texts.
#[derive(Debug, PartialEq, Eq)]
pub enum CompletionQuery<T, L> {
    /// The candidates are known.
    Listed(L),
    /// Files of the workspace, each once.
    ShowFiles(T),
    /// Files of the workspace.
    Files(T),
    /// Entries of the directory that the token begins with.
    Directory(T),
    /// Branches and files to check out.
    Checkout(T),
    /// Branches and tags to switch to.
    Switch(T),
    /// Files that are not tracked.
    UntrackedFiles(T),
    /// Files that are tracked.
    TrackedFiles(T),
    /// Commits.
    Commits(T),
    /// Branches.
    Branches(T),
    /// Local branches that may be deleted.
    Deletable(T),
}

impl View for CompletionQuery<String, Vec<String>> {
    type V = CompletionQuery<Seq<char>, Seq<Seq<char>>>;

    open spec fn view(&self) -> CompletionQuery<Seq<char>, Seq<Seq<char>>> {
        match *self {
            CompletionQuery::Listed(l) => CompletionQuery::Listed(texts(l@)),
            CompletionQuery::ShowFiles(t) => CompletionQuery::ShowFiles(t@),
            CompletionQuery::Files(t) => CompletionQuery::Files(t@),
            CompletionQuery::Directory(t) => CompletionQuery::Directory(t@),
            CompletionQuery::Checkout(t) => CompletionQuery::Checkout(t@),
            CompletionQuery::Switch(t) => CompletionQuery::Switch(t@),
            CompletionQuery::UntrackedFiles(t) => CompletionQuery::UntrackedFiles(t@),
            CompletionQuery::TrackedFiles(t) => CompletionQuery::TrackedFiles(t@),
            CompletionQuery::Commits(t) => CompletionQuery::Commits(t@),
            CompletionQuery::Branches(t) => CompletionQuery::Branches(t@),
            CompletionQuery::Deletable(t) => CompletionQuery::Deletable(t@),
        }
    }
}

/// Where the argument behind a slash command begins.
pub open spec fn behind(p: Seq<char>, word: Seq<char>) -> Option<int> {
    if begins(p, word) {
        Some(word.len() as int)
    } else {
        None
    }
}

/// Where the argument behind a phrase begins.
pub open spec fn behind_ci(p: Seq<char>, phrase: Seq<char>) -> Option<int> {
    if begins_ci(p, phrase) {
        Some(phrase.len() as int)
    } else {
        None
    }
}

pub open spec fn opt_int(o: Option<usize>) -> Option<int> {
    match o {
        Some(n) => Some(n as int),
        None => None,
    }
}

fn find_behind(p: &str, word: &str) -> (r: Option<usize>)
    ensures
        opt_int(r) == behind(p@, word@),
        r matches Some(n) ==> n <= p@.len(),
{
    if starts_with(p, word) {
        Some(word.unicode_len())
    } else {
        None
    }
}

fn find_behind_ci(p: &str, phrase: &str) -> (r: Option<usize>)
    ensures
        opt_int(r) == behind_ci(p@, phrase@),
        r matches Some(n) ==> n <= p@.len(),
{
    match strip_ascii_prefix(p, phrase) {
        Some(_) => Some(phrase.unicode_len()),
        None => None,
    }
}

fn first_found(a: Option<usize>, b: Option<usize>) -> (r: Option<usize>)
    ensures
        opt_int(r) == first_of(opt_int(a), opt_int(b)),
        r == a || r == b,
{
    match a {
        Some(n) => Some(n),
        None => b,
    }
}

/// Where the path of a file to open begins.
pub open spec fn open_file_argument(p: Seq<char>) -> Option<int> {
    first_of(
        behind(p, "/open_file "@),
        first_of(
            behind_ci(p, "open file "@),
            first_of(
                behind_ci(p, "open "@),
                first_of(behind_ci(p, "edit file "@), behind_ci(p, "edit "@)),
            ),
        ),
    )
}

/// Where the path of a file to open begins, counted in characters.
pub fn open_file_completion_prefix(p: &str) -> (r: Option<usize>)
    ensures
        opt_int(r) == open_file_argument(p@),
        r matches Some(n) ==> n <= p@.len(),
{
    first_found(
        find_behind(p, "/open_file "),
        first_found(
            find_behind_ci(p, "open file "),
            first_found(
                find_behind_ci(p, "open "),
                first_found(find_behind_ci(p, "edit file "), find_behind_ci(p, "edit ")),
            ),
        ),
    )
}

/// Where the path of a file to show begins. Behind the bare word "show" it is
/// a single word.
pub open spec fn natural_show_argument(p: Seq<char>) -> Option<int> {
    match behind_ci(p, "show file "@) {
        Some(k) => Some(k),
        None => match behind_ci(p, "show "@) {
            Some(k) => if last_word_start(p.skip(k)) == 0 {
                Some(k)
            } else {
                None
            },
            None => None,
        },
    }
}

/// Where the path of a file to show begins, counted in characters.
pub fn natural_show_file_completion_prefix(p: &str) -> (r: Option<usize>)
    ensures
        opt_int(r) == natural_show_argument(p@),
        r matches Some(n) ==> n <= p@.len(),
{
    match find_behind_ci(p, "show file ") {
        Some(k) => Some(k),
        None => match find_behind_ci(p, "show ") {
            Some(k) => {
                let rest = suffix_from(p, k);
                let chars = chars_of(rest);
                if last_shell_word_start(&chars) == 0 {
                    Some(k)
                } else {
                    None
                }
            },
            None => None,
        },
    }
}

fn suffix_from(p: &str, k: usize) -> (r: &str)
    requires
        k <= p@.len(),
    ensures
        r@ == p@.skip(k as int),
{
    let n = p.unicode_len();
    let r = p.substring_char(k, n);
    assert(r@ =~= p@.skip(k as int));
    r
}

/// Where the target of a checkout begins.
pub open spec fn checkout_argument(p: Seq<char>) -> Option<int> {
    first_of(
        behind(p, "/checkout "@),
        first_of(behind_ci(p, "git checkout "@), behind_ci(p, "checkout "@)),
    )
}

/// Where the path of a file to add begins.
pub open spec fn add_argument(p: Seq<char>) -> Option<int> {
    first_of(
        behind(p, "/add_file "@),
        first_of(
            behind_ci(p, "git add "@),
            first_of(behind_ci(p, "add file "@), behind_ci(p, "add "@)),
        ),
    )
}

/// Where the path of a file to remove begins.
pub open spec fn remove_argument(p: Seq<char>) -> Option<int> {
    first_of(
        behind(p, "/remove_file "@),
        first_of(
            behind_ci(p, "git rm "@),
            first_of(behind_ci(p, "remove file "@), behind_ci(p, "remove "@)),
        ),
    )
}

/// Where the paths of a move begin.
pub open spec fn move_argument(p: Seq<char>) -> Option<int> {
    first_of(
        behind(p, "/move_file "@),
        first_of(
            behind_ci(p, "git mv "@),
            first_of(behind_ci(p, "move file "@), behind_ci(p, "move "@)),
        ),
    )
}

/// Where the commit to pick begins.
pub open spec fn cherry_pick_argument(p: Seq<char>) -> Option<int> {
    first_of(
        behind(p, "/cherry_pick "@),
        first_of(
            behind_ci(p, "git cherry-pick "@),
            first_of(behind_ci(p, "cherry-pick "@), behind_ci(p, "cherry pick "@)),
        ),
    )
}

/// Where the branch to merge begins.
pub open spec fn merge_argument(p: Seq<char>) -> Option<int> {
    first_of(
        behind(p, "/merge "@),
        first_of(behind_ci(p, "git merge "@), behind_ci(p, "merge "@)),
    )
}

/// Where the branch to delete begins.
pub open spec fn delete_argument(p: Seq<char>) -> Option<int> {
    first_of(
        behind(p, "/delete "@),
        first_of(
            behind_ci(p, "git branch -D "@),
            first_of(behind_ci(p, "delete branch "@), behind_ci(p, "delete "@)),
        ),
    )
}

fn find_checkout_argument(p: &str) -> (r: Option<usize>)
    ensures
        opt_int(r) == checkout_argument(p@),
        r matches Some(n) ==> n <= p@.len(),
{
    first_found(
        find_behind(p, "/checkout "),
        first_found(find_behind_ci(p, "git checkout "), find_behind_ci(p, "checkout ")),
    )
}

fn find_add_argument(p: &str) -> (r: Option<usize>)
    ensures
        opt_int(r) == add_argument(p@),
        r matches Some(n) ==> n <= p@.len(),
{
    first_found(
        find_behind(p, "/add_file "),
        first_found(
            find_behind_ci(p, "git add "),
            first_found(find_behind_ci(p, "add file "), find_behind_ci(p, "add ")),
        ),
    )
}

fn find_remove_argument(p: &str) -> (r: Option<usize>)
    ensures
        opt_int(r) == remove_argument(p@),
        r matches Some(n) ==> n <= p@.len(),
{
    first_found(
        find_behind(p, "/remove_file "),
        first_found(
            find_behind_ci(p, "git rm "),
            first_found(find_behind_ci(p, "remove file "), find_behind_ci(p, "remove ")),
        ),
    )
}

fn find_move_argument(p: &str) -> (r: Option<usize>)
    ensures
        opt_int(r) == move_argument(p@),
        r matches Some(n) ==> n <= p@.len(),
{
    first_found(
        find_behind(p, "/move_file "),
        first_found(
            find_behind_ci(p, "git mv "),
            first_found(find_behind_ci(p, "move file "), find_behind_ci(p, "move ")),
        ),
    )
}

fn find_cherry_pick_argument(p: &str) -> (r: Option<usize>)
    ensures
        opt_int(r) == cherry_pick_argument(p@),
        r matches Some(n) ==> n <= p@.len(),
{
    first_found(
        find_behind(p, "/cherry_pick "),
        first_found(
            find_behind_ci(p, "git cherry-pick "),
            first_found(find_behind_ci(p, "cherry-pick "), find_behind_ci(p, "cherry pick ")),
        ),
    )
}

/// Where the branch to merge begins, counted in characters.
pub fn merge_completion_prefix(p: &str) -> (r: Option<usize>)
    ensures
        opt_int(r) == merge_argument(p@),
        r matches Some(n) ==> n <= p@.len(),
{
    first_found(
        find_behind(p, "/merge "),
        first_found(find_behind_ci(p, "git merge "), find_behind_ci(p, "merge ")),
    )
}

/// Where the branch to delete begins, counted in characters.
pub fn delete_branch_completion_prefix(p: &str) -> (r: Option<usize>)
    ensures
        opt_int(r) == delete_argument(p@),
        r matches Some(n) ==> n <= p@.len(),
{
    first_found(
        find_behind(p, "/delete "),
        first_found(
            find_behind_ci(p, "git branch -D "),
            first_found(find_behind_ci(p, "delete branch "), find_behind_ci(p, "delete ")),
        ),
    )
}

/// The words before the last one.
pub open spec fn earlier_words(args: Seq<char>) -> Seq<Seq<char>> {
    match words_of(trimmed_end(args.take(last_word_start(args)))) {
        Ok(words) => words,
        Err(_) => seq![],
    }
}

/// Reads the words before the last one.
fn find_earlier_words(args: &str, start: usize) -> (r: Vec<String>)
    requires
        start == last_word_start(args@),
        start <= args@.len(),
    ensures
        texts(r@) == earlier_words(args@),
{
    let head = args.substring_char(0, start);
    assert(head@ =~= args@.take(start as int));
    match shell_words(trim_end(head)) {
        Ok(words) => words,
        Err(_) => {
            let r: Vec<String> = Vec::new();
            assert(texts(r@) =~= seq![]);
            r
        },
    }
}

/// Whether one of the words is no flag.
pub open spec fn has_path(words: Seq<Seq<char>>) -> bool {
    exists|i: int| 0 <= i < words.len() && !("-"@.is_prefix_of(#[trigger] words[i]))
}

fn any_path(words: &Vec<String>) -> (r: bool)
    ensures
        r == has_path(texts(words@)),
{
    let mut i: usize = 0;
    while i < words.len()
        invariant
            i <= words@.len(),
            forall|j: int| 0 <= j < i ==> "-"@.is_prefix_of(#[trigger] texts(words@)[j]),
        decreases words.len() - i,
    {
        if !starts_with(words[i].as_str(), "-") {
            assert(!("-"@.is_prefix_of(texts(words@)[i as int])));
            return true;
        }
        i += 1;
    }
    false
}

/// The flags of the show command that begin with a token.
pub open spec fn show_flags(token: Seq<char>) -> Seq<Seq<char>> {
    starting_with(seq!["--hash"@, "--author"@], token)
}

/// The flags of the show command that begin with a token.
pub fn show_file_flag_candidates(token: &str) -> (r: Vec<String>)
    ensures
        texts(r@) == show_flags(token@),
{
    let flags = owned_list(&["--hash", "--author"]);
    assert(texts(flags@) =~= seq!["--hash"@, "--author"@]);
    keep_starting_with(&flags, token)
}

/// What the arguments of the show command ask for, and where the part to
/// complete begins. Behind a path comes nothing more.
pub open spec fn show_file_query(args: Seq<char>) -> CompletionQuery<Seq<char>, Seq<Seq<char>>> {
    let token = args.skip(last_word_start(args));
    if "-"@.is_prefix_of(token) {
        CompletionQuery::Listed(deduplicated(sorted_texts(show_flags(token))))
    } else if has_path(earlier_words(args)) {
        CompletionQuery::Listed(seq![])
    } else {
        CompletionQuery::ShowFiles(token)
    }
}

/// What the arguments of the show command ask for.
pub fn show_file_completion_query(args: &str) -> (r: (
    usize,
    CompletionQuery<String, Vec<String>>,
))
    ensures
        r.0 == last_word_start(args@),
        r.0 <= args@.len(),
        r.1@ == show_file_query(args@),
{
    let chars = chars_of(args);
    let start = last_shell_word_start(&chars);
    let token = suffix_from(args, start);
    let earlier = find_earlier_words(args, start);
    let query = if starts_with(token, "-") {
        let flags = show_file_flag_candidates(token);
        let sorted = sort_texts(&flags);
        CompletionQuery::Listed(dedup_texts(&sorted))
    } else if any_path(&earlier) {
        let none: Vec<String> = Vec::new();
        assert(texts(none@) =~= seq![]);
        CompletionQuery::Listed(none)
    } else {
        CompletionQuery::ShowFiles(token.to_string())
    };
    (start, query)
}

/// What the arguments of a move ask for: first a tracked file, then any path.
pub open spec fn move_file_query(args: Seq<char>) -> CompletionQuery<Seq<char>, Seq<Seq<char>>> {
    let token = args.skip(last_word_start(args));
    if earlier_words(args).len() == 0 {
        CompletionQuery::TrackedFiles(token)
    } else {
        CompletionQuery::Directory(token)
    }
}

/// What the arguments of a move ask for.
pub fn move_file_completion_query(args: &str) -> (r: (usize, CompletionQuery<String, Vec<String>>))
    ensures
        r.0 == last_word_start(args@),
        r.0 <= args@.len(),
        r.1@ == move_file_query(args@),
{
    let chars = chars_of(args);
    let start = last_shell_word_start(&chars);
    let token = suffix_from(args, start);
    let earlier = find_earlier_words(args, start);
    assert(texts(earlier@).len() == earlier@.len());
    let query = if earlier.len() == 0 {
        CompletionQuery::TrackedFiles(token.to_string())
    } else {
        CompletionQuery::Directory(token.to_string())
    };
    (start, query)
}

/// The position behind the last white space of a text.
pub open spec fn last_gap(s: Seq<char>) -> int
    decreases s.len(),
{
    if s.len() == 0 || whitespace(s.last()) {
        s.len() as int
    } else {
        last_gap(s.drop_last())
    }
}

fn find_last_gap(s: &str) -> (r: usize)
    ensures
        r == last_gap(s@),
        r <= s@.len(),
{
    let chars = chars_of(s);
    let mut i: usize = chars.len();
    assert(chars@.take(i as int) =~= s@);
    while i > 0 && !is_whitespace(chars[i - 1])
        invariant
            i <= chars@.len(),
            chars@ == s@,
            last_gap(s@) == last_gap(s@.take(i as int)),
        decreases i,
    {
        assert(s@.take(i as int).drop_last() =~= s@.take(i - 1));
        i -= 1;
    }
    i
}

/// A completion: the position at which the part to complete begins, and what
/// is asked for.
pub struct CompletionGoal {
    pub start: int,
    pub query: CompletionQuery<Seq<char>, Seq<Seq<char>>>,
}

/// The completion of the arguments of git commands and of other phrases that
/// name a branch, a commit or a file.
pub open spec fn git_goal(p: Seq<char>) -> Option<CompletionGoal> {
    if let Some(k) = checkout_argument(p) {
        Some(CompletionGoal { start: k, query: CompletionQuery::Checkout(p.skip(k)) })
    } else if let Some(k) = behind_ci(p, "switch to "@) {
        Some(CompletionGoal { start: k, query: CompletionQuery::Switch(p.skip(k)) })
    } else if let Some(k) = add_argument(p) {
        Some(CompletionGoal { start: k, query: CompletionQuery::UntrackedFiles(p.skip(k)) })
    } else if let Some(k) = remove_argument(p) {
        Some(CompletionGoal { start: k, query: CompletionQuery::TrackedFiles(p.skip(k)) })
    } else if let Some(k) = move_argument(p) {
        Some(
            CompletionGoal {
                start: k + last_word_start(p.skip(k)),
                query: move_file_query(p.skip(k)),
            },
        )
    } else if let Some(k) = cherry_pick_argument(p) {
        Some(
            CompletionGoal {
                start: k,
                query: CompletionQuery::Commits(trimmed_start(p.skip(k))),
            },
        )
    } else if let Some(k) = merge_argument(p) {
        Some(CompletionGoal { start: k, query: CompletionQuery::Branches(p.skip(k)) })
    } else if let Some(k) = delete_argument(p) {
        Some(CompletionGoal { start: k, query: CompletionQuery::Deletable(p.skip(k)) })
    } else {
        None
    }
}

/// The completion of the text `p` before the cursor.
pub open spec fn completion_goal(p: Seq<char>, models: Seq<Seq<char>>) -> CompletionGoal {
    if let Some(k) = behind(p, "/show_file "@) {
        CompletionGoal {
            start: k + last_word_start(p.skip(k)),
            query: show_file_query(p.skip(k)),
        }
    } else if let Some(k) = open_file_argument(p) {
        CompletionGoal { start: k, query: CompletionQuery::Files(p.skip(k)) }
    } else if let Some(k) = natural_show_argument(p) {
        CompletionGoal { start: k, query: CompletionQuery::Files(p.skip(k)) }
    } else if let Some(k) = behind(p, "/model "@) {
        CompletionGoal {
            start: k,
            query: CompletionQuery::Listed(starting_with(models, p.skip(k))),
        }
    } else if let Some(goal) = git_goal(p) {
        goal
    } else if "/"@.is_prefix_of(p) {
        CompletionGoal {
            start: 0,
            query: CompletionQuery::Listed(starting_with(command_names(), p)),
        }
    } else {
        CompletionGoal {
            start: last_gap(p),
            query: CompletionQuery::Directory(p.skip(last_gap(p))),
        }
    }
}

fn find_git_goal(p: &str) -> (r: Option<(usize, CompletionQuery<String, Vec<String>>)>)
    ensures
        match r {
            Some((start, query)) => git_goal(p@) == Some(
                CompletionGoal { start: start as int, query: query@ },
            ) && start <= p@.len(),
            None => git_goal(p@) is None,
        },
{
    let all = p.unicode_len();
    if let Some(k) = find_checkout_argument(p) {
        return Some((k, CompletionQuery::Checkout(suffix_from(p, k).to_string())));
    }
    if let Some(k) = find_behind_ci(p, "switch to ") {
        return Some((k, CompletionQuery::Switch(suffix_from(p, k).to_string())));
    }
    if let Some(k) = find_add_argument(p) {
        return Some((k, CompletionQuery::UntrackedFiles(suffix_from(p, k).to_string())));
    }
    if let Some(k) = find_remove_argument(p) {
        return Some((k, CompletionQuery::TrackedFiles(suffix_from(p, k).to_string())));
    }
    if let Some(k) = find_move_argument(p) {
        let (start, query) = move_file_completion_query(suffix_from(p, k));
        assert(k + start <= all);
        return Some((k + start, query));
    }
    if let Some(k) = find_cherry_pick_argument(p) {
        let token = trim_start(suffix_from(p, k));
        return Some((k, CompletionQuery::Commits(token.to_string())));
    }
    if let Some(k) = merge_completion_prefix(p) {
        return Some((k, CompletionQuery::Branches(suffix_from(p, k).to_string())));
    }
    if let Some(k) = delete_branch_completion_prefix(p) {
        return Some((k, CompletionQuery::Deletable(suffix_from(p, k).to_string())));
    }
    None
}

/// The completion of the text before the cursor. The position at which the
/// part to complete begins is counted in characters.
pub fn find_completion_goal(p: &str, models: &Vec<String>) -> (r: (
    usize,
    CompletionQuery<String, Vec<String>>,
))
    ensures
        completion_goal(p@, texts(models@)) == (CompletionGoal { start: r.0 as int, query: r.1@ }),
        r.0 <= p@.len(),
{
    let all = p.unicode_len();
    if let Some(k) = find_behind(p, "/show_file ") {
        let (start, query) = show_file_completion_query(suffix_from(p, k));
        assert(k + start <= all);
        return (k + start, query);
    }
    if let Some(k) = open_file_completion_prefix(p) {
        return (k, CompletionQuery::Files(suffix_from(p, k).to_string()));
    }
    if let Some(k) = natural_show_file_completion_prefix(p) {
        return (k, CompletionQuery::Files(suffix_from(p, k).to_string()));
    }
    if let Some(k) = find_behind(p, "/model ") {
        return (k, CompletionQuery::Listed(keep_starting_with(models, suffix_from(p, k))));
    }
    if let Some(goal) = find_git_goal(p) {
        return goal;
    }
    if starts_with(p, "/") {
        let names = commands();
        return (0, CompletionQuery::Listed(keep_starting_with(&names, p)));
    }
    let start = find_last_gap(p);
    (start, CompletionQuery::Directory(suffix_from(p, start).to_string()))
}

/// The part of the input before the cursor; a cursor behind the end counts as
/// at the end.
pub open spec fn typed(input: Seq<char>, cursor: int) -> Seq<char> {
    if cursor >= byte_len(input) {
        input
    } else {
        input.take(chars_before(input, cursor))
    }
}

/// A completion that is asked for: the part from `start` to `end`, in bytes, is
/// to be replaced.
pub struct CompletionRequest {
    pub start: usize,
    pub end: usize,
    pub query: CompletionQuery<String, Vec<String>>,
}

/// The completion at the cursor of an input line.
pub fn completion_request(input: &str, cursor: usize, models: &Vec<String>) -> (r:
    CompletionRequest)
    requires
        cursor >= byte_len(input@) || is_offset(input@, cursor as int),
    ensures
        ({
            let p = typed(input@, cursor as int);
            let goal = completion_goal(p, texts(models@));
            &&& r.query@ == goal.query
            &&& 0 <= goal.start <= p.len()
            &&& r.start == byte_len(p.take(goal.start))
            &&& r.end == byte_len(p)
            &&& r.start <= r.end
            &&& is_offset(input@, r.start as int)
            &&& is_offset(input@, r.end as int)
        }),
{
    let len = byte_length(input);
    let ghost p = typed(input@, cursor as int);
    let k = if cursor >= len {
        input.unicode_len()
    } else {
        char_position(input, cursor)
    };
    let prefix = input.substring_char(0, k);
    assert(prefix@ =~= input@.take(k as int));
    assert(p =~= prefix@);
    let (start, query) = find_completion_goal(prefix, models);
    let from = byte_offset(prefix, start);
    let to = byte_length(prefix);
    proof {
        assert(prefix@.take(start as int) =~= input@.take(start as int));
        lemma_chars_before(input@, start as int);
        lemma_chars_before(input@, k as int);
        assert(prefix@.take(prefix@.len() as int) =~= prefix@);
    }
    CompletionRequest { start: from, end: to, query }
}

/// A file of the workspace: its path relative to the workspace, and its name.
pub struct WorkspaceFile {
    pub relative: String,
    pub name: String,
}

/// Whether a file answers a token: its path begins with it, or its name does
/// where the token is no path.
pub open spec fn file_matches(relative: Seq<char>, name: Seq<char>, token: Seq<char>) -> bool {
    token.len() == 0 || token.is_prefix_of(relative) || (!token.contains('/')
        && token.is_prefix_of(name))
}

/// Tells whether a file answers a token.
pub fn open_file_completion_matches(relative: &str, file_name: &str, token: &str) -> (r: bool)
    ensures
        r == file_matches(relative@, file_name@, token@),
{
    token.is_empty() || starts_with(relative, token) || (!contains_char(token, '/')
        && starts_with(file_name, token))
}

/// The quote that a token begins with.
pub open spec fn opening_quote(token: Seq<char>) -> Option<char> {
    if token.len() > 0 && (token[0] == '"' || token[0] == '\'') {
        Some(token[0])
    } else {
        None
    }
}

/// A token without the quote that it begins with.
pub open spec fn without_opening_quote(token: Seq<char>) -> Seq<char> {
    if opening_quote(token) is Some {
        token.skip(1)
    } else {
        token
    }
}

/// The paths of the files that answer a token; a quote before the token stays
/// before each of them.
pub open spec fn matching_files(files: Seq<WorkspaceFile>, token: Seq<char>) -> Seq<Seq<char>>
    decreases files.len(),
{
    if files.len() == 0 {
        seq![]
    } else {
        let rest = matching_files(files.drop_last(), token);
        let path = with_slashes(files.last().relative@);
        if file_matches(path, files.last().name@, without_opening_quote(token)) {
            match opening_quote(token) {
                Some(quote) => rest.push(seq![quote] + path),
                None => rest.push(path),
            }
        } else {
            rest
        }
    }
}

/// The files of a workspace that answer a token, sorted.
pub fn open_file_completion_candidates(token: &str, files: &Vec<WorkspaceFile>) -> (r: Vec<String>)
    ensures
        texts(r@) == sorted_texts(matching_files(files@, token@)),
{
    let quoted = starts_with_char(token, '"') || starts_with_char(token, '\'');
    let bare = if quoted {
        suffix_from(token, 1)
    } else {
        token
    };
    let mut found: Vec<String> = Vec::new();
    let mut i: usize = 0;
    while i < files.len()
        invariant
            i <= files@.len(),
            quoted == (opening_quote(token@) is Some),
            bare@ == without_opening_quote(token@),
            texts(found@) == matching_files(files@.take(i as int), token@),
        decreases files.len() - i,
    {
        let ghost before = found@;
        assert(files@.take(i + 1).drop_last() =~= files@.take(i as int));
        let path = replace_backslashes(files[i].relative.as_str());
        if open_file_completion_matches(path.as_str(), files[i].name.as_str(), bare) {
            let mut s = String::new();
            if quoted {
                s.push(token.get_char(0));
            }
            s.append(path.as_str());
            found.push(s);
            proof {
                lemma_texts_push(before, s);
                if quoted {
                    assert(s@ =~= seq![token@[0]] + path@);
                } else {
                    assert(s@ =~= path@);
                }
            }
        }
        i += 1;
    }
    assert(files@.take(files@.len() as int) =~= files@);
    sort_texts(&found)
}

/// The files of a workspace that answer a token of the show command, each
/// once.
pub fn show_file_completion_candidates(token: &str, files: &Vec<WorkspaceFile>) -> (r: Vec<String>)
    ensures
        texts(r@) == deduplicated(sorted_texts(matching_files(files@, token@))),
{
    let found = open_file_completion_candidates(token, files);
    dedup_texts(&found)
}

/// The position of the last slash of a token.
pub open spec fn last_slash(token: Seq<char>) -> Option<int>
    decreases token.len(),
{
    if token.len() == 0 {
        None
    } else if token.last() == '/' {
        Some(token.len() - 1)
    } else {
        last_slash(token.drop_last())
    }
}

/// The directory that a token begins with: what stands before its last slash.
pub open spec fn token_directory(token: Seq<char>) -> Seq<char> {
    match last_slash(token) {
        Some(k) => token.take(k),
        None => seq![],
    }
}

/// The beginning of a name that a token ends with: what stands behind its last
/// slash.
pub open spec fn token_name(token: Seq<char>) -> Seq<char> {
    match last_slash(token) {
        Some(k) => token.skip(k + 1),
        None => token,
    }
}

/// Splits a token at its last slash.
pub fn split_token(token: &str) -> (r: (&str, &str))
    ensures
        r.0@ == token_directory(token@),
        r.1@ == token_name(token@),
{
    let chars = chars_of(token);
    let n = chars.len();
    let mut i: usize = n;
    assert(token@.take(n as int) =~= token@);
    while i > 0
        invariant
            i <= n,
            n == chars@.len(),
            chars@ == token@,
            last_slash(token@) == last_slash(token@.take(i as int)),
        decreases i,
    {
        assert(token@.take(i as int).drop_last() =~= token@.take(i - 1));
        if chars[i - 1] == '/' {
            let directory = token.substring_char(0, i - 1);
            let name = token.substring_char(i, n);
            assert(directory@ =~= token@.take(i - 1));
            assert(name@ =~= token@.skip(i as int));
            return (directory, name);
        }
        i -= 1;
    }
    let none = token.substring_char(0, 0);
    assert(none@ =~= seq![]);
    (none, token)
}

/// An entry of a directory. Its path is given relative to the workspace, if it
/// lies there, and relative to the directory of the ignore rules.
pub struct DirectoryEntry {
    pub name: String,
    pub relative: Option<String>,
    pub below_rules: String,
    pub is_dir: bool,
}

impl DirectoryEntry {
    /// The path relative to the rules is one.
    pub open spec fn wf(self) -> bool {
        is_relative(self.below_rules@)
    }

    /// Whether a completion offers the entry.
    pub open spec fn offered(self, rules: Option<IgnoreRules>) -> bool {
        offers_path(
            match self.relative {
                Some(p) => Some(p@),
                None => None,
            },
            ignored_by(rules, self.below_rules@, self.is_dir),
        )
    }

    /// The entry as a candidate for a token: behind the directory of the token,
    /// and with a slash behind a directory.
    pub open spec fn candidate(self, token: Seq<char>) -> Seq<char> {
        let directory = token_directory(token);
        (if directory.len() == 0 {
            self.name@
        } else {
            directory + seq!['/'] + self.name@
        }) + (if self.is_dir {
            seq!['/']
        } else {
            seq![]
        })
    }
}

/// The candidates for a token among the entries of its directory.
pub open spec fn matching_entries(
    entries: Seq<DirectoryEntry>,
    token: Seq<char>,
    rules: Option<IgnoreRules>,
) -> Seq<Seq<char>>
    decreases entries.len(),
{
    if entries.len() == 0 {
        seq![]
    } else {
        let rest = matching_entries(entries.drop_last(), token, rules);
        let entry = entries.last();
        if entry.offered(rules) && token_name(token).is_prefix_of(entry.name@) {
            rest.push(entry.candidate(token))
        } else {
            rest
        }
    }
}

/// The candidates for a token among the entries of its directory, sorted.
pub fn file_completion_candidates(
    token: &str,
    entries: &Vec<DirectoryEntry>,
    rules: &Option<IgnoreRules>,
) -> (r: Vec<String>)
    requires
        forall|i: int| 0 <= i < entries@.len() ==> (#[trigger] entries@[i]).wf(),
    ensures
        texts(r@) == sorted_texts(matching_entries(entries@, token@, *rules)),
{
    let (directory, prefix) = split_token(token);
    let mut found: Vec<String> = Vec::new();
    let mut i: usize = 0;
    while i < entries.len()
        invariant
            i <= entries@.len(),
            forall|j: int| 0 <= j < entries@.len() ==> (#[trigger] entries@[j]).wf(),
            directory@ == token_directory(token@),
            prefix@ == token_name(token@),
            texts(found@) == matching_entries(entries@.take(i as int), token@, *rules),
        decreases entries.len() - i,
    {
        let ghost before = found@;
        assert(entries@.take(i + 1).drop_last() =~= entries@.take(i as int));
        let entry = &entries[i];
        let relative = match &entry.relative {
            Some(p) => Some(p.as_str()),
            None => None,
        };
        let offered = should_include_completion_path(
            relative,
            entry.below_rules.as_str(),
            entry.is_dir,
            rules,
        );
        if offered && starts_with(entry.name.as_str(), prefix) {
            let mut s = String::new();
            if !directory.is_empty() {
                s.append(directory);
                s.push('/');
            }
            s.append(entry.name.as_str());
            if entry.is_dir {
                s.push('/');
            }
            assert(s@ =~= entry.candidate(token@));
            found.push(s);
            proof {
                lemma_texts_push(before, s);
            }
        }
        i += 1;
    }
    assert(entries@.take(entries@.len() as int) =~= entries@);
    sort_texts(&found)
}

/// What a repository lists; nothing outside of one.
pub open spec fn repository_names(run: Option<RunResult>, keep_heads: bool) -> Seq<Seq<char>> {
    match run {
        Some(r) => printed_names(r, keep_heads),
        None => seq![],
    }
}

/// A list with the entries of another one that it does not hold yet.
pub open spec fn joined_once(list: Seq<Seq<char>>, more: Seq<Seq<char>>) -> Seq<Seq<char>>
    decreases more.len(),
{
    if more.len() == 0 {
        list
    } else {
        let rest = joined_once(list, more.drop_last());
        if rest.contains(more.last()) {
            rest
        } else {
            rest.push(more.last())
        }
    }
}

fn empty_list() -> (r: Vec<String>)
    ensures
        texts(r@) == Seq::<Seq<char>>::empty(),
{
    let r: Vec<String> = Vec::new();
    assert(texts(r@) =~= Seq::<Seq<char>>::empty());
    r
}

/// The targets of a checkout that begin with a token: branches, then files that
/// are not among them.
pub fn checkout_completion_candidates(
    token: &str,
    branches: &Option<RunResult>,
    files: &Vec<String>,
) -> (r: Vec<String>)
    ensures
        texts(r@) == joined_once(
            starting_with(repository_names(*branches, false), token@),
            texts(files@),
        ),
{
    let names = match branches {
        Some(run) => git_branch_names(run),
        None => empty_list(),
    };
    let mut r = keep_starting_with(&names, token);
    let ghost start = texts(r@);
    let mut i: usize = 0;
    let ghost all = texts(files@);
    while i < files.len()
        invariant
            i <= files@.len(),
            all == texts(files@),
            texts(r@) == joined_once(start, all.take(i as int)),
        decreases files.len() - i,
    {
        let ghost before = r@;
        assert(all.take(i + 1).drop_last() =~= all.take(i as int));
        if !contains_text(&r, files[i].as_str()) {
            let s = files[i].clone();
            r.push(s);
            proof {
                lemma_texts_push(before, s);
            }
        }
        i += 1;
    }
    assert(all.take(files@.len() as int) =~= all);
    r
}

/// Branches and tags together: sorted, each once.
pub open spec fn refs_of(branches: Option<RunResult>, tags: Option<RunResult>) -> Seq<Seq<char>> {
    deduplicated(
        sorted_texts(repository_names(branches, false) + repository_names(tags, true)),
    )
}

/// The branches and tags to switch to that begin with a token.
pub fn switch_completion_candidates(
    token: &str,
    branches: &Option<RunResult>,
    tags: &Option<RunResult>,
) -> (r: Vec<String>)
    ensures
        texts(r@) == starting_with(refs_of(*branches, *tags), token@),
{
    let mut refs = match branches {
        Some(run) => git_branch_names(run),
        None => empty_list(),
    };
    let mut more = match tags {
        Some(run) => git_tag_names(run),
        None => empty_list(),
    };
    let ghost first = refs@;
    let ghost second = more@;
    refs.append(&mut more);
    assert(texts(refs@) =~= texts(first) + texts(second));
    let sorted = sort_texts(&refs);
    let refs = dedup_texts(&sorted);
    keep_starting_with(&refs, token)
}

/// The untracked files to add that begin with a token.
pub fn add_file_completion_candidates(token: &str, untracked: &Option<RunResult>) -> (r: Vec<String>)
    ensures
        texts(r@) == (match *untracked {
            Some(run) => match successful_out(run) {
                Some(text) => untracked_in(text, token@),
                None => seq![],
            },
            None => seq![],
        }),
{
    match untracked {
        Some(run) => git_untracked_candidates(run, token),
        None => empty_list(),
    }
}

/// The tracked files to remove or to move, one step below a token.
pub fn remove_file_completion_candidates(token: &str, listing: &Option<RunResult>) -> (r: Vec<
    String,
>)
    ensures
        texts(r@) == (match *listing {
            Some(run) => match successful_out(run) {
                Some(text) => tracked_in(text, token@),
                None => seq![],
            },
            None => seq![],
        }),
{
    match listing {
        Some(run) => git_tracked_candidates(run, token),
        None => empty_list(),
    }
}

/// The commits to pick that begin with a token, out of the logs of the
/// branches in the order in which they are preferred.
pub fn cherry_pick_completion_candidates(token: &str, logs: &Vec<RunResult>) -> (r: Vec<String>)
    ensures
        texts(r@) == offered_commits(logs@, token@),
{
    git_commit_hashes(logs, token)
}

/// The branches to merge that begin with a token.
pub fn merge_completion_candidates(token: &str, branches: &Option<RunResult>) -> (r: Vec<String>)
    ensures
        texts(r@) == starting_with(repository_names(*branches, false), token@),
{
    let names = match branches {
        Some(run) => git_branch_names(run),
        None => empty_list(),
    };
    keep_starting_with(&names, token)
}

/// The names of a list that are not protected.
pub open spec fn unprotected(list: Seq<Seq<char>>) -> Seq<Seq<char>>
    decreases list.len(),
{
    if list.len() == 0 {
        seq![]
    } else if protected_branch(list.last()) {
        unprotected(list.drop_last())
    } else {
        unprotected(list.drop_last()).push(list.last())
    }
}

/// The local branches to delete that begin with a token. Protected branches
/// are not offered.
pub fn delete_branch_completion_candidates(token: &str, branches: &Option<RunResult>) -> (r: Vec<
    String,
>)
    ensures
        texts(r@) == unprotected(starting_with(repository_names(*branches, true), token@)),
{
    let names = match branches {
        Some(run) => git_local_branch_names(run),
        None => empty_list(),
    };
    let matching = keep_starting_with(&names, token);
    let mut r: Vec<String> = Vec::new();
    let mut i: usize = 0;
    let ghost all = texts(matching@);
    while i < matching.len()
        invariant
            i <= matching@.len(),
            all == texts(matching@),
            texts(r@) == unprotected(all.take(i as int)),
        decreases matching.len() - i,
    {
        let ghost before = r@;
        assert(all.take(i + 1).drop_last() =~= all.take(i as int));
        if !is_protected_branch(matching[i].as_str()) {
            let s = matching[i].clone();
            r.push(s);
            proof {
                lemma_texts_push(before, s);
            }
        }
        i += 1;
    }
    assert(all.take(matching@.len() as int) =~= all);
    r
}

/// A protected branch is never offered for deletion.
pub proof fn law_protected_branches_are_not_offered(list: Seq<Seq<char>>, branch: Seq<char>)
    requires
        protected_branch(branch),
    ensures
        !unprotected(list).contains(branch),
    decreases list.len(),
{
    if list.len() > 0 {
        law_protected_branches_are_not_offered(list.drop_last(), branch);
        let rest = unprotected(list.drop_last());
        if !protected_branch(list.last()) {
            let all = rest.push(list.last());
            if all.contains(branch) {
                let i = choose|i: int| 0 <= i < all.len() && all[i] == branch;
                if i < rest.len() {
                    assert(rest[i] == branch);
                }
            }
        }
    }
}

/// Every command that is offered is understood.
pub proof fn law_offered_commands_are_understood(i: int)
    requires
        0 <= i < command_names().len(),
    ensures
        slash_command(command_names()[i]) is Some,
{
}

/// Every candidate for a file stands for an entry of the directory that begins
/// with what was typed and is neither ignored nor internal.
pub proof fn law_ignored_entries_are_not_offered(
    entries: Seq<DirectoryEntry>,
    token: Seq<char>,
    rules: Option<IgnoreRules>,
    i: int,
)
    requires
        0 <= i < matching_entries(entries, token, rules).len(),
    ensures
        exists|j: int|
            0 <= j < entries.len() && (#[trigger] entries[j]).offered(rules) && token_name(
                token,
            ).is_prefix_of(entries[j].name@) && matching_entries(entries, token, rules)[i]
                == entries[j].candidate(token),
    decreases entries.len(),
{
    let init = entries.drop_last();
    let rest = matching_entries(init, token, rules);
    if i < rest.len() {
        law_ignored_entries_are_not_offered(init, token, rules, i);
        let j = choose|j: int|
            0 <= j < init.len() && (#[trigger] init[j]).offered(rules) && token_name(
                token,
            ).is_prefix_of(init[j].name@) && rest[i] == init[j].candidate(token);
        assert(entries[j] == init[j]);
    } else {
        assert(entries[entries.len() - 1].offered(rules));
    }
}

} // verus!
