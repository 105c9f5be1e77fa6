//! What a completion needs from outside, and the candidates that come of it.
use vstd::prelude::*;
use vstd::string::*;

use crate::bytes::{successful_out, RunResult};
use crate::completion::{
    add_file_completion_candidates, checkout_completion_candidates,
    cherry_pick_completion_candidates, completion_goal, completion_request,
    delete_branch_completion_candidates, file_completion_candidates, joined_once,
    matching_entries, matching_files, merge_completion_candidates,
    open_file_completion_candidates, owned_list, refs_of, remove_file_completion_candidates,
    repository_names, show_file_completion_candidates, split_token,
    switch_completion_candidates, token_directory, typed, unprotected, CompletionQuery,
    DirectoryEntry, WorkspaceFile,
};
use crate::git::{Place, ProcessRequest};
use crate::gitignore::IgnoreRules;
use crate::input::{InputState, InputView};
use crate::lists::{
    commits_are_settled, logs_answer, offered_commits, starting_with, tracked_in, untracked_in,
};
use crate::offset::{lemma_byte_len_add, lemma_byte_len_bound, lemma_chars_before};
use crate::order::{deduplicated, sorted_texts};
use crate::text::{opt_str, texts};

verus! {

/// A question to git; the text is of the type `T`.
#[derive(Debug, PartialEq, Eq)]
pub enum GitListing<T> {
    Branches,
    LocalBranches,
    Tags,
    UntrackedFiles,
    TrackedFiles,
    /// Whether a branch exists.
    BranchCheck(T),
    /// The commits of a branch.
    BranchLog(T),
}

/// The arguments of a question to git.
pub open spec fn listing_args(listing: GitListing<Seq<char>>) -> Seq<Seq<char>> {
    match listing {
        GitListing::Branches => seq!["branch"@, "--all"@, "--format=%(refname:short)"@],
        GitListing::LocalBranches => seq!["branch"@, "--format=%(refname:short)"@],
        GitListing::Tags => seq!["tag"@],
        GitListing::UntrackedFiles => seq![
            "ls-files"@,
            "--others"@,
            "--exclude-standard"@,
            "--directory"@,
        ],
        GitListing::TrackedFiles => seq!["ls-files"@],
        GitListing::BranchCheck(branch) => seq!["rev-parse"@, "--verify"@, branch],
        GitListing::BranchLog(branch) => seq!["log"@, "--abbrev-commit"@, "--format=%h"@, branch],
    }
}

/// The view of a question to git.
pub open spec fn listing_view(listing: GitListing<&str>) -> GitListing<Seq<char>> {
    match listing {
        GitListing::Branches => GitListing::Branches,
        GitListing::LocalBranches => GitListing::LocalBranches,
        GitListing::Tags => GitListing::Tags,
        GitListing::UntrackedFiles => GitListing::UntrackedFiles,
        GitListing::TrackedFiles => GitListing::TrackedFiles,
        GitListing::BranchCheck(branch) => GitListing::BranchCheck(branch@),
        GitListing::BranchLog(branch) => GitListing::BranchLog(branch@),
    }
}

/// The run of git that answers a question.
pub fn listing_request(listing: GitListing<&str>) -> (r: ProcessRequest<String, Vec<String>, Vec<u8>>)
    ensures
        r@ == (ProcessRequest::<Seq<char>, Seq<Seq<char>>, Seq<u8>> {
            program: "git"@,
            args: listing_args(listing_view(listing)),
            place: Place::GitRoot,
            columns: false,
            input: None,
        }),
{
    let args = match listing {
        GitListing::Branches => owned_list(&["branch", "--all", "--format=%(refname:short)"]),
        GitListing::LocalBranches => owned_list(&["branch", "--format=%(refname:short)"]),
        GitListing::Tags => owned_list(&["tag"]),
        GitListing::UntrackedFiles => owned_list(
            &["ls-files", "--others", "--exclude-standard", "--directory"],
        ),
        GitListing::TrackedFiles => owned_list(&["ls-files"]),
        GitListing::BranchCheck(branch) => owned_list(&["rev-parse", "--verify", branch]),
        GitListing::BranchLog(branch) => owned_list(
            &["log", "--abbrev-commit", "--format=%h", branch],
        ),
    };
    assert(texts(args@) =~= listing_args(listing_view(listing)));
    ProcessRequest {
        program: "git".to_string(),
        args,
        place: Place::GitRoot,
        columns: false,
        input: None,
    }
}

/// The branches whose commits are offered, in the order in which they are
/// preferred.
pub fn commit_branches() -> (r: Vec<String>)
    ensures
        texts(r@) == seq!["origin/main"@, "origin/master"@, "main"@, "master"@],
{
    let r = owned_list(&["origin/main", "origin/master", "main", "master"]);
    assert(texts(r@) =~= seq!["origin/main"@, "origin/master"@, "main"@, "master"@]);
    r
}

/// Tells whether a run succeeded.
pub fn succeeded(run: &RunResult) -> (r: bool)
    ensures
        r == (successful_out(*run) is Some),
{
    match run {
        RunResult::Finished(output) => output.success,
        _ => false,
    }
}

/// What a completion needs from outside.
#[derive(Clone, Copy, Debug, PartialEq, Eq, Structural)]
pub struct CompletionNeeds {
    /// The files of the workspace.
    pub files: bool,
    /// The entries of a directory, and the rules for them.
    pub entries: bool,
    pub branches: bool,
    pub local_branches: bool,
    pub tags: bool,
    pub untracked_files: bool,
    pub tracked_files: bool,
    /// The logs of branches.
    pub logs: bool,
}

/// What a query needs from outside.
pub open spec fn needs_of<T, L>(query: CompletionQuery<T, L>) -> CompletionNeeds {
    CompletionNeeds {
        files: query is ShowFiles || query is Files,
        entries: query is Directory || query is Checkout,
        branches: query is Checkout || query is Switch || query is Branches,
        local_branches: query is Deletable,
        tags: query is Switch,
        untracked_files: query is UntrackedFiles,
        tracked_files: query is TrackedFiles,
        logs: query is Commits,
    }
}

/// Tells what a query needs from outside.
pub fn completion_needs(query: &CompletionQuery<String, Vec<String>>) -> (r: CompletionNeeds)
    ensures
        r == needs_of(*query),
{
    CompletionNeeds {
        files: matches!(query, CompletionQuery::ShowFiles(_) | CompletionQuery::Files(_)),
        entries: matches!(query, CompletionQuery::Directory(_) | CompletionQuery::Checkout(_)),
        branches: matches!(
            query,
            CompletionQuery::Checkout(_) | CompletionQuery::Switch(_) | CompletionQuery::Branches(_)
        ),
        local_branches: matches!(query, CompletionQuery::Deletable(_)),
        tags: matches!(query, CompletionQuery::Switch(_)),
        untracked_files: matches!(query, CompletionQuery::UntrackedFiles(_)),
        tracked_files: matches!(query, CompletionQuery::TrackedFiles(_)),
        logs: matches!(query, CompletionQuery::Commits(_)),
    }
}

/// The directory whose entries a query asks for, relative to the workspace.
pub open spec fn directory_of(query: CompletionQuery<Seq<char>, Seq<Seq<char>>>) -> Option<
    Seq<char>,
> {
    match query {
        CompletionQuery::Directory(token) => Some(token_directory(token)),
        CompletionQuery::Checkout(token) => Some(token_directory(token)),
        _ => None,
    }
}

/// Tells which directory's entries a query asks for.
pub fn searched_directory(query: &CompletionQuery<String, Vec<String>>) -> (r: Option<&str>)
    ensures
        opt_str(r) == directory_of(query@),
{
    match query {
        CompletionQuery::Directory(token) | CompletionQuery::Checkout(token) => {
            let (directory, _) = split_token(token.as_str());
            Some(directory)
        },
        _ => None,
    }
}

/// Whether the log of another branch is to be asked for.
pub open spec fn another_log(
    query: CompletionQuery<Seq<char>, Seq<Seq<char>>>,
    logs: Seq<RunResult>,
) -> bool {
    query matches CompletionQuery::Commits(token) && !logs_answer(logs, token)
}

/// Tells whether the log of another branch is to be asked for.
pub fn wants_another_log(
    query: &CompletionQuery<String, Vec<String>>,
    logs: &Vec<RunResult>,
) -> (r: bool)
    ensures
        r == another_log(query@, logs@),
{
    match query {
        CompletionQuery::Commits(token) => !commits_are_settled(logs, token.as_str()),
        _ => false,
    }
}

/// What has been gathered for a completion. Outside of a repository git has
/// answered nothing.
pub struct CompletionData {
    pub files: Vec<WorkspaceFile>,
    pub entries: Vec<DirectoryEntry>,
    pub rules: Option<IgnoreRules>,
    pub branches: Option<RunResult>,
    pub local_branches: Option<RunResult>,
    pub tags: Option<RunResult>,
    pub untracked_files: Option<RunResult>,
    pub tracked_files: Option<RunResult>,
    pub logs: Vec<RunResult>,
}

impl CompletionData {
    /// The entries of the directory are well-formed.
    pub open spec fn wf(&self) -> bool {
        forall|i: int| 0 <= i < self.entries@.len() ==> (#[trigger] self.entries@[i]).wf()
    }
}

/// What git printed of its files, by way of `pick`.
pub open spec fn printed_files(
    run: Option<RunResult>,
    pick: spec_fn(Seq<char>) -> Seq<Seq<char>>,
) -> Seq<Seq<char>> {
    match run {
        Some(r) => match successful_out(r) {
            Some(text) => pick(text),
            None => seq![],
        },
        None => seq![],
    }
}

/// The candidates that answer a query.
pub open spec fn query_candidates(
    query: CompletionQuery<Seq<char>, Seq<Seq<char>>>,
    data: CompletionData,
) -> Seq<Seq<char>> {
    match query {
        CompletionQuery::Listed(list) => list,
        CompletionQuery::ShowFiles(token) => deduplicated(
            sorted_texts(matching_files(data.files@, token)),
        ),
        CompletionQuery::Files(token) => sorted_texts(matching_files(data.files@, token)),
        CompletionQuery::Directory(token) => sorted_texts(
            matching_entries(data.entries@, token, data.rules),
        ),
        CompletionQuery::Checkout(token) => joined_once(
            starting_with(repository_names(data.branches, false), token),
            sorted_texts(matching_entries(data.entries@, token, data.rules)),
        ),
        CompletionQuery::Switch(token) => starting_with(refs_of(data.branches, data.tags), token),
        CompletionQuery::UntrackedFiles(token) => printed_files(
            data.untracked_files,
            |text: Seq<char>| untracked_in(text, token),
        ),
        CompletionQuery::TrackedFiles(token) => printed_files(
            data.tracked_files,
            |text: Seq<char>| tracked_in(text, token),
        ),
        CompletionQuery::Commits(token) => offered_commits(data.logs@, token),
        CompletionQuery::Branches(token) => starting_with(
            repository_names(data.branches, false),
            token,
        ),
        CompletionQuery::Deletable(token) => unprotected(
            starting_with(repository_names(data.local_branches, true), token),
        ),
    }
}

/// The candidates that answer a query, out of what has been gathered for it.
pub fn completion_candidates(
    query: CompletionQuery<String, Vec<String>>,
    data: &CompletionData,
) -> (r: Vec<String>)
    requires
        data.wf(),
    ensures
        texts(r@) == query_candidates(query@, *data),
{
    match query {
        CompletionQuery::Listed(list) => list,
        CompletionQuery::ShowFiles(token) => show_file_completion_candidates(
            token.as_str(),
            &data.files,
        ),
        CompletionQuery::Files(token) => open_file_completion_candidates(
            token.as_str(),
            &data.files,
        ),
        CompletionQuery::Directory(token) => file_completion_candidates(
            token.as_str(),
            &data.entries,
            &data.rules,
        ),
        CompletionQuery::Checkout(token) => {
            let files = file_completion_candidates(token.as_str(), &data.entries, &data.rules);
            checkout_completion_candidates(token.as_str(), &data.branches, &files)
        },
        CompletionQuery::Switch(token) => switch_completion_candidates(
            token.as_str(),
            &data.branches,
            &data.tags,
        ),
        CompletionQuery::UntrackedFiles(token) => add_file_completion_candidates(
            token.as_str(),
            &data.untracked_files,
        ),
        CompletionQuery::TrackedFiles(token) => remove_file_completion_candidates(
            token.as_str(),
            &data.tracked_files,
        ),
        CompletionQuery::Commits(token) => cherry_pick_completion_candidates(
            token.as_str(),
            &data.logs,
        ),
        CompletionQuery::Branches(token) => merge_completion_candidates(
            token.as_str(),
            &data.branches,
        ),
        CompletionQuery::Deletable(token) => delete_branch_completion_candidates(
            token.as_str(),
            &data.local_branches,
        ),
    }
}

/// What a query needs is all that its candidates depend on.
pub proof fn law_needs_suffice(
    query: CompletionQuery<Seq<char>, Seq<Seq<char>>>,
    a: CompletionData,
    b: CompletionData,
)
    requires
        ({
            let needs = needs_of(query);
            &&& needs.files ==> a.files@ == b.files@
            &&& needs.entries ==> a.entries@ == b.entries@ && a.rules == b.rules
            &&& needs.branches ==> a.branches == b.branches
            &&& needs.local_branches ==> a.local_branches == b.local_branches
            &&& needs.tags ==> a.tags == b.tags
            &&& needs.untracked_files ==> a.untracked_files == b.untracked_files
            &&& needs.tracked_files ==> a.tracked_files == b.tracked_files
            &&& needs.logs ==> a.logs@ == b.logs@
        }),
    ensures
        query_candidates(query, a) == query_candidates(query, b),
{
}

/// The line after Tab: the next candidate of a completion, or the first one of
/// a completion that begins at the cursor.
pub open spec fn completed(line: InputView, models: Seq<Seq<char>>, data: CompletionData) -> InputView {
    if line.completing() {
        line.next_candidate()
    } else {
        let goal = completion_goal(line.before, models);
        line.first_candidate(
            goal.start,
            line.before.len() as int,
            query_candidates(goal.query, data),
        )
    }
}

/// Completes the line at the cursor, out of what has been gathered for it.
pub fn apply_completion(input_state: &mut InputState, models: &Vec<String>, data: &CompletionData)
    requires
        old(input_state).wf(),
        data.wf(),
    ensures
        final(input_state).wf(),
        final(input_state)@ == completed(old(input_state)@, texts(models@), *data),
{
    if input_state.is_completing() {
        input_state.cycle_completion();
        return;
    }
    let ghost line = input_state@;
    let cursor = input_state.cursor();
    proof {
        lemma_chars_before(line.text(), line.before.len() as int);
        assert(line.text().take(line.before.len() as int) =~= line.before);
        lemma_byte_len_add(line.before, line.after);
        lemma_byte_len_bound(line.after);
    }
    let request = completion_request(input_state.as_str(), cursor, models);
    proof {
        let p = typed(line.text(), cursor as int);
        assert(p =~= line.before);
        let goal = completion_goal(p, texts(models@));
        assert(line.text().take(goal.start) =~= p.take(goal.start));
        lemma_chars_before(line.text(), goal.start);
    }
    let candidates = completion_candidates(request.query, data);
    input_state.begin_completion(request.start, request.end, candidates);
}

} // verus!
