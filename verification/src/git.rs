//! Workflows on a repository: which programs run, in which order, and what
//! their outcome means.
use vstd::prelude::*;
use vstd::string::*;
use vstd::utf8::*;

use crate::bytes::{
    fault_of, lossy_text, successful_out, text_of_bytes, utf8_fault, utf8_text, ProcessOutput,
    RunResult,
};
use crate::completion::{is_protected_branch, owned_list, protected_branch};
use crate::number::{decimal, format_u64};
use crate::paths::{file_name, name_of_path};
use crate::shell::{shell_words, words_of};
use crate::status::{colored_status, colorize_git_status};
use crate::text::{concat3, lemma_texts_push, opt_text, starts_with, str_eq, texts, trim, trimmed};

verus! {

/// Where a program runs.
#[derive(Clone, Copy, Debug, PartialEq, Eq, Structural)]
pub enum Place {
    /// Git, told by its option `-C` to work in the root of the repository.
    GitRoot,
    /// In the root of the repository.
    Root,
    /// In the workspace.
    Workspace,
    /// Wherever the client runs.
    Anywhere,
}

/// A program to run. `T` is a text, `L` a list of texts, and `B` are bytes. The
/// width of the terminal is handed on where `columns` is set.
#[derive(Debug, PartialEq, Eq)]
pub struct ProcessRequest<T, L, B> {
    pub program: T,
    pub args: L,
    pub place: Place,
    pub columns: bool,
    pub input: Option<B>,
}

impl View for ProcessRequest<String, Vec<String>, Vec<u8>> {
    type V = ProcessRequest<Seq<char>, Seq<Seq<char>>, Seq<u8>>;

    open spec fn view(&self) -> ProcessRequest<Seq<char>, Seq<Seq<char>>, Seq<u8>> {
        ProcessRequest {
            program: self.program@,
            args: texts(self.args@),
            place: self.place,
            columns: self.columns,
            input: match self.input {
                Some(b) => Some(b@),
                None => None,
            },
        }
    }
}

/// How far a workflow has come: the program that runs next. `T` is a text, and
/// `B` are bytes.
#[derive(Debug, PartialEq, Eq)]
pub enum GitStage<T, B> {
    Status,
    /// Looks for the alias `lg`.
    LogAlias,
    /// Prints the log, with the alias or without it.
    Log(bool),
    /// Checks a pull request out with `gh`.
    PullHub(u64),
    PullFetch(u64),
    /// Holds what the fetch printed.
    PullCheckout(u64, T),
    /// Asks `gh` for the default branch.
    RebaseView,
    /// Looks for the branch `main`, or for `master` the second time.
    RebaseProbe(bool),
    RebaseFetch(T),
    Rebase(T),
    /// Merges with `gh`.
    MergeHub(T),
    Merge(T),
    Checkout(T),
    Add(T),
    /// Removes a file, or a directory where the flag is set.
    Remove(T, bool),
    Move(T, T),
    CherryPick(T),
    Commit(T),
    /// Asks for the branch to push, by force where the flag is set.
    PushBranch(bool),
    Push(bool, T),
    /// Holds the workspace as it is shown.
    Init(T),
    DeleteBranch(T),
    /// Holds the path of the workspace in the repository.
    Diff(Option<T>),
    /// Asks for the pager of diffs, or for that of everything the second time.
    PagerKey(bool, B),
    /// Hands the diff to a pager.
    Pager(T, B),
}

impl View for GitStage<String, Vec<u8>> {
    type V = GitStage<Seq<char>, Seq<u8>>;

    open spec fn view(&self) -> GitStage<Seq<char>, Seq<u8>> {
        match *self {
            GitStage::Status => GitStage::Status,
            GitStage::LogAlias => GitStage::LogAlias,
            GitStage::Log(b) => GitStage::Log(b),
            GitStage::PullHub(n) => GitStage::PullHub(n),
            GitStage::PullFetch(n) => GitStage::PullFetch(n),
            GitStage::PullCheckout(n, t) => GitStage::PullCheckout(n, t@),
            GitStage::RebaseView => GitStage::RebaseView,
            GitStage::RebaseProbe(b) => GitStage::RebaseProbe(b),
            GitStage::RebaseFetch(t) => GitStage::RebaseFetch(t@),
            GitStage::Rebase(t) => GitStage::Rebase(t@),
            GitStage::MergeHub(t) => GitStage::MergeHub(t@),
            GitStage::Merge(t) => GitStage::Merge(t@),
            GitStage::Checkout(t) => GitStage::Checkout(t@),
            GitStage::Add(t) => GitStage::Add(t@),
            GitStage::Remove(t, b) => GitStage::Remove(t@, b),
            GitStage::Move(s, t) => GitStage::Move(s@, t@),
            GitStage::CherryPick(t) => GitStage::CherryPick(t@),
            GitStage::Commit(t) => GitStage::Commit(t@),
            GitStage::PushBranch(b) => GitStage::PushBranch(b),
            GitStage::Push(b, t) => GitStage::Push(b, t@),
            GitStage::Init(t) => GitStage::Init(t@),
            GitStage::DeleteBranch(t) => GitStage::DeleteBranch(t@),
            GitStage::Diff(o) => GitStage::Diff(opt_text(o)),
            GitStage::PagerKey(b, d) => GitStage::PagerKey(b, d@),
            GitStage::Pager(t, d) => GitStage::Pager(t@, d@),
        }
    }
}

/// What follows a stage: another one, or the end with an answer or a reason why
/// there is none.
#[derive(Debug, PartialEq, Eq)]
pub enum GitNext<T, B> {
    Continue(GitStage<T, B>),
    Done(Result<T, T>),
}

impl View for GitNext<String, Vec<u8>> {
    type V = GitNext<Seq<char>, Seq<u8>>;

    open spec fn view(&self) -> GitNext<Seq<char>, Seq<u8>> {
        match *self {
            GitNext::Continue(stage) => GitNext::Continue(stage@),
            GitNext::Done(Ok(t)) => GitNext::Done(Ok(t@)),
            GitNext::Done(Err(t)) => GitNext::Done(Err(t@)),
        }
    }
}

/// The name of the key that holds a pager.
pub open spec fn pager_key(second: bool) -> Seq<char> {
    if second {
        "core.pager"@
    } else {
        "pager.diff"@
    }
}

/// The branch of a pull request.
pub open spec fn pull_branch(n: u64) -> Seq<char> {
    "pr-"@ + decimal(n as nat)
}

/// Where a pull request is fetched from and to.
pub open spec fn pull_refspec(n: u64) -> Seq<char> {
    "pull/"@ + decimal(n as nat) + "/head:"@ + pull_branch(n)
}

/// The arguments of the program of a stage.
pub open spec fn stage_args(stage: GitStage<Seq<char>, Seq<u8>>, width: nat) -> Seq<Seq<char>> {
    match stage {
        GitStage::Status => seq!["status"@, "--branch"@, "--short"@],
        GitStage::LogAlias => seq!["config"@, "--global"@, "--get"@, "alias.lg"@],
        GitStage::Log(alias) => if alias {
            seq!["-c"@, "color.ui=always"@, "lg"@]
        } else {
            seq![
                "-c"@,
                "color.ui=always"@,
                "log"@,
                "--color=always"@,
                "--graph"@,
                "--oneline"@,
                "--decorate"@,
            ]
        },
        GitStage::PullHub(n) => seq!["pr"@, "checkout"@, decimal(n as nat)],
        GitStage::PullFetch(n) => seq!["fetch"@, "origin"@, "--force"@, pull_refspec(n)],
        GitStage::PullCheckout(n, _) => seq!["checkout"@, pull_branch(n)],
        GitStage::RebaseView => seq![
            "repo"@,
            "view"@,
            "--json"@,
            "defaultBranchRef"@,
            "--jq"@,
            ".defaultBranchRef.name"@,
        ],
        GitStage::RebaseProbe(second) => seq![
            "ls-remote"@,
            "--heads"@,
            "origin"@,
            if second { "master"@ } else { "main"@ },
        ],
        GitStage::RebaseFetch(branch) => seq!["fetch"@, "origin"@, branch],
        GitStage::Rebase(branch) => seq!["rebase"@, "origin/"@ + branch],
        GitStage::MergeHub(branch) => seq!["pr"@, "merge"@, "--merge"@, branch],
        GitStage::Merge(branch) => seq!["merge"@, branch],
        GitStage::Checkout(target) => seq!["checkout"@, target],
        GitStage::Add(path) => seq!["add"@, path],
        GitStage::Remove(path, is_dir) => if is_dir {
            seq!["rm"@, "-r"@, path]
        } else {
            seq!["rm"@, path]
        },
        GitStage::Move(source, destination) => seq!["mv"@, source, destination],
        GitStage::CherryPick(commit) => seq!["cherry-pick"@, commit],
        GitStage::Commit(message) => seq!["commit"@, "-a"@, "-m"@, message],
        GitStage::PushBranch(_) => seq!["branch"@, "--show-current"@],
        GitStage::Push(force, branch) => if force {
            seq!["push"@, "-f"@, "origin"@, branch]
        } else {
            seq!["push"@, "origin"@, branch]
        },
        GitStage::Init(_) => seq!["init"@],
        GitStage::DeleteBranch(branch) => seq!["branch"@, "-D"@, branch],
        GitStage::Diff(pathspec) => match pathspec {
            Some(path) => seq!["diff"@, "--color=always"@, "--"@, path],
            None => seq!["diff"@, "--color=always"@],
        },
        GitStage::PagerKey(second, _) => seq!["config"@, "--get"@, pager_key(second)],
        GitStage::Pager(command, _) => seq!["-lc"@, sized_pager(command, width)],
    }
}

/// The program of a stage.
pub open spec fn stage_program(stage: GitStage<Seq<char>, Seq<u8>>) -> Seq<char> {
    match stage {
        GitStage::PullHub(_) | GitStage::RebaseView | GitStage::MergeHub(_) => "gh"@,
        GitStage::Pager(_, _) => "sh"@,
        _ => "git"@,
    }
}

/// Where the program of a stage runs.
pub open spec fn stage_place(stage: GitStage<Seq<char>, Seq<u8>>) -> Place {
    match stage {
        GitStage::PullHub(_) | GitStage::RebaseView | GitStage::MergeHub(_) | GitStage::Pager(
            _,
            _,
        ) => Place::Root,
        GitStage::LogAlias => Place::Anywhere,
        GitStage::Init(_) => Place::Workspace,
        _ => Place::GitRoot,
    }
}

/// The program that a stage runs.
pub open spec fn stage_request(
    stage: GitStage<Seq<char>, Seq<u8>>,
    width: nat,
) -> ProcessRequest<Seq<char>, Seq<Seq<char>>, Seq<u8>> {
    ProcessRequest {
        program: stage_program(stage),
        args: stage_args(stage, width),
        place: stage_place(stage),
        columns: stage is Diff || stage is Pager,
        input: match stage {
            GitStage::Pager(_, diff) => Some(diff),
            _ => None,
        },
    }
}

/// The name of the executable that a command line begins with.
pub open spec fn executable_of(word: Seq<char>) -> Seq<char> {
    match name_of_path(word) {
        Some(name) => name,
        None => word,
    }
}

fn find_executable(word: &str) -> (r: String)
    ensures
        r@ == executable_of(word@),
{
    match file_name(word) {
        Some(name) => name,
        None => word.to_string(),
    }
}

/// Whether a pager waits for the user.
pub open spec fn interactive_pager(command: Seq<char>) -> bool {
    let first = match words_of(command) {
        Ok(words) => words[0],
        Err(_) => trimmed(command),
    };
    let name = executable_of(first);
    name == "less"@ || name == "more"@ || name == "most"@ || name == "lv"@
}

/// Tells whether a pager waits for the user.
pub fn looks_like_interactive_pager(command: &str) -> (r: bool)
    ensures
        r == interactive_pager(command@),
{
    let first = match shell_words(command) {
        Ok(words) => {
            assert(texts(words@).len() == words@.len());
            assert(texts(words@)[0] == words@[0]@);
            words[0].clone()
        },
        Err(_) => trim(command).to_string(),
    };
    let name = find_executable(first.as_str());
    let name = name.as_str();
    str_eq(name, "less") || str_eq(name, "more") || str_eq(name, "most") || str_eq(name, "lv")
}

/// Whether a word sets the width of the pager.
pub open spec fn sets_width(word: Seq<char>) -> bool {
    word == "--width"@ || "--width="@.is_prefix_of(word)
}

/// The command of a pager with the width of the terminal, where the pager is
/// one that needs it and has none.
pub open spec fn sized_pager(command: Seq<char>, width: nat) -> Seq<char> {
    match words_of(command) {
        Ok(words) => if executable_of(words[0]) == "delta"@ && !(exists|i: int|
            0 <= i < words.len() && sets_width(#[trigger] words[i])) {
            command + " --width="@ + decimal(width)
        } else {
            command
        },
        Err(_) => command,
    }
}

/// Tells a pager the width of the terminal.
pub fn with_explicit_pager_width(command: &str, terminal_width: usize) -> (r: String)
    ensures
        r@ == sized_pager(command@, terminal_width as nat),
{
    match shell_words(command) {
        Ok(words) => {
            assert(texts(words@).len() == words@.len());
            assert(texts(words@)[0] == words@[0]@);
            let executable = find_executable(words[0].as_str());
            if !str_eq(executable.as_str(), "delta") {
                return command.to_string();
            }
            let mut i: usize = 0;
            while i < words.len()
                invariant
                    i <= words@.len(),
                    words_of(command@) == Ok::<
                        Seq<Seq<char>>,
                        crate::shell::ShellWordsError,
                    >(texts(words@)),
                    forall|j: int| 0 <= j < i ==> !sets_width(#[trigger] texts(words@)[j]),
                decreases words.len() - i,
            {
                if str_eq(words[i].as_str(), "--width") || starts_with(
                    words[i].as_str(),
                    "--width=",
                ) {
                    assert(sets_width(texts(words@)[i as int]));
                    return command.to_string();
                }
                i += 1;
            }
            let mut r = command.to_string();
            r.append(" --width=");
            let digits = format_u64(terminal_width as u64);
            r.append(digits.as_str());
            r
        },
        Err(_) => command.to_string(),
    }
}

/// A list of arguments: fixed words, then one more.
fn args_with(words: &[&str], last: String) -> (r: Vec<String>)
    ensures
        texts(r@) == words@.map_values(|s: &str| s@).push(last@),
{
    let mut r = owned_list(words);
    let ghost before = r@;
    r.push(last);
    proof {
        lemma_texts_push(before, last);
    }
    r
}

fn concat(a: &str, b: &str) -> (r: String)
    ensures
        r@ == a@ + b@,
{
    let mut r = a.to_string();
    r.append(b);
    r
}

fn pull_branch_name(n: u64) -> (r: String)
    ensures
        r@ == pull_branch(n),
{
    let digits = format_u64(n);
    concat("pr-", digits.as_str())
}

fn find_stage_args(stage: &GitStage<String, Vec<u8>>, width: usize) -> (r: Vec<String>)
    ensures
        texts(r@) == stage_args(stage@, width as nat),
{
    let r = match stage {
        GitStage::Status => owned_list(&["status", "--branch", "--short"]),
        GitStage::LogAlias => owned_list(&["config", "--global", "--get", "alias.lg"]),
        GitStage::Log(alias) => if *alias {
            owned_list(&["-c", "color.ui=always", "lg"])
        } else {
            owned_list(
                &[
                    "-c",
                    "color.ui=always",
                    "log",
                    "--color=always",
                    "--graph",
                    "--oneline",
                    "--decorate",
                ],
            )
        },
        GitStage::PullHub(n) => args_with(&["pr", "checkout"], format_u64(*n)),
        GitStage::PullFetch(n) => {
            let digits = format_u64(*n);
            let branch = pull_branch_name(*n);
            let mut refspec = concat3("pull/", digits.as_str(), "/head:");
            refspec.append(branch.as_str());
            assert(refspec@ =~= pull_refspec(*n));
            args_with(&["fetch", "origin", "--force"], refspec)
        },
        GitStage::PullCheckout(n, _) => args_with(&["checkout"], pull_branch_name(*n)),
        GitStage::RebaseView => owned_list(
            &["repo", "view", "--json", "defaultBranchRef", "--jq", ".defaultBranchRef.name"],
        ),
        GitStage::RebaseProbe(second) => owned_list(
            &["ls-remote", "--heads", "origin", if *second { "master" } else { "main" }],
        ),
        GitStage::RebaseFetch(branch) => args_with(&["fetch", "origin"], branch.clone()),
        GitStage::Rebase(branch) => args_with(&["rebase"], concat("origin/", branch.as_str())),
        GitStage::MergeHub(branch) => args_with(&["pr", "merge", "--merge"], branch.clone()),
        GitStage::Merge(branch) => args_with(&["merge"], branch.clone()),
        GitStage::Checkout(target) => args_with(&["checkout"], target.clone()),
        GitStage::Add(path) => args_with(&["add"], path.clone()),
        GitStage::Remove(path, is_dir) => if *is_dir {
            args_with(&["rm", "-r"], path.clone())
        } else {
            args_with(&["rm"], path.clone())
        },
        GitStage::Move(source, destination) => owned_list(
            &["mv", source.as_str(), destination.as_str()],
        ),
        GitStage::CherryPick(commit) => args_with(&["cherry-pick"], commit.clone()),
        GitStage::Commit(message) => args_with(&["commit", "-a", "-m"], message.clone()),
        GitStage::PushBranch(_) => owned_list(&["branch", "--show-current"]),
        GitStage::Push(force, branch) => if *force {
            args_with(&["push", "-f", "origin"], branch.clone())
        } else {
            args_with(&["push", "origin"], branch.clone())
        },
        GitStage::Init(_) => owned_list(&["init"]),
        GitStage::DeleteBranch(branch) => args_with(&["branch", "-D"], branch.clone()),
        GitStage::Diff(pathspec) => match pathspec {
            Some(path) => args_with(&["diff", "--color=always", "--"], path.clone()),
            None => owned_list(&["diff", "--color=always"]),
        },
        GitStage::PagerKey(second, _) => owned_list(
            &["config", "--get", if *second { "core.pager" } else { "pager.diff" }],
        ),
        GitStage::Pager(command, _) => args_with(
            &["-lc"],
            with_explicit_pager_width(command.as_str(), width),
        ),
    };
    assert(texts(r@) =~= stage_args(stage@, width as nat));
    r
}

/// The program that a stage runs. `terminal_width` is the width of the
/// terminal.
pub fn git_request(stage: &GitStage<String, Vec<u8>>, terminal_width: usize) -> (r: ProcessRequest<
    String,
    Vec<String>,
    Vec<u8>,
>)
    ensures
        r@ == stage_request(stage@, terminal_width as nat),
{
    let program = match stage {
        GitStage::PullHub(_) | GitStage::RebaseView | GitStage::MergeHub(_) => "gh".to_string(),
        GitStage::Pager(_, _) => "sh".to_string(),
        _ => "git".to_string(),
    };
    let place = match stage {
        GitStage::PullHub(_) | GitStage::RebaseView | GitStage::MergeHub(_) | GitStage::Pager(
            _,
            _,
        ) => Place::Root,
        GitStage::LogAlias => Place::Anywhere,
        GitStage::Init(_) => Place::Workspace,
        _ => Place::GitRoot,
    };
    let columns = match stage {
        GitStage::Diff(_) | GitStage::Pager(_, _) => true,
        _ => false,
    };
    let input = match stage {
        GitStage::Pager(_, diff) => Some(diff.clone()),
        _ => None,
    };
    let args = find_stage_args(stage, terminal_width);
    ProcessRequest { program, args, place, columns, input }
}

/// Two texts, one below the other; an empty one leaves no line.
pub open spec fn stacked(a: Seq<char>, b: Seq<char>) -> Seq<char> {
    if a.len() == 0 {
        b
    } else if b.len() == 0 {
        a
    } else {
        a + seq!['\n'] + b
    }
}

fn stack(a: &str, b: &str) -> (r: String)
    ensures
        r@ == stacked(a@, b@),
{
    if a.is_empty() {
        b.to_string()
    } else if b.is_empty() {
        a.to_string()
    } else {
        let mut r = a.to_string();
        r.push('\n');
        r.append(b);
        assert(r@ =~= stacked(a@, b@));
        r
    }
}

/// A text, or another one where it is empty.
pub open spec fn or_else(text: Seq<char>, other: Seq<char>) -> Seq<char> {
    if text.len() == 0 {
        other
    } else {
        text
    }
}

fn text_or(text: String, other: String) -> (r: String)
    ensures
        r@ == or_else(text@, other@),
{
    if text.as_str().is_empty() {
        other
    } else {
        text
    }
}

/// A message with its detail.
pub open spec fn with_detail(message: Seq<char>, detail: Seq<char>) -> Seq<char> {
    if detail.len() == 0 {
        message
    } else {
        message + ": "@ + detail
    }
}

pub(crate) fn add_detail(message: &str, detail: &str) -> (r: String)
    ensures
        r@ == with_detail(message@, detail@),
{
    if detail.is_empty() {
        message.to_string()
    } else {
        concat3(message, ": ", detail)
    }
}

/// What a program printed, without white space around it.
pub open spec fn out_of(output: ProcessOutput) -> Seq<char> {
    trimmed(output.out_text())
}

/// What a program complained about, without white space around it.
pub open spec fn err_of(output: ProcessOutput) -> Seq<char> {
    trimmed(output.err_text())
}

pub(crate) fn trimmed_out(output: &ProcessOutput) -> (r: String)
    ensures
        r@ == out_of(*output),
{
    let text = text_of_bytes(&output.stdout);
    trim(text.as_str()).to_string()
}

pub(crate) fn trimmed_err(output: &ProcessOutput) -> (r: String)
    ensures
        r@ == err_of(*output),
{
    let text = text_of_bytes(&output.stderr);
    trim(text.as_str()).to_string()
}

/// The name under which a program that cannot be run is reported.
pub open spec fn run_name(stage: GitStage<Seq<char>, Seq<u8>>) -> Seq<char> {
    match stage {
        GitStage::Status => "git status"@,
        GitStage::LogAlias => "git config"@,
        GitStage::Log(_) => "git log"@,
        GitStage::PullHub(_) | GitStage::RebaseView | GitStage::MergeHub(_) => "gh"@,
        GitStage::PullFetch(_) | GitStage::RebaseFetch(_) => "git fetch"@,
        GitStage::PullCheckout(_, _) | GitStage::Checkout(_) => "git checkout"@,
        GitStage::RebaseProbe(_) => "git ls-remote"@,
        GitStage::Rebase(_) => "git rebase"@,
        GitStage::Merge(_) => "git merge"@,
        GitStage::Add(_) => "git add"@,
        GitStage::Remove(_, _) => "git rm"@,
        GitStage::Move(_, _) => "git mv"@,
        GitStage::CherryPick(_) => "git cherry-pick"@,
        GitStage::Commit(_) => "git commit"@,
        GitStage::PushBranch(_) => "git branch"@,
        GitStage::Push(_, _) => "git push"@,
        GitStage::Init(_) => "git init"@,
        GitStage::DeleteBranch(_) => "git branch -D"@,
        GitStage::Diff(_) => "git diff"@,
        GitStage::PagerKey(_, _) => "git config"@,
        GitStage::Pager(_, _) => "git pager"@,
    }
}

fn find_run_name(stage: &GitStage<String, Vec<u8>>) -> (r: &'static str)
    ensures
        r@ == run_name(stage@),
{
    match stage {
        GitStage::Status => "git status",
        GitStage::LogAlias => "git config",
        GitStage::Log(_) => "git log",
        GitStage::PullHub(_) | GitStage::RebaseView | GitStage::MergeHub(_) => "gh",
        GitStage::PullFetch(_) | GitStage::RebaseFetch(_) => "git fetch",
        GitStage::PullCheckout(_, _) | GitStage::Checkout(_) => "git checkout",
        GitStage::RebaseProbe(_) => "git ls-remote",
        GitStage::Rebase(_) => "git rebase",
        GitStage::Merge(_) => "git merge",
        GitStage::Add(_) => "git add",
        GitStage::Remove(_, _) => "git rm",
        GitStage::Move(_, _) => "git mv",
        GitStage::CherryPick(_) => "git cherry-pick",
        GitStage::Commit(_) => "git commit",
        GitStage::PushBranch(_) => "git branch",
        GitStage::Push(_, _) => "git push",
        GitStage::Init(_) => "git init",
        GitStage::DeleteBranch(_) => "git branch -D",
        GitStage::Diff(_) => "git diff",
        GitStage::PagerKey(_, _) => "git config",
        GitStage::Pager(_, _) => "git pager",
    }
}

/// The name under which a program that fails is reported.
pub open spec fn failure_name(stage: GitStage<Seq<char>, Seq<u8>>) -> Seq<char> {
    match stage {
        GitStage::PullHub(_) => "gh pr checkout"@,
        GitStage::MergeHub(_) => "gh pr merge"@,
        _ => run_name(stage),
    }
}

/// What is told when the program of a stage cannot be run.
pub open spec fn fault_text(stage: GitStage<Seq<char>, Seq<u8>>, reason: Seq<char>) -> Seq<char> {
    "failed to run "@ + run_name(stage) + ": "@ + reason
}

/// Whether the details of a failure are looked for on both outputs.
pub open spec fn reports_both(stage: GitStage<Seq<char>, Seq<u8>>) -> bool {
    match stage {
        GitStage::Rebase(_) | GitStage::Merge(_) | GitStage::Checkout(_) | GitStage::CherryPick(_)
        | GitStage::Commit(_) | GitStage::Push(_, _) | GitStage::DeleteBranch(_) => true,
        _ => false,
    }
}

/// What is told when the program of a stage fails.
pub open spec fn failure_text(stage: GitStage<Seq<char>, Seq<u8>>, output: ProcessOutput) -> Seq<
    char,
> {
    with_detail(
        failure_name(stage) + " failed"@,
        if reports_both(stage) {
            stacked(out_of(output), err_of(output))
        } else {
            err_of(output)
        },
    )
}

fn report_fault(stage: &GitStage<String, Vec<u8>>, reason: &str) -> (r: GitNext<String, Vec<u8>>)
    ensures
        r@ == GitNext::<Seq<char>, Seq<u8>>::Done(Err(fault_text(stage@, reason@))),
{
    let mut message = concat("failed to run ", find_run_name(stage));
    message.append(": ");
    message.append(reason);
    GitNext::Done(Err(message))
}

fn report_failure(stage: &GitStage<String, Vec<u8>>, output: &ProcessOutput) -> (r: GitNext<
    String,
    Vec<u8>,
>)
    ensures
        r@ == GitNext::<Seq<char>, Seq<u8>>::Done(Err(failure_text(stage@, *output))),
{
    let name = match stage {
        GitStage::PullHub(_) => "gh pr checkout",
        GitStage::MergeHub(_) => "gh pr merge",
        _ => find_run_name(stage),
    };
    let message = concat(name, " failed");
    let both = match stage {
        GitStage::Rebase(_) | GitStage::Merge(_) | GitStage::Checkout(_) | GitStage::CherryPick(_)
        | GitStage::Commit(_) | GitStage::Push(_, _) | GitStage::DeleteBranch(_) => true,
        _ => false,
    };
    let err = trimmed_err(output);
    let detail = if both {
        let out = trimmed_out(output);
        stack(out.as_str(), err.as_str())
    } else {
        err
    };
    GitNext::Done(Err(add_detail(message.as_str(), detail.as_str())))
}

/// A text, unless it shows nothing.
pub open spec fn unless_blank(text: Seq<char>, other: Seq<char>) -> Seq<char> {
    if trimmed(text).len() == 0 {
        other
    } else {
        text
    }
}

fn text_unless_blank(text: String, other: &str) -> (r: String)
    ensures
        r@ == unless_blank(text@, other@),
{
    if trim(text.as_str()).is_empty() {
        other.to_string()
    } else {
        text
    }
}

/// The answer of a workflow whose last stage succeeded.
pub open spec fn success_text(stage: GitStage<Seq<char>, Seq<u8>>, output: ProcessOutput) -> Seq<
    char,
> {
    match stage {
        GitStage::Status => unless_blank(
            colored_status(output.out_text()),
            "Nothing to commit, working tree clean."@,
        ),
        GitStage::Log(_) => unless_blank(output.out_text(), "No commits yet."@),
        GitStage::PullHub(n) => or_else(
            stacked(out_of(output), err_of(output)),
            "Checked out pull request #"@ + decimal(n as nat),
        ),
        GitStage::PullCheckout(n, fetched) => or_else(
            stacked(fetched, err_of(output)),
            "Switched to branch '"@ + pull_branch(n) + "'"@,
        ),
        GitStage::Rebase(branch) => or_else(out_of(output), "Rebased onto origin/"@ + branch),
        GitStage::MergeHub(branch) => or_else(
            stacked(out_of(output), err_of(output)),
            "Merged branch '"@ + branch + "'"@,
        ),
        GitStage::Merge(branch) => or_else(out_of(output), "Merged '"@ + branch + "'"@),
        GitStage::Checkout(target) => "Switched to '"@ + target + "'"@,
        GitStage::Add(path) => "Staged '"@ + path + "'"@,
        GitStage::Remove(path, _) => "Removed '"@ + path + "'"@,
        GitStage::Move(source, destination) => "Moved '"@ + source + "' to '"@ + destination + "'"@,
        GitStage::CherryPick(commit) => or_else(out_of(output), "Cherry-picked "@ + commit),
        GitStage::Commit(message) => or_else(out_of(output), "Committed: "@ + message),
        GitStage::Push(_, branch) => or_else(
            stacked(out_of(output), err_of(output)),
            "Pushed '"@ + branch + "' to origin"@,
        ),
        GitStage::Init(workspace) => or_else(
            out_of(output),
            "Initialized Git repository in "@ + workspace,
        ),
        GitStage::DeleteBranch(branch) => "Deleted branch '"@ + branch + "'"@,
        _ => output.out_text(),
    }
}

fn answer(stage: &GitStage<String, Vec<u8>>, output: &ProcessOutput) -> (r: String)
    ensures
        r@ == success_text(stage@, *output),
{
    match stage {
        GitStage::Status => {
            let raw = text_of_bytes(&output.stdout);
            text_unless_blank(
                colorize_git_status(raw.as_str()),
                "Nothing to commit, working tree clean.",
            )
        },
        GitStage::Log(_) => text_unless_blank(text_of_bytes(&output.stdout), "No commits yet."),
        GitStage::PullHub(n) => {
            let (out, err) = (trimmed_out(output), trimmed_err(output));
            let digits = format_u64(*n);
            text_or(
                stack(out.as_str(), err.as_str()),
                concat("Checked out pull request #", digits.as_str()),
            )
        },
        GitStage::PullCheckout(n, fetched) => {
            let err = trimmed_err(output);
            let branch = pull_branch_name(*n);
            text_or(
                stack(fetched.as_str(), err.as_str()),
                concat3("Switched to branch '", branch.as_str(), "'"),
            )
        },
        GitStage::Rebase(branch) => text_or(
            trimmed_out(output),
            concat("Rebased onto origin/", branch.as_str()),
        ),
        GitStage::MergeHub(branch) => {
            let (out, err) = (trimmed_out(output), trimmed_err(output));
            text_or(
                stack(out.as_str(), err.as_str()),
                concat3("Merged branch '", branch.as_str(), "'"),
            )
        },
        GitStage::Merge(branch) => text_or(
            trimmed_out(output),
            concat3("Merged '", branch.as_str(), "'"),
        ),
        GitStage::Checkout(target) => concat3("Switched to '", target.as_str(), "'"),
        GitStage::Add(path) => concat3("Staged '", path.as_str(), "'"),
        GitStage::Remove(path, _) => concat3("Removed '", path.as_str(), "'"),
        GitStage::Move(source, destination) => {
            let mut r = concat3("Moved '", source.as_str(), "' to '");
            r.append(destination.as_str());
            r.append("'");
            r
        },
        GitStage::CherryPick(commit) => text_or(
            trimmed_out(output),
            concat("Cherry-picked ", commit.as_str()),
        ),
        GitStage::Commit(message) => text_or(
            trimmed_out(output),
            concat("Committed: ", message.as_str()),
        ),
        GitStage::Push(_, branch) => {
            let (out, err) = (trimmed_out(output), trimmed_err(output));
            text_or(
                stack(out.as_str(), err.as_str()),
                concat3("Pushed '", branch.as_str(), "' to origin"),
            )
        },
        GitStage::Init(workspace) => text_or(
            trimmed_out(output),
            concat("Initialized Git repository in ", workspace.as_str()),
        ),
        GitStage::DeleteBranch(branch) => concat3("Deleted branch '", branch.as_str(), "'"),
        _ => text_of_bytes(&output.stdout),
    }
}

/// The end of a diff: its text, unless it shows nothing.
pub open spec fn diff_text(text: Seq<char>) -> Seq<char> {
    unless_blank(text, "No changes against the current branch."@)
}

/// What follows a look at a key of a pager. Pagers that wait for the user are
/// passed over, and without a pager the diff is shown as it is.
pub open spec fn after_pager_key(
    second: bool,
    diff: Seq<u8>,
    run: RunResult,
) -> GitNext<Seq<char>, Seq<u8>> {
    let next = if second {
        GitNext::Done(Ok(diff_text(lossy_text(diff))))
    } else {
        GitNext::Continue(GitStage::PagerKey(true, diff))
    };
    match run {
        RunResult::Finished(output) => if !output.success {
            next
        } else if !valid_utf8(output.stdout@) {
            GitNext::Done(
                Err(
                    "git config key "@ + pager_key(second) + " was not valid UTF-8: "@ + utf8_fault(
                        output.stdout@,
                    ),
                ),
            )
        } else {
            let value = trimmed(decode_utf8(output.stdout@));
            if value.len() == 0 || interactive_pager(value) {
                next
            } else {
                GitNext::Continue(GitStage::Pager(value, diff))
            }
        },
        _ => GitNext::Done(
            Err(
                "failed to read git config key "@ + pager_key(second) + ": "@ + fault_of(
                    run,
                ).unwrap(),
            ),
        ),
    }
}

/// What follows a run of a pager.
pub open spec fn after_pager(command: Seq<char>, width: nat, run: RunResult) -> Result<
    Seq<char>,
    Seq<char>,
> {
    let sized = sized_pager(command, width);
    match run {
        RunResult::Finished(output) => if !output.success {
            Err(with_detail("git pager failed"@, err_of(output)))
        } else if !valid_utf8(output.stdout@) {
            Err("git pager output was not UTF-8: "@ + utf8_fault(output.stdout@))
        } else {
            Ok(diff_text(decode_utf8(output.stdout@)))
        },
        RunResult::NotFound(reason) => Err(
            "failed to launch configured git pager '"@ + sized + "': "@ + reason@,
        ),
        RunResult::Failed(reason) => Err(
            "failed to launch configured git pager '"@ + sized + "': "@ + reason@,
        ),
        RunResult::WriteFailed(reason) => Err(
            "failed to write diff to git pager '"@ + sized + "': "@ + reason@,
        ),
        RunResult::ReadFailed(reason) => Err(
            "failed to read output from git pager '"@ + sized + "': "@ + reason@,
        ),
    }
}

/// What follows the question for the current branch. Protected branches are not
/// pushed by force.
pub open spec fn after_current_branch(force: bool, output: ProcessOutput) -> GitNext<
    Seq<char>,
    Seq<u8>,
> {
    let branch = out_of(output);
    if !output.success {
        GitNext::Done(Err("failed to determine current branch"@))
    } else if branch.len() == 0 {
        GitNext::Done(Err("could not determine current branch (detached HEAD?)"@))
    } else if force && protected_branch(branch) {
        GitNext::Done(Err("force push is not allowed on the '"@ + branch + "' branch"@))
    } else {
        GitNext::Continue(GitStage::Push(force, branch))
    }
}

/// What follows the question for the default branch, or the look for it.
pub open spec fn after_default_branch(
    stage: GitStage<Seq<char>, Seq<u8>>,
    output: ProcessOutput,
) -> GitNext<Seq<char>, Seq<u8>> {
    match stage {
        GitStage::RebaseView => if output.success && out_of(output).len() > 0 {
            GitNext::Continue(GitStage::RebaseFetch(out_of(output)))
        } else {
            GitNext::Continue(GitStage::RebaseProbe(false))
        },
        GitStage::RebaseProbe(second) => if output.success && output.stdout@.len() > 0 {
            GitNext::Continue(GitStage::RebaseFetch(if second { "master"@ } else { "main"@ }))
        } else if !second {
            GitNext::Continue(GitStage::RebaseProbe(true))
        } else {
            GitNext::Done(
                Err("could not determine the default branch (tried main and master)"@),
            )
        },
        _ => GitNext::Done(Ok(seq![])),
    }
}

/// What follows a program that ran to its end.
pub open spec fn after_finish(
    stage: GitStage<Seq<char>, Seq<u8>>,
    output: ProcessOutput,
) -> GitNext<Seq<char>, Seq<u8>> {
    match stage {
        GitStage::RebaseView | GitStage::RebaseProbe(_) => after_default_branch(stage, output),
        GitStage::PushBranch(force) => after_current_branch(force, output),
        _ => if !output.success {
            GitNext::Done(Err(failure_text(stage, output)))
        } else {
            match stage {
                GitStage::PullFetch(n) => GitNext::Continue(
                    GitStage::PullCheckout(n, err_of(output)),
                ),
                GitStage::RebaseFetch(branch) => GitNext::Continue(GitStage::Rebase(branch)),
                GitStage::Diff(_) => GitNext::Continue(
                    GitStage::PagerKey(false, output.stdout@),
                ),
                _ => GitNext::Done(Ok(success_text(stage, output))),
            }
        },
    }
}

/// The stage that takes over where a program is not installed.
pub open spec fn fallback(stage: GitStage<Seq<char>, Seq<u8>>) -> Option<
    GitStage<Seq<char>, Seq<u8>>,
> {
    match stage {
        GitStage::PullHub(n) => Some(GitStage::PullFetch(n)),
        GitStage::RebaseView => Some(GitStage::RebaseProbe(false)),
        GitStage::MergeHub(branch) => Some(GitStage::Merge(branch)),
        _ => None,
    }
}

/// What follows a stage whose program ended with `run`.
pub open spec fn stage_after(
    stage: GitStage<Seq<char>, Seq<u8>>,
    width: nat,
    run: RunResult,
) -> GitNext<Seq<char>, Seq<u8>> {
    match stage {
        GitStage::LogAlias => GitNext::Continue(GitStage::Log(successful_out(run) is Some)),
        GitStage::PagerKey(second, diff) => after_pager_key(second, diff, run),
        GitStage::Pager(command, _) => GitNext::Done(after_pager(command, width, run)),
        _ => match run {
            RunResult::Finished(output) => after_finish(stage, output),
            _ => if run is NotFound && fallback(stage) is Some {
                GitNext::Continue(fallback(stage).unwrap())
            } else {
                GitNext::Done(Err(fault_text(stage, fault_of(run).unwrap())))
            },
        },
    }
}

fn finish_diff(text: String) -> (r: GitNext<String, Vec<u8>>)
    ensures
        r@ == GitNext::<Seq<char>, Seq<u8>>::Done(Ok(diff_text(text@))),
{
    GitNext::Done(Ok(text_unless_blank(text, "No changes against the current branch.")))
}

pub(crate) fn find_fault(run: &RunResult) -> (r: Option<&str>)
    ensures
        match r {
            Some(s) => fault_of(*run) == Some(s@),
            None => fault_of(*run) is None && run is Finished,
        },
{
    match run {
        RunResult::Finished(_) => None,
        RunResult::NotFound(reason) => Some(reason.as_str()),
        RunResult::Failed(reason) => Some(reason.as_str()),
        RunResult::WriteFailed(reason) => Some(reason.as_str()),
        RunResult::ReadFailed(reason) => Some(reason.as_str()),
    }
}

fn advance_pager_key(second: bool, diff: Vec<u8>, run: RunResult) -> (r: GitNext<String, Vec<u8>>)
    ensures
        r@ == after_pager_key(second, diff@, run),
{
    let key = if second {
        "core.pager"
    } else {
        "pager.diff"
    };
    if let Some(reason) = find_fault(&run) {
        let mut message = concat3("failed to read git config key ", key, ": ");
        message.append(reason);
        return GitNext::Done(Err(message));
    }
    if let RunResult::Finished(output) = run {
        if output.success {
            let ghost bytes = output.stdout@;
            match utf8_text(output.stdout) {
                Ok(text) => {
                    let value = trim(text.as_str());
                    if !value.is_empty() && !looks_like_interactive_pager(value) {
                        return GitNext::Continue(GitStage::Pager(value.to_string(), diff));
                    }
                },
                Err(fault) => {
                    let mut message = concat3("git config key ", key, " was not valid UTF-8: ");
                    message.append(fault.as_str());
                    return GitNext::Done(Err(message));
                },
            }
        }
    }
    if second {
        finish_diff(text_of_bytes(&diff))
    } else {
        GitNext::Continue(GitStage::PagerKey(true, diff))
    }
}

fn advance_pager(command: &str, width: usize, run: RunResult) -> (r: GitNext<String, Vec<u8>>)
    ensures
        r@ == GitNext::<Seq<char>, Seq<u8>>::Done(after_pager(command@, width as nat, run)),
{
    let sized = with_explicit_pager_width(command, width);
    match run {
        RunResult::Finished(output) => {
            if !output.success {
                let err = trimmed_err(&output);
                return GitNext::Done(Err(add_detail("git pager failed", err.as_str())));
            }
            match utf8_text(output.stdout) {
                Ok(text) => finish_diff(text),
                Err(fault) => GitNext::Done(
                    Err(concat("git pager output was not UTF-8: ", fault.as_str())),
                ),
            }
        },
        RunResult::NotFound(reason) => {
            let mut message = concat3(
                "failed to launch configured git pager '",
                sized.as_str(),
                "': ",
            );
            message.append(reason.as_str());
            GitNext::Done(Err(message))
        },
        RunResult::Failed(reason) => {
            let mut message = concat3(
                "failed to launch configured git pager '",
                sized.as_str(),
                "': ",
            );
            message.append(reason.as_str());
            GitNext::Done(Err(message))
        },
        RunResult::WriteFailed(reason) => {
            let mut message = concat3(
                "failed to write diff to git pager '",
                sized.as_str(),
                "': ",
            );
            message.append(reason.as_str());
            GitNext::Done(Err(message))
        },
        RunResult::ReadFailed(reason) => {
            let mut message = concat3(
                "failed to read output from git pager '",
                sized.as_str(),
                "': ",
            );
            message.append(reason.as_str());
            GitNext::Done(Err(message))
        },
    }
}

fn advance_current_branch(force: bool, output: ProcessOutput) -> (r: GitNext<String, Vec<u8>>)
    ensures
        r@ == after_current_branch(force, output),
{
    if !output.success {
        return GitNext::Done(Err("failed to determine current branch".to_string()));
    }
    let branch = trimmed_out(&output);
    if branch.as_str().is_empty() {
        return GitNext::Done(
            Err("could not determine current branch (detached HEAD?)".to_string()),
        );
    }
    if force && is_protected_branch(branch.as_str()) {
        return GitNext::Done(
            Err(
                concat3("force push is not allowed on the '", branch.as_str(), "' branch"),
            ),
        );
    }
    GitNext::Continue(GitStage::Push(force, branch))
}

fn advance_finished(stage: GitStage<String, Vec<u8>>, output: ProcessOutput) -> (r: GitNext<
    String,
    Vec<u8>,
>)
    requires
        !(stage is LogAlias || stage is PagerKey || stage is Pager),
    ensures
        r@ == after_finish(stage@, output),
{
    match stage {
        GitStage::RebaseView => {
            let branch = trimmed_out(&output);
            if output.success && !branch.as_str().is_empty() {
                GitNext::Continue(GitStage::RebaseFetch(branch))
            } else {
                GitNext::Continue(GitStage::RebaseProbe(false))
            }
        },
        GitStage::RebaseProbe(second) => {
            if output.success && output.stdout.len() > 0 {
                let branch = if second {
                    "master"
                } else {
                    "main"
                };
                GitNext::Continue(GitStage::RebaseFetch(branch.to_string()))
            } else if !second {
                GitNext::Continue(GitStage::RebaseProbe(true))
            } else {
                GitNext::Done(
                    Err(
                        "could not determine the default branch (tried main and master)".to_string(),
                    ),
                )
            }
        },
        GitStage::PushBranch(force) => advance_current_branch(force, output),
        stage => {
            if !output.success {
                return report_failure(&stage, &output);
            }
            match stage {
                GitStage::PullFetch(n) => GitNext::Continue(
                    GitStage::PullCheckout(n, trimmed_err(&output)),
                ),
                GitStage::RebaseFetch(branch) => GitNext::Continue(GitStage::Rebase(branch)),
                GitStage::Diff(_) => GitNext::Continue(GitStage::PagerKey(false, output.stdout)),
                stage => GitNext::Done(Ok(answer(&stage, &output))),
            }
        },
    }
}

/// Goes on to what follows a stage whose program ended with `run`.
pub fn git_advance(
    stage: GitStage<String, Vec<u8>>,
    terminal_width: usize,
    run: RunResult,
) -> (r: GitNext<String, Vec<u8>>)
    ensures
        r@ == stage_after(stage@, terminal_width as nat, run),
{
    match stage {
        GitStage::LogAlias => {
            let alias = match run {
                RunResult::Finished(output) => output.success,
                _ => false,
            };
            GitNext::Continue(GitStage::Log(alias))
        },
        GitStage::PagerKey(second, diff) => advance_pager_key(second, diff, run),
        GitStage::Pager(command, _) => advance_pager(command.as_str(), terminal_width, run),
        stage => {
            let missing = match run {
                RunResult::NotFound(_) => true,
                _ => false,
            };
            if missing {
                match &stage {
                    GitStage::PullHub(n) => {
                        return GitNext::Continue(GitStage::PullFetch(*n));
                    },
                    GitStage::RebaseView => {
                        return GitNext::Continue(GitStage::RebaseProbe(false));
                    },
                    GitStage::MergeHub(branch) => {
                        return GitNext::Continue(GitStage::Merge(branch.clone()));
                    },
                    _ => {},
                }
            }
            if let Some(reason) = find_fault(&run) {
                return report_fault(&stage, reason);
            }
            if let RunResult::Finished(output) = run {
                return advance_finished(stage, output);
            }
            report_fault(&stage, "")
        },
    }
}

/// How many more stages a workflow can have, this one counted.
pub open spec fn stages_left<T, B>(stage: GitStage<T, B>) -> nat {
    match stage {
        GitStage::RebaseView => 5,
        GitStage::RebaseProbe(second) => if second {
            3
        } else {
            4
        },
        GitStage::RebaseFetch(_) => 2,
        GitStage::PullHub(_) => 3,
        GitStage::PullFetch(_) => 2,
        GitStage::LogAlias | GitStage::MergeHub(_) | GitStage::PushBranch(_) => 2,
        GitStage::Diff(_) => 4,
        GitStage::PagerKey(second, _) => if second {
            2
        } else {
            3
        },
        _ => 1,
    }
}

/// Whether a stage spares the protected branches: none is pushed by force, and
/// none is deleted.
pub open spec fn spares_protected(stage: GitStage<Seq<char>, Seq<u8>>) -> bool {
    match stage {
        GitStage::Push(force, branch) => force ==> !protected_branch(branch),
        GitStage::DeleteBranch(branch) => !protected_branch(branch),
        _ => true,
    }
}

/// Every workflow ends: each stage leaves fewer stages than before.
pub proof fn law_workflows_end(
    stage: GitStage<Seq<char>, Seq<u8>>,
    width: nat,
    run: RunResult,
    next: GitStage<Seq<char>, Seq<u8>>,
)
    requires
        stage_after(stage, width, run) == GitNext::Continue(next),
    ensures
        stages_left(next) < stages_left(stage),
{
}

/// Protected branches stay spared, whatever the programs answer: a forced push
/// and a deletion never name one.
pub proof fn law_protected_branches_are_spared(
    stage: GitStage<Seq<char>, Seq<u8>>,
    width: nat,
    run: RunResult,
    next: GitStage<Seq<char>, Seq<u8>>,
)
    requires
        spares_protected(stage),
        stage_after(stage, width, run) == GitNext::Continue(next),
    ensures
        spares_protected(next),
        next matches GitStage::Push(force, branch) ==> force ==> stage_args(next, width) == seq![
            "push"@,
            "-f"@,
            "origin"@,
            branch,
        ] && !protected_branch(branch),
{
}

} // verus!
