//! Whole workflows on a repository: the programs that run for a command, one
//! after the other, and what comes of them.
use vstd::prelude::*;
use vstd::string::*;
use vstd::utf8::{decode_utf8, valid_utf8};

use crate::bytes::{lossy_text, utf8_fault, ProcessOutput, RunResult};
use crate::dispatch::{carried_out, git_begins, CommandOutcome, GitCommand, WorkspaceFacts};
use crate::git::{
    err_of, failure_name, interactive_pager, out_of, reports_both, sets_width, sized_pager,
    stage_after, stage_request, GitNext, GitStage, Place, ProcessRequest,
};
use crate::number::decimal;
use crate::paths::name_of_path;
use crate::pieces::law_plain_words_are_words;
use crate::status::colored_status;
use crate::text::{joined, trimmed, whitespace};

verus! {

/// A program to run, as contracts speak of it.
pub type Request = ProcessRequest<Seq<char>, Seq<Seq<char>>, Seq<u8>>;

/// The programs of a workflow, as long as there are answers to them: each run
/// decides what comes next.
pub open spec fn programs(
    next: GitNext<Seq<char>, Seq<u8>>,
    runs: Seq<RunResult>,
    width: nat,
) -> Seq<Request>
    decreases runs.len(),
{
    match next {
        GitNext::Done(_) => seq![],
        GitNext::Continue(stage) => if runs.len() == 0 {
            seq![stage_request(stage, width)]
        } else {
            seq![stage_request(stage, width)] + programs(
                stage_after(stage, width, runs[0]),
                runs.drop_first(),
                width,
            )
        },
    }
}

/// A run of git in the root of the repository.
pub open spec fn git_run(args: Seq<Seq<char>>) -> Request {
    ProcessRequest { program: "git"@, args, place: Place::GitRoot, columns: false, input: None }
}

/// A run of the client for GitHub.
pub open spec fn hub_run(args: Seq<Seq<char>>) -> Request {
    ProcessRequest { program: "gh"@, args, place: Place::Root, columns: false, input: None }
}

/// Whether a run of git pushes to a branch with an option, such as one that
/// overwrites it, or deletes the branch.
pub open spec fn overwrites(run: Request, branch: Seq<char>) -> bool {
    &&& run.program == "git"@
    &&& run.args.len() > 1
    &&& run.args.last() == branch
    &&& exists|i: int| 0 < i < run.args.len() && "-"@.is_prefix_of(#[trigger] run.args[i])
    &&& run.args[0] == "push"@ || run.args[0] == "branch"@
}

proof fn lemma_dash(text: Seq<char>)
    ensures
        "-"@.is_prefix_of(text) <==> text.len() > 0 && text[0] == '-',
{
    reveal_strlit("-");
    if text.len() > 0 && text[0] == '-' {
        assert("-"@ =~= text.subrange(0, 1));
    }
    if "-"@.is_prefix_of(text) {
        assert(text.subrange(0, 1)[0] == text[0]);
    }
}

proof fn lemma_stage_spares(stage: GitStage<Seq<char>, Seq<u8>>, width: nat)
    requires
        stage matches GitStage::Push(force, branch) ==> force ==> branch != "main"@ && branch
            != "master"@,
        stage matches GitStage::DeleteBranch(branch) ==> branch != "main"@ && branch != "master"@,
    ensures
        !overwrites(stage_request(stage, width), "main"@),
        !overwrites(stage_request(stage, width), "master"@),
{
    reveal_strlit("main");
    reveal_strlit("master");
    reveal_strlit("origin");
    reveal_strlit("push");
    reveal_strlit("branch");
    reveal_strlit("git");
    reveal_strlit("gh");
    reveal_strlit("sh");
    reveal_strlit("status");
    reveal_strlit("config");
    reveal_strlit("-c");
    reveal_strlit("fetch");
    reveal_strlit("checkout");
    reveal_strlit("ls-remote");
    reveal_strlit("rebase");
    reveal_strlit("merge");
    reveal_strlit("add");
    reveal_strlit("rm");
    reveal_strlit("mv");
    reveal_strlit("cherry-pick");
    reveal_strlit("commit");
    reveal_strlit("init");
    reveal_strlit("diff");
    reveal_strlit("--show-current");
    assert("branch"@[0] == 'b' && "push"@[0] == 'p');
    assert("status"@[0] == 's' && "config"@[0] == 'c' && "rebase"@[0] == 'r');
    assert("commit"@[0] == 'c' && "init"@[0] == 'i' && "diff"@[0] == 'd');
    assert("git"@.len() == 3);
    let args = stage_request(stage, width).args;
    assert forall|i: int| 0 <= i < args.len() implies ("-"@.is_prefix_of(#[trigger] args[i])
        <==> args[i].len() > 0 && args[i][0] == '-') by {
        lemma_dash(args[i]);
    }
}

/// Whatever git and the other programs answer, no command overwrites or deletes
/// the branches `main` and `master`.
pub proof fn law_main_and_master_are_never_overwritten(
    command: GitCommand<Seq<char>>,
    facts: WorkspaceFacts,
    runs: Seq<RunResult>,
    width: nat,
    i: int,
)
    requires
        0 <= i < programs(git_begins(command, facts), runs, width).len(),
    ensures
        !overwrites(programs(git_begins(command, facts), runs, width)[i], "main"@),
        !overwrites(programs(git_begins(command, facts), runs, width)[i], "master"@),
{
    lemma_programs_spare(git_begins(command, facts), runs, width, i);
}

proof fn lemma_programs_spare(
    next: GitNext<Seq<char>, Seq<u8>>,
    runs: Seq<RunResult>,
    width: nat,
    i: int,
)
    requires
        0 <= i < programs(next, runs, width).len(),
        next matches GitNext::Continue(stage) ==> {
            &&& stage matches GitStage::Push(force, branch) ==> force ==> branch != "main"@
                && branch != "master"@
            &&& stage matches GitStage::DeleteBranch(branch) ==> branch != "main"@ && branch
                != "master"@
        },
    ensures
        !overwrites(programs(next, runs, width)[i], "main"@),
        !overwrites(programs(next, runs, width)[i], "master"@),
    decreases runs.len(),
{
    if let GitNext::Continue(stage) = next {
        if i == 0 {
            lemma_stage_spares(stage, width);
        } else {
            lemma_programs_spare(
                stage_after(stage, width, runs[0]),
                runs.drop_first(),
                width,
                i - 1,
            );
        }
    }
}

/// A push is forced exactly on request: a plain one names the remote and the
/// branch and nothing else, and a forced one says so once.
pub proof fn law_push_is_forced_on_request_alone(force: bool, branch: Seq<char>, width: nat)
    ensures
        stage_request(GitStage::Push(false, branch), width) == git_run(
            seq!["push"@, "origin"@, branch],
        ),
        stage_request(GitStage::Push(true, branch), width) == git_run(
            seq!["push"@, "-f"@, "origin"@, branch],
        ),
        stage_request(GitStage::Push(force, branch), width).args.drop_last().contains("-f"@)
            <==> force,
{
    reveal_strlit("push");
    reveal_strlit("origin");
    reveal_strlit("-f");
    let args = stage_request(GitStage::Push(force, branch), width).args;
    if force {
        assert(args.drop_last()[1] == "-f"@);
    } else {
        assert(args.drop_last() =~= seq!["push"@, "origin"@]);
        assert("push"@.len() == 4 && "origin"@.len() == 6 && "-f"@.len() == 2);
    }
}

/// The current branch is pushed, as it was asked for: git is asked for the
/// branch, and its answer is what is pushed. Without a branch nothing is.
pub proof fn law_the_current_branch_is_pushed(
    force: bool,
    facts: WorkspaceFacts,
    output: ProcessOutput,
    width: nat,
)
    requires
        facts.in_repository,
    ensures
        ({
            let all = programs(
                git_begins(GitCommand::Push(force), facts),
                seq![RunResult::Finished(output)],
                width,
            );
            let branch = out_of(output);
            let refused = !output.success || branch.len() == 0 || (force && (branch == "main"@
                || branch == "master"@));
            &&& all[0] == git_run(seq!["branch"@, "--show-current"@])
            &&& refused ==> all.len() == 1
            &&& !refused && !force ==> all.len() == 2 && all[1] == git_run(
                seq!["push"@, "origin"@, branch],
            )
            &&& !refused && force ==> all.len() == 2 && all[1] == git_run(
                seq!["push"@, "-f"@, "origin"@, branch],
            )
        }),
{
    let runs = seq![RunResult::Finished(output)];
    reveal_with_fuel(programs, 3);
    assert(runs.drop_first() =~= seq![]);
}

/// Commands of one program run exactly that one, with what the user named as
/// one argument, whatever comes of it.
pub proof fn law_simple_commands_run_one_program(
    text: Seq<char>,
    target: Seq<char>,
    facts: WorkspaceFacts,
    runs: Seq<RunResult>,
    width: nat,
)
    requires
        facts.in_repository,
    ensures
        programs(git_begins(GitCommand::Checkout(text), facts), runs, width) == seq![
            git_run(seq!["checkout"@, text]),
        ],
        programs(git_begins(GitCommand::AddFile(text), facts), runs, width) == seq![
            git_run(seq!["add"@, text]),
        ],
        programs(git_begins(GitCommand::RemoveFile(text), facts), runs, width) == seq![
            git_run(
                if facts.removes_directory {
                    seq!["rm"@, "-r"@, text]
                } else {
                    seq!["rm"@, text]
                },
            ),
        ],
        programs(git_begins(GitCommand::MoveFile(text, target), facts), runs, width) == seq![
            git_run(seq!["mv"@, text, target]),
        ],
        programs(git_begins(GitCommand::CherryPick(text), facts), runs, width) == seq![
            git_run(seq!["cherry-pick"@, text]),
        ],
        programs(git_begins(GitCommand::Commit(text), facts), runs, width) == seq![
            git_run(seq!["commit"@, "-a"@, "-m"@, text]),
        ],
        programs(git_begins(GitCommand::Status, facts), runs, width) == seq![
            git_run(seq!["status"@, "--branch"@, "--short"@]),
        ],
        text != "main"@ && text != "master"@ ==> programs(
            git_begins(GitCommand::DeleteBranch(text), facts),
            runs,
            width,
        ) == seq![git_run(seq!["branch"@, "-D"@, text])],
{
    reveal_with_fuel(programs, 2);
    lemma_one_program(git_begins(GitCommand::Checkout(text), facts), runs, width);
    lemma_one_program(git_begins(GitCommand::AddFile(text), facts), runs, width);
    lemma_one_program(git_begins(GitCommand::RemoveFile(text), facts), runs, width);
    lemma_one_program(git_begins(GitCommand::MoveFile(text, target), facts), runs, width);
    lemma_one_program(git_begins(GitCommand::CherryPick(text), facts), runs, width);
    lemma_one_program(git_begins(GitCommand::Commit(text), facts), runs, width);
    lemma_one_program(git_begins(GitCommand::Status, facts), runs, width);
    lemma_one_program(git_begins(GitCommand::DeleteBranch(text), facts), runs, width);
}

proof fn lemma_one_program(
    next: GitNext<Seq<char>, Seq<u8>>,
    runs: Seq<RunResult>,
    width: nat,
)
    requires
        next matches GitNext::Continue(stage) ==> (runs.len() > 0 ==> stage_after(
            stage,
            width,
            runs[0],
        ) is Done),
    ensures
        next matches GitNext::Continue(stage) ==> programs(next, runs, width) == seq![
            stage_request(stage, width),
        ],
{
    if let GitNext::Continue(stage) = next {
        if runs.len() > 0 {
            let rest = programs(
                stage_after(stage, width, runs[0]),
                runs.drop_first(),
                width,
            );
            assert(rest =~= seq![]);
            assert(programs(next, runs, width) =~= seq![stage_request(stage, width)]);
        }
    }
}

/// A repository is created in the workspace itself, and that is the one command
/// that works outside of a repository: any other runs nothing there and says so.
pub proof fn law_only_init_works_outside_of_a_repository(
    command: GitCommand<Seq<char>>,
    facts: WorkspaceFacts,
    runs: Seq<RunResult>,
    width: nat,
)
    ensures
        programs(git_begins(GitCommand::InitRepo, facts), runs, width) == seq![
            ProcessRequest { place: Place::Workspace, ..git_run(seq!["init"@]) },
        ],
        !facts.in_repository && command != GitCommand::<Seq<char>>::InitRepo ==> {
            &&& programs(git_begins(command, facts), runs, width).len() == 0
            &&& git_begins(command, facts) matches GitNext::Done(Err(reason))
                && " is only available inside a Git repository"@.is_suffix_of(reason)
        },
{
    lemma_one_program(git_begins(GitCommand::InitRepo, facts), runs, width);
    if !facts.in_repository && command != GitCommand::<Seq<char>>::InitRepo {
        let end = " is only available inside a Git repository"@;
        if let GitNext::Done(Err(reason)) = git_begins(command, facts) {
            assert(end =~= reason.subrange(reason.len() - end.len(), reason.len() as int));
        }
    }
}

/// The branches `main` and `master` are not deleted: nothing runs, and the user
/// is told which branch was meant.
pub proof fn law_main_and_master_are_not_deleted(
    facts: WorkspaceFacts,
    runs: Seq<RunResult>,
    width: nat,
)
    requires
        facts.in_repository,
    ensures
        programs(git_begins(GitCommand::DeleteBranch("main"@), facts), runs, width).len() == 0,
        programs(git_begins(GitCommand::DeleteBranch("master"@), facts), runs, width).len() == 0,
        git_begins(GitCommand::DeleteBranch("main"@), facts) == GitNext::<Seq<char>, Seq<u8>>::Done(
            Err("deleting the '"@ + "main"@ + "' branch is not allowed"@),
        ),
        git_begins(GitCommand::DeleteBranch("master"@), facts) == GitNext::<
            Seq<char>,
            Seq<u8>,
        >::Done(Err("deleting the '"@ + "master"@ + "' branch is not allowed"@)),
{
}

/// A pull request is checked out with the client for GitHub. Where that is not
/// installed, git fetches it into a branch that bears its number, and checks
/// this branch out. A failure ends the workflow.
pub proof fn law_pull_requests_are_checked_out(
    n: u64,
    facts: WorkspaceFacts,
    hub: RunResult,
    fetch: ProcessOutput,
    width: nat,
)
    requires
        facts.in_repository,
    ensures
        ({
            let all = programs(
                git_begins(GitCommand::Pull(n), facts),
                seq![hub, RunResult::Finished(fetch)],
                width,
            );
            let number = decimal(n as nat);
            &&& all[0] == hub_run(seq!["pr"@, "checkout"@, number])
            &&& !(hub is NotFound) ==> all.len() == 1
            &&& hub is NotFound ==> all.len() == (if fetch.success {
                3
            } else {
                2int
            }) && all[1] == git_run(
                seq![
                    "fetch"@,
                    "origin"@,
                    "--force"@,
                    "pull/"@ + number + "/head:"@ + ("pr-"@ + number),
                ],
            )
            &&& hub is NotFound && fetch.success ==> all[2] == git_run(
                seq!["checkout"@, "pr-"@ + number],
            )
        }),
{
    let runs = seq![hub, RunResult::Finished(fetch)];
    reveal_with_fuel(programs, 4);
    assert(runs.drop_first() =~= seq![RunResult::Finished(fetch)]);
    assert(runs.drop_first().drop_first() =~= seq![]);
}

/// A rebase goes onto the default branch of the remote: the one that the client
/// for GitHub names, and it is fetched first. A fetch that fails ends it.
pub proof fn law_rebase_fetches_the_default_branch(
    facts: WorkspaceFacts,
    view: ProcessOutput,
    fetch: ProcessOutput,
    width: nat,
)
    requires
        facts.in_repository,
        view.success,
        out_of(view).len() > 0,
    ensures
        ({
            let all = programs(
                git_begins(GitCommand::Rebase, facts),
                seq![RunResult::Finished(view), RunResult::Finished(fetch)],
                width,
            );
            &&& all[0] == hub_run(
                seq![
                    "repo"@,
                    "view"@,
                    "--json"@,
                    "defaultBranchRef"@,
                    "--jq"@,
                    ".defaultBranchRef.name"@,
                ],
            )
            &&& all[1] == git_run(seq!["fetch"@, "origin"@, out_of(view)])
            &&& fetch.success ==> all.len() == 3 && all[2] == git_run(
                seq!["rebase"@, "origin/"@ + out_of(view)],
            )
            &&& !fetch.success ==> all.len() == 2
        }),
{
    let runs = seq![RunResult::Finished(view), RunResult::Finished(fetch)];
    reveal_with_fuel(programs, 4);
    assert(runs.drop_first() =~= seq![RunResult::Finished(fetch)]);
    assert(runs.drop_first().drop_first() =~= seq![]);
}

/// Where the default branch is not told, `main` is looked for at the remote, and
/// then `master`; the first that is there is fetched, and without any the
/// workflow ends.
pub proof fn law_rebase_looks_for_main_then_master(
    facts: WorkspaceFacts,
    view: RunResult,
    main: ProcessOutput,
    master: ProcessOutput,
    width: nat,
)
    requires
        facts.in_repository,
        view is NotFound || (view matches RunResult::Finished(output) && (!output.success
            || out_of(output).len() == 0)),
    ensures
        ({
            let all = programs(
                git_begins(GitCommand::Rebase, facts),
                seq![view, RunResult::Finished(main), RunResult::Finished(master)],
                width,
            );
            let has_main = main.success && main.stdout@.len() > 0;
            let has_master = master.success && master.stdout@.len() > 0;
            &&& all[1] == git_run(seq!["ls-remote"@, "--heads"@, "origin"@, "main"@])
            &&& has_main ==> all[2] == git_run(seq!["fetch"@, "origin"@, "main"@])
            &&& !has_main ==> all[2] == git_run(
                seq!["ls-remote"@, "--heads"@, "origin"@, "master"@],
            )
            &&& !has_main && has_master ==> all.len() == 4 && all[3] == git_run(
                seq!["fetch"@, "origin"@, "master"@],
            )
            &&& !has_main && !has_master ==> all.len() == 3
        }),
{
    let runs = seq![view, RunResult::Finished(main), RunResult::Finished(master)];
    reveal_with_fuel(programs, 5);
    assert(runs.drop_first() =~= seq![RunResult::Finished(main), RunResult::Finished(master)]);
    assert(runs.drop_first().drop_first() =~= seq![RunResult::Finished(master)]);
    assert(runs.drop_first().drop_first().drop_first() =~= seq![]);
}

/// A branch is merged with the client for GitHub, and with git where that is not
/// installed; nothing else runs.
pub proof fn law_merges_name_the_branch(
    branch: Seq<char>,
    facts: WorkspaceFacts,
    hub: RunResult,
    git: RunResult,
    width: nat,
)
    requires
        facts.in_repository,
    ensures
        ({
            let all = programs(
                git_begins(GitCommand::Merge(branch), facts),
                seq![hub, git],
                width,
            );
            &&& all[0] == hub_run(seq!["pr"@, "merge"@, "--merge"@, branch])
            &&& !(hub is NotFound) ==> all.len() == 1
            &&& hub is NotFound ==> all.len() == 2 && all[1] == git_run(seq!["merge"@, branch])
        }),
{
    let runs = seq![hub, git];
    reveal_with_fuel(programs, 3);
    assert(runs.drop_first() =~= seq![git]);
}

/// The log is printed with the alias of the user where there is one, and else
/// as a graph with one line for each commit; in colour either way.
pub proof fn law_log_honours_the_alias(
    facts: WorkspaceFacts,
    alias: RunResult,
    log: RunResult,
    width: nat,
)
    requires
        facts.in_repository,
    ensures
        ({
            let all = programs(git_begins(GitCommand::Log, facts), seq![alias, log], width);
            let has_alias = alias matches RunResult::Finished(output) && output.success;
            &&& all.len() == 2
            &&& all[0] == (ProcessRequest {
                place: Place::Anywhere,
                ..git_run(seq!["config"@, "--global"@, "--get"@, "alias.lg"@])
            })
            &&& has_alias ==> all[1] == git_run(seq!["-c"@, "color.ui=always"@, "lg"@])
            &&& !has_alias ==> all[1] == git_run(
                seq![
                    "-c"@,
                    "color.ui=always"@,
                    "log"@,
                    "--color=always"@,
                    "--graph"@,
                    "--oneline"@,
                    "--decorate"@,
                ],
            )
        }),
{
    let runs = seq![alias, log];
    reveal_with_fuel(programs, 3);
    assert(runs.drop_first() =~= seq![log]);
}

/// A diff is that of the workspace, in colour. The pager for diffs is looked for
/// first, and then the one for everything.
pub proof fn law_diff_is_that_of_the_workspace(
    facts: WorkspaceFacts,
    diff: ProcessOutput,
    key: ProcessOutput,
    width: nat,
)
    requires
        facts.in_repository,
        diff.success,
        !key.success,
    ensures
        ({
            let all = programs(
                git_begins(GitCommand::Diff, facts),
                seq![RunResult::Finished(diff), RunResult::Finished(key)],
                width,
            );
            let run = git_run(
                match facts.pathspec {
                    Some(path) => seq!["diff"@, "--color=always"@, "--"@, path@],
                    None => seq!["diff"@, "--color=always"@],
                },
            );
            &&& all.len() == 3
            &&& all[0] == (ProcessRequest { columns: true, ..run })
            &&& all[1] == git_run(seq!["config"@, "--get"@, "pager.diff"@])
            &&& all[2] == git_run(seq!["config"@, "--get"@, "core.pager"@])
        }),
{
    let runs = seq![RunResult::Finished(diff), RunResult::Finished(key)];
    reveal_with_fuel(programs, 4);
    assert(runs.drop_first() =~= seq![RunResult::Finished(key)]);
    assert(runs.drop_first().drop_first() =~= seq![]);
}

/// The end of a workflow that has gone wrong: what failed, and below each other
/// what the program has said about it, if anything.
pub open spec fn told(what: Seq<char>, first: Seq<char>, second: Seq<char>) -> GitNext<
    Seq<char>,
    Seq<u8>,
> {
    GitNext::Done(
        Err(
            if first.len() == 0 && second.len() == 0 {
                what
            } else if first.len() > 0 && second.len() > 0 {
                what + ": "@ + (first + "\n"@ + second)
            } else {
                what + ": "@ + (first + second)
            },
        ),
    )
}

proof fn lemma_failed(
    stage: GitStage<Seq<char>, Seq<u8>>,
    output: ProcessOutput,
    width: nat,
    name: Seq<char>,
    both: bool,
)
    requires
        !output.success,
        !(stage is RebaseView || stage is RebaseProbe || stage is PushBranch || stage is LogAlias
            || stage is PagerKey || stage is Pager),
        failure_name(stage) + " failed"@ == name,
        reports_both(stage) == both,
    ensures
        stage_after(stage, width, RunResult::Finished(output)) == told(
            name,
            if both {
                out_of(output)
            } else {
                seq![]
            },
            err_of(output),
        ),
{
    let out = out_of(output);
    let err = err_of(output);
    assert(seq!['\n'] == "\n"@) by {
        reveal_strlit("\n");
        assert(seq!['\n'] =~= "\n"@);
    }
    assert(Seq::<char>::empty() + err =~= err);
    assert(out.len() == 0 ==> out + err =~= err);
    assert(err.len() == 0 ==> out + err =~= out);
}

/// A program that fails ends the workflow, and the user is told which one and
/// why.
pub proof fn law_failures_are_told(
    text: Seq<char>,
    target: Seq<char>,
    flag: bool,
    output: ProcessOutput,
    width: nat,
)
    requires
        !output.success,
    ensures
        ({
            let after = |stage: GitStage<Seq<char>, Seq<u8>>|
                stage_after(stage, width, RunResult::Finished(output));
            let err = err_of(output);
            let none = Seq::<char>::empty();
            &&& after(GitStage::Status) == told("git status failed"@, none, err)
            &&& after(GitStage::Log(flag)) == told("git log failed"@, none, err)
            &&& after(GitStage::Add(text)) == told("git add failed"@, none, err)
            &&& after(GitStage::Remove(text, flag)) == told("git rm failed"@, none, err)
            &&& after(GitStage::Move(text, target)) == told("git mv failed"@, none, err)
            &&& after(GitStage::Init(text)) == told("git init failed"@, none, err)
            &&& after(GitStage::Diff(Some(text))) == told("git diff failed"@, none, err)
            &&& after(GitStage::Diff(None)) == told("git diff failed"@, none, err)
        }),
{
    let run = RunResult::Finished(output);
    let err = err_of(output);
    let none = Seq::<char>::empty();
    assert(stage_after(GitStage::Status, width, run) == told("git status failed"@, none, err)) by {
        reveal_strlit("git status");
        reveal_strlit(" failed");
        reveal_strlit("git status failed");
        assert("git status"@ + " failed"@ =~= "git status failed"@);
        lemma_failed(GitStage::Status, output, width, "git status failed"@, false);
    }
    assert(stage_after(GitStage::Log(flag), width, run) == told("git log failed"@, none, err)) by {
        reveal_strlit("git log");
        reveal_strlit(" failed");
        reveal_strlit("git log failed");
        assert("git log"@ + " failed"@ =~= "git log failed"@);
        lemma_failed(GitStage::Log(flag), output, width, "git log failed"@, false);
    }
    assert(stage_after(GitStage::Add(text), width, run) == told("git add failed"@, none, err)) by {
        reveal_strlit("git add");
        reveal_strlit(" failed");
        reveal_strlit("git add failed");
        assert("git add"@ + " failed"@ =~= "git add failed"@);
        lemma_failed(GitStage::Add(text), output, width, "git add failed"@, false);
    }
    assert(stage_after(GitStage::Remove(text, flag), width, run) == told("git rm failed"@, none, err)) by {
        reveal_strlit("git rm");
        reveal_strlit(" failed");
        reveal_strlit("git rm failed");
        assert("git rm"@ + " failed"@ =~= "git rm failed"@);
        lemma_failed(GitStage::Remove(text, flag), output, width, "git rm failed"@, false);
    }
    assert(stage_after(GitStage::Move(text, target), width, run) == told("git mv failed"@, none, err)) by {
        reveal_strlit("git mv");
        reveal_strlit(" failed");
        reveal_strlit("git mv failed");
        assert("git mv"@ + " failed"@ =~= "git mv failed"@);
        lemma_failed(GitStage::Move(text, target), output, width, "git mv failed"@, false);
    }
    assert(stage_after(GitStage::Init(text), width, run) == told("git init failed"@, none, err)) by {
        reveal_strlit("git init");
        reveal_strlit(" failed");
        reveal_strlit("git init failed");
        assert("git init"@ + " failed"@ =~= "git init failed"@);
        lemma_failed(GitStage::Init(text), output, width, "git init failed"@, false);
    }
    assert(stage_after(GitStage::Diff(Some(text)), width, run) == told("git diff failed"@, none, err)) by {
        reveal_strlit("git diff");
        reveal_strlit(" failed");
        reveal_strlit("git diff failed");
        assert("git diff"@ + " failed"@ =~= "git diff failed"@);
        lemma_failed(GitStage::Diff(Some(text)), output, width, "git diff failed"@, false);
    }
    assert(stage_after(GitStage::Diff(None), width, run) == told("git diff failed"@, none, err)) by {
        reveal_strlit("git diff");
        reveal_strlit(" failed");
        reveal_strlit("git diff failed");
        assert("git diff"@ + " failed"@ =~= "git diff failed"@);
        lemma_failed(GitStage::Diff(None), output, width, "git diff failed"@, false);
    }
}

/// So it is with the programs that bring in the work of others; what they print
/// is told as well where it is their own.
pub proof fn law_failed_merges_are_told(
    n: u64,
    text: Seq<char>,
    output: ProcessOutput,
    width: nat,
)
    requires
        !output.success,
    ensures
        ({
            let after = |stage: GitStage<Seq<char>, Seq<u8>>|
                stage_after(stage, width, RunResult::Finished(output));
            let out = out_of(output);
            let err = err_of(output);
            let none = Seq::<char>::empty();
            &&& after(GitStage::PullHub(n)) == told("gh pr checkout failed"@, none, err)
            &&& after(GitStage::PullFetch(n)) == told("git fetch failed"@, none, err)
            &&& after(GitStage::PullCheckout(n, text)) == told("git checkout failed"@, none, err)
            &&& after(GitStage::RebaseFetch(text)) == told("git fetch failed"@, none, err)
            &&& after(GitStage::Rebase(text)) == told("git rebase failed"@, out, err)
            &&& after(GitStage::MergeHub(text)) == told("gh pr merge failed"@, none, err)
            &&& after(GitStage::Merge(text)) == told("git merge failed"@, out, err)
        }),
{
    let run = RunResult::Finished(output);
    let out = out_of(output);
    let err = err_of(output);
    let none = Seq::<char>::empty();
    assert(stage_after(GitStage::PullHub(n), width, run) == told("gh pr checkout failed"@, none, err)) by {
        reveal_strlit("gh pr checkout");
        reveal_strlit(" failed");
        reveal_strlit("gh pr checkout failed");
        assert("gh pr checkout"@ + " failed"@ =~= "gh pr checkout failed"@);
        lemma_failed(GitStage::PullHub(n), output, width, "gh pr checkout failed"@, false);
    }
    assert(stage_after(GitStage::PullFetch(n), width, run) == told("git fetch failed"@, none, err)) by {
        reveal_strlit("git fetch");
        reveal_strlit(" failed");
        reveal_strlit("git fetch failed");
        assert("git fetch"@ + " failed"@ =~= "git fetch failed"@);
        lemma_failed(GitStage::PullFetch(n), output, width, "git fetch failed"@, false);
    }
    assert(stage_after(GitStage::PullCheckout(n, text), width, run) == told("git checkout failed"@, none, err)) by {
        reveal_strlit("git checkout");
        reveal_strlit(" failed");
        reveal_strlit("git checkout failed");
        assert("git checkout"@ + " failed"@ =~= "git checkout failed"@);
        lemma_failed(GitStage::PullCheckout(n, text), output, width, "git checkout failed"@, false);
    }
    assert(stage_after(GitStage::RebaseFetch(text), width, run) == told("git fetch failed"@, none, err)) by {
        reveal_strlit("git fetch");
        reveal_strlit(" failed");
        reveal_strlit("git fetch failed");
        assert("git fetch"@ + " failed"@ =~= "git fetch failed"@);
        lemma_failed(GitStage::RebaseFetch(text), output, width, "git fetch failed"@, false);
    }
    assert(stage_after(GitStage::Rebase(text), width, run) == told("git rebase failed"@, out, err)) by {
        reveal_strlit("git rebase");
        reveal_strlit(" failed");
        reveal_strlit("git rebase failed");
        assert("git rebase"@ + " failed"@ =~= "git rebase failed"@);
        lemma_failed(GitStage::Rebase(text), output, width, "git rebase failed"@, true);
    }
    assert(stage_after(GitStage::MergeHub(text), width, run) == told("gh pr merge failed"@, none, err)) by {
        reveal_strlit("gh pr merge");
        reveal_strlit(" failed");
        reveal_strlit("gh pr merge failed");
        assert("gh pr merge"@ + " failed"@ =~= "gh pr merge failed"@);
        lemma_failed(GitStage::MergeHub(text), output, width, "gh pr merge failed"@, false);
    }
    assert(stage_after(GitStage::Merge(text), width, run) == told("git merge failed"@, out, err)) by {
        reveal_strlit("git merge");
        reveal_strlit(" failed");
        reveal_strlit("git merge failed");
        assert("git merge"@ + " failed"@ =~= "git merge failed"@);
        lemma_failed(GitStage::Merge(text), output, width, "git merge failed"@, true);
    }
}

/// And so with the programs that change the history: what they print is told
/// before what they complain about.
pub proof fn law_failed_changes_are_told(
    text: Seq<char>,
    flag: bool,
    output: ProcessOutput,
    width: nat,
)
    requires
        !output.success,
    ensures
        ({
            let after = |stage: GitStage<Seq<char>, Seq<u8>>|
                stage_after(stage, width, RunResult::Finished(output));
            let out = out_of(output);
            let err = err_of(output);
            &&& after(GitStage::Checkout(text)) == told("git checkout failed"@, out, err)
            &&& after(GitStage::CherryPick(text)) == told("git cherry-pick failed"@, out, err)
            &&& after(GitStage::Commit(text)) == told("git commit failed"@, out, err)
            &&& after(GitStage::Push(flag, text)) == told("git push failed"@, out, err)
            &&& after(GitStage::DeleteBranch(text)) == told("git branch -D failed"@, out, err)
            &&& after(GitStage::PushBranch(flag)) == GitNext::<Seq<char>, Seq<u8>>::Done(
                Err("failed to determine current branch"@),
            )
        }),
{
    let run = RunResult::Finished(output);
    let out = out_of(output);
    let err = err_of(output);
    assert(stage_after(GitStage::Checkout(text), width, run) == told("git checkout failed"@, out, err)) by {
        reveal_strlit("git checkout");
        reveal_strlit(" failed");
        reveal_strlit("git checkout failed");
        assert("git checkout"@ + " failed"@ =~= "git checkout failed"@);
        lemma_failed(GitStage::Checkout(text), output, width, "git checkout failed"@, true);
    }
    assert(stage_after(GitStage::CherryPick(text), width, run) == told("git cherry-pick failed"@, out, err)) by {
        reveal_strlit("git cherry-pick");
        reveal_strlit(" failed");
        reveal_strlit("git cherry-pick failed");
        assert("git cherry-pick"@ + " failed"@ =~= "git cherry-pick failed"@);
        lemma_failed(GitStage::CherryPick(text), output, width, "git cherry-pick failed"@, true);
    }
    assert(stage_after(GitStage::Commit(text), width, run) == told("git commit failed"@, out, err)) by {
        reveal_strlit("git commit");
        reveal_strlit(" failed");
        reveal_strlit("git commit failed");
        assert("git commit"@ + " failed"@ =~= "git commit failed"@);
        lemma_failed(GitStage::Commit(text), output, width, "git commit failed"@, true);
    }
    assert(stage_after(GitStage::Push(flag, text), width, run) == told("git push failed"@, out, err)) by {
        reveal_strlit("git push");
        reveal_strlit(" failed");
        reveal_strlit("git push failed");
        assert("git push"@ + " failed"@ =~= "git push failed"@);
        lemma_failed(GitStage::Push(flag, text), output, width, "git push failed"@, true);
    }
    assert(stage_after(GitStage::DeleteBranch(text), width, run) == told("git branch -D failed"@, out, err)) by {
        reveal_strlit("git branch -D");
        reveal_strlit(" failed");
        reveal_strlit("git branch -D failed");
        assert("git branch -D"@ + " failed"@ =~= "git branch -D failed"@);
        lemma_failed(GitStage::DeleteBranch(text), output, width, "git branch -D failed"@, true);
    }
}

/// A program that cannot be started ends the workflow with the reason, unless
/// another one takes its place.
pub proof fn law_programs_that_do_not_start_are_told(
    stage: GitStage<Seq<char>, Seq<u8>>,
    reason: String,
    width: nat,
)
    requires
        !(stage is LogAlias),
    ensures
        ({
            let run = RunResult::Failed(reason);
            &&& stage_after(stage, width, run) matches GitNext::Done(Err(text))
                && reason@.is_suffix_of(text) && "failed to "@.is_prefix_of(text)
        }),
{
    reveal_strlit("failed to ");
    reveal_strlit("failed to run ");
    reveal_strlit("failed to read git config key ");
    reveal_strlit("failed to launch configured git pager '");
    if let GitNext::Done(Err(text)) = stage_after(stage, width, RunResult::Failed(reason)) {
        assert(reason@ =~= text.subrange(text.len() - reason@.len(), text.len() as int));
        assert("failed to "@ =~= text.subrange(0, "failed to "@.len() as int));
    }
}

/// What is told at the end: what the program has printed, and where it printed
/// nothing, what was done to what.
pub proof fn law_success_names_what_was_done(
    n: u64,
    text: Seq<char>,
    target: Seq<char>,
    flag: bool,
    output: ProcessOutput,
    width: nat,
)
    requires
        output.success,
    ensures
        ({
            let after = |stage: GitStage<Seq<char>, Seq<u8>>|
                stage_after(stage, width, RunResult::Finished(output));
            let done = |answer: Seq<char>|
                GitNext::<Seq<char>, Seq<u8>>::Done(Ok(answer));
            let out = out_of(output);
            let err = err_of(output);
            let silent = out.len() == 0 && err.len() == 0;
            &&& after(GitStage::Checkout(text)) == done("Switched to '"@ + text + "'"@)
            &&& after(GitStage::Add(text)) == done("Staged '"@ + text + "'"@)
            &&& after(GitStage::Remove(text, flag)) == done("Removed '"@ + text + "'"@)
            &&& after(GitStage::Move(text, target)) == done(
                "Moved '"@ + text + "' to '"@ + target + "'"@,
            )
            &&& after(GitStage::DeleteBranch(text)) == done("Deleted branch '"@ + text + "'"@)
            &&& out.len() == 0 ==> {
                &&& after(GitStage::Rebase(text)) == done("Rebased onto origin/"@ + text)
                &&& after(GitStage::Merge(text)) == done("Merged '"@ + text + "'"@)
                &&& after(GitStage::CherryPick(text)) == done("Cherry-picked "@ + text)
                &&& after(GitStage::Commit(text)) == done("Committed: "@ + text)
                &&& after(GitStage::Init(text)) == done("Initialized Git repository in "@ + text)
            }
            &&& out.len() > 0 ==> {
                &&& after(GitStage::Rebase(text)) == done(out)
                &&& after(GitStage::Merge(text)) == done(out)
                &&& after(GitStage::CherryPick(text)) == done(out)
                &&& after(GitStage::Commit(text)) == done(out)
                &&& after(GitStage::Init(text)) == done(out)
            }
            &&& silent ==> {
                &&& after(GitStage::PullHub(n)) == done(
                    "Checked out pull request #"@ + decimal(n as nat),
                )
                &&& after(GitStage::MergeHub(text)) == done("Merged branch '"@ + text + "'"@)
                &&& after(GitStage::Push(flag, text)) == done("Pushed '"@ + text + "' to origin"@)
            }
            &&& out.len() > 0 && err.len() > 0 ==> {
                &&& after(GitStage::PullHub(n)) == done(out + "\n"@ + err)
                &&& after(GitStage::MergeHub(text)) == done(out + "\n"@ + err)
                &&& after(GitStage::Push(flag, text)) == done(out + "\n"@ + err)
            }
            &&& !silent && (out.len() == 0 || err.len() == 0) ==> {
                &&& after(GitStage::PullHub(n)) == done(out + err)
                &&& after(GitStage::MergeHub(text)) == done(out + err)
                &&& after(GitStage::Push(flag, text)) == done(out + err)
            }
            &&& text.len() == 0 && err.len() == 0 ==> after(GitStage::PullCheckout(n, text))
                == done("Switched to branch '"@ + ("pr-"@ + decimal(n as nat)) + "'"@)
            &&& text.len() > 0 && err.len() > 0 ==> after(GitStage::PullCheckout(n, text))
                == done(text + "\n"@ + err)
            &&& (text.len() > 0) != (err.len() > 0) ==> after(GitStage::PullCheckout(n, text))
                == done(text + err)
        }),
{
    let out = out_of(output);
    let err = err_of(output);
    reveal_strlit("\n");
    assert(seq!['\n'] =~= "\n"@);
    assert(out.len() == 0 ==> out + err =~= err);
    assert(err.len() == 0 ==> out + err =~= out);
    assert(text.len() == 0 ==> text + err =~= err);
    assert(err.len() == 0 ==> text + err =~= text);
}

/// Only what is asked for with the eyes is answered: the answers to a diff, a
/// status and a log are shown, other commands succeed without a word, and what
/// goes wrong is always told.
pub proof fn law_errors_are_always_shown(shown: bool, answer: Seq<char>, reason: Seq<char>)
    ensures
        carried_out(true, Ok(answer)) == CommandOutcome::Output(answer),
        carried_out(false, Ok(answer)) == CommandOutcome::<Seq<char>>::Quiet,
        carried_out(shown, Err(reason)) == CommandOutcome::Output("Error: "@ + reason),
        crate::dispatch::shows_answer(GitCommand::<Seq<char>>::Diff),
        crate::dispatch::shows_answer(GitCommand::<Seq<char>>::Status),
        crate::dispatch::shows_answer(GitCommand::<Seq<char>>::Log),
        forall|command: GitCommand<Seq<char>>| #[trigger]
            crate::dispatch::shows_answer(command) ==> command is Diff || command is Status
                || command is Log,
{
}

/// A command line for a pager: words without any sign that the shell reads, with
/// blanks between them. The first one is the path of a program.
pub open spec fn pager_line(words: Seq<Seq<char>>, program: Seq<char>) -> bool {
    &&& words.len() > 0
    &&& name_of_path(words[0]) == Some(program)
    &&& forall|i: int| 0 <= i < words.len() ==> (#[trigger] words[i]).len() > 0
    &&& forall|i: int, k: int|
        0 <= i < words.len() && 0 <= k < words[i].len() ==> !whitespace(#[trigger] words[i][k])
            && words[i][k] != '"' && words[i][k] != '\'' && words[i][k] != '\\' && words[i][k]
            != '$' && words[i][k] != '`'
}

/// Pagers that wait for the user are known by the name of their program, wherever
/// it lies and whatever its options are.
pub proof fn law_pagers_that_wait_are_known(words: Seq<Seq<char>>, program: Seq<char>)
    requires
        pager_line(words, program),
    ensures
        interactive_pager(joined(words, seq![' '])) <==> (program == "less"@ || program == "more"@
            || program == "most"@ || program == "lv"@),
{
    law_plain_words_are_words(words);
}

/// The pager delta is told the width of the terminal unless its command line
/// sets one; other pagers are run as they are configured.
pub proof fn law_delta_is_told_the_width(
    words: Seq<Seq<char>>,
    program: Seq<char>,
    width: nat,
    i: int,
)
    requires
        pager_line(words, program),
    ensures
        program != "delta"@ ==> sized_pager(joined(words, seq![' ']), width) == joined(
            words,
            seq![' '],
        ),
        0 <= i < words.len() && (words[i] == "--width"@ || "--width="@.is_prefix_of(words[i]))
            ==> sized_pager(joined(words, seq![' ']), width) == joined(words, seq![' ']),
        program == "delta"@ && (forall|k: int|
            0 <= k < words.len() ==> #[trigger] words[k] != "--width"@ && !"--width="@.is_prefix_of(
                words[k],
            )) ==> sized_pager(joined(words, seq![' ']), width) == joined(words, seq![' '])
            + " --width="@ + decimal(width),
{
    law_plain_words_are_words(words);
    if 0 <= i < words.len() && (words[i] == "--width"@ || "--width="@.is_prefix_of(words[i])) {
        assert(sets_width(words[i]));
    }
    if program == "delta"@ && (forall|k: int|
        0 <= k < words.len() ==> #[trigger] words[k] != "--width"@ && !"--width="@.is_prefix_of(
            words[k],
        )) {
        assert forall|k: int| 0 <= k < words.len() implies !sets_width(#[trigger] words[k]) by {}
    }
}

/// A pager that is configured and does not wait for the user is handed the diff,
/// by way of the shell; one that waits is passed over for the next key, and
/// behind the second key the diff is shown as it is.
pub proof fn law_pagers_are_handed_the_diff(
    words: Seq<Seq<char>>,
    program: Seq<char>,
    second: bool,
    diff: Seq<u8>,
    output: ProcessOutput,
    width: nat,
)
    requires
        pager_line(words, program),
        output.success,
        valid_utf8(output.stdout@),
        trimmed(decode_utf8(output.stdout@)) == joined(words, seq![' ']),
    ensures
        ({
            let waits = program == "less"@ || program == "more"@ || program == "most"@ || program
                == "lv"@;
            let next = stage_after(
                GitStage::PagerKey(second, diff),
                width,
                RunResult::Finished(output),
            );
            let shown = lossy_text(diff);
            &&& !waits && program != "delta"@ ==> programs(next, seq![], width) == seq![
                ProcessRequest {
                    program: "sh"@,
                    args: seq!["-lc"@, joined(words, seq![' '])],
                    place: Place::Root,
                    columns: true,
                    input: Some(diff),
                },
            ]
            &&& waits && !second ==> next == GitNext::<Seq<char>, Seq<u8>>::Continue(
                GitStage::PagerKey(true, diff),
            )
            &&& waits && second && trimmed(shown).len() > 0 ==> next == GitNext::<
                Seq<char>,
                Seq<u8>,
            >::Done(Ok(shown))
            &&& waits && second && trimmed(shown).len() == 0 ==> next == GitNext::<
                Seq<char>,
                Seq<u8>,
            >::Done(Ok("No changes against the current branch."@))
        }),
{
    let command = joined(words, seq![' ']);
    law_pagers_that_wait_are_known(words, program);
    law_delta_is_told_the_width(words, program, width, -1);
    law_plain_words_are_words(words);
    assert(command.len() > 0) by {
        if command.len() == 0 {
            assert(crate::shell::shell_pieces(command) =~= seq![Seq::<char>::empty()]);
            assert(seq![Seq::<char>::empty()].drop_last() =~= seq![]);
            reveal_with_fuel(crate::shell::nonempty, 2);
        }
    }
    reveal_with_fuel(programs, 2);
}

/// A key that is not set, or set to nothing, leads on as one with a pager that
/// waits for the user does.
pub proof fn law_unset_pagers_are_passed_over(
    second: bool,
    diff: Seq<u8>,
    output: ProcessOutput,
    width: nat,
)
    requires
        !output.success || (valid_utf8(output.stdout@) && trimmed(
            decode_utf8(output.stdout@),
        ).len() == 0),
    ensures
        ({
            let next = stage_after(
                GitStage::PagerKey(second, diff),
                width,
                RunResult::Finished(output),
            );
            let shown = lossy_text(diff);
            &&& !second ==> next == GitNext::<Seq<char>, Seq<u8>>::Continue(
                GitStage::PagerKey(true, diff),
            )
            &&& second && trimmed(shown).len() > 0 ==> next == GitNext::<
                Seq<char>,
                Seq<u8>,
            >::Done(Ok(shown))
            &&& second && trimmed(shown).len() == 0 ==> next == GitNext::<
                Seq<char>,
                Seq<u8>,
            >::Done(Ok("No changes against the current branch."@))
        }),
{
}

/// What the pager prints is shown; where it fails, this is told.
pub proof fn law_output_of_pagers_is_shown(
    command: Seq<char>,
    diff: Seq<u8>,
    output: ProcessOutput,
    width: nat,
)
    requires
        valid_utf8(output.stdout@),
    ensures
        ({
            let next = stage_after(
                GitStage::Pager(command, diff),
                width,
                RunResult::Finished(output),
            );
            let shown = decode_utf8(output.stdout@);
            &&& !output.success ==> next == told("git pager failed"@, seq![], err_of(output))
            &&& output.success && trimmed(shown).len() > 0 ==> next == GitNext::<
                Seq<char>,
                Seq<u8>,
            >::Done(Ok(shown))
            &&& output.success && trimmed(shown).len() == 0 ==> next == GitNext::<
                Seq<char>,
                Seq<u8>,
            >::Done(Ok("No changes against the current branch."@))
        }),
{
    assert(Seq::<char>::empty() + err_of(output) =~= err_of(output));
}

/// An empty log and a clean status are put in words.
pub proof fn law_empty_answers_are_put_in_words(alias: bool, output: ProcessOutput, width: nat)
    requires
        output.success,
    ensures
        ({
            let log = stage_after(GitStage::Log(alias), width, RunResult::Finished(output));
            let status = stage_after(GitStage::Status, width, RunResult::Finished(output));
            let done = |answer: Seq<char>| GitNext::<Seq<char>, Seq<u8>>::Done(Ok(answer));
            let text = output.out_text();
            &&& trimmed(text).len() == 0 ==> log == done("No commits yet."@)
            &&& trimmed(text).len() > 0 ==> log == done(text)
            &&& trimmed(colored_status(text)).len() == 0 ==> status == done(
                "Nothing to commit, working tree clean."@,
            )
            &&& trimmed(colored_status(text)).len() > 0 ==> status == done(colored_status(text))
        }),
{
}

/// Outside of a repository a command is refused by its name.
pub proof fn law_refused_commands_are_named(
    facts: WorkspaceFacts,
    n: u64,
    text: Seq<char>,
    target: Seq<char>,
    flag: bool,
)
    requires
        !facts.in_repository,
    ensures
        ({
            let refused = |command: GitCommand<Seq<char>>, name: Seq<char>|
                git_begins(command, facts) == GitNext::<Seq<char>, Seq<u8>>::Done(
                    Err(name + " is only available inside a Git repository"@),
                );
            &&& refused(GitCommand::Diff, "diff"@)
            &&& refused(GitCommand::Status, "status"@)
            &&& refused(GitCommand::Log, "log"@)
            &&& refused(GitCommand::Pull(n), "pull"@)
            &&& refused(GitCommand::Rebase, "rebase"@)
            &&& refused(GitCommand::Merge(text), "merge"@)
            &&& refused(GitCommand::Checkout(text), "checkout"@)
            &&& refused(GitCommand::AddFile(text), "add_file"@)
            &&& refused(GitCommand::RemoveFile(text), "remove_file"@)
            &&& refused(GitCommand::MoveFile(text, target), "move_file"@)
            &&& refused(GitCommand::CherryPick(text), "cherry_pick"@)
            &&& refused(GitCommand::Commit(text), "commit"@)
            &&& refused(GitCommand::Push(flag), "push"@)
            &&& refused(GitCommand::DeleteBranch(text), "delete"@)
        }),
{
}

/// A key of a pager that cannot be read ends the diff, and so does one that is no
/// text; the user is told which key it is.
pub proof fn law_unreadable_keys_are_told(
    second: bool,
    diff: Seq<u8>,
    output: ProcessOutput,
    reason: String,
    width: nat,
)
    requires
        output.success,
        !valid_utf8(output.stdout@),
    ensures
        ({
            let after = |run: RunResult| stage_after(GitStage::PagerKey(second, diff), width, run);
            let told = |text: Seq<char>| GitNext::<Seq<char>, Seq<u8>>::Done(Err(text));
            let key = if second { "core.pager"@ } else { "pager.diff"@ };
            &&& after(RunResult::Finished(output)) == told(
                "git config key "@ + key + " was not valid UTF-8: "@ + utf8_fault(output.stdout@),
            )
            &&& after(RunResult::Failed(reason)) == told(
                "failed to read git config key "@ + key + ": "@ + reason@,
            )
            &&& after(RunResult::NotFound(reason)) == told(
                "failed to read git config key "@ + key + ": "@ + reason@,
            )
        }),
{
}

} // verus!
