use orangu_console::building::{
    build_command, build_label, build_output, is_newer, judge_shell, judge_step, next_build_step,
    runs_in_build_dir, shell_command, BuildStep, BuildSteps, FileStamp, ProjectFacts, StreamedRun,
};
use orangu_console::bytes::{ProcessOutput, RunResult};
use orangu_console::dispatch::{git_start, removal_probe, GitCommand, WorkspaceFacts};
use orangu_console::git::{
    git_advance, git_request, looks_like_interactive_pager, GitNext, GitStage, Place,
};
use orangu_console::repository::{
    discover_git_repository, normalize_path, parse_gitdir, workspace_branch_name, FoundRepository,
    GitEntry, PathComponent,
};
use orangu_console::terminal::current_terminal_width;

fn list(items: &[&str]) -> Vec<String> {
    items.iter().map(|s| s.to_string()).collect()
}

fn ended(success: bool, out: &str, err: &str) -> RunResult {
    RunResult::Finished(ProcessOutput {
        success,
        stdout: out.as_bytes().to_vec(),
        stderr: err.as_bytes().to_vec(),
    })
}

fn facts() -> WorkspaceFacts {
    WorkspaceFacts {
        in_repository: true,
        pathspec: None,
        display: "/work".to_string(),
        removes_directory: false,
    }
}

fn begin(command: GitCommand<String>) -> GitStage<String, Vec<u8>> {
    match git_start(command, facts()) {
        GitNext::Continue(stage) => stage,
        GitNext::Done(_) => panic!("the workflow ended at once"),
    }
}

/// Drives a workflow with the runs given, and returns the command lines and the
/// end.
fn drive(
    command: GitCommand<String>,
    runs: Vec<RunResult>,
) -> (Vec<String>, Result<String, String>) {
    let mut lines = vec![];
    let mut next = git_start(command, facts());
    let mut runs = runs.into_iter();
    loop {
        match next {
            GitNext::Done(result) => {
                assert!(runs.next().is_none(), "runs are left");
                return (lines, result);
            }
            GitNext::Continue(stage) => {
                let request = git_request(&stage, 123);
                lines.push(format!("{} {}", request.program, request.args.join(" ")));
                next = git_advance(stage, 123, runs.next().expect("a run"));
            }
        }
    }
}

#[test]
fn delete_branch_blocked_on_protected_branches() {
    for branch in ["main", "master"] {
        let result = git_start(GitCommand::DeleteBranch(branch.to_string()), facts());
        match result {
            GitNext::Done(Err(msg)) => assert!(
                msg.contains(branch),
                "error should mention branch name: {msg}"
            ),
            _ => panic!("should block deletion of '{branch}'"),
        }
    }
}

#[test]
fn git_needs_a_repository() {
    let mut outside = facts();
    outside.in_repository = false;
    match git_start(GitCommand::Status, outside) {
        GitNext::Done(Err(message)) => {
            assert!(message.ends_with(" is only available inside a Git repository"))
        }
        _ => panic!("expected a refusal"),
    }
    let mut outside = facts();
    outside.in_repository = false;
    assert_eq!(
        git_start(GitCommand::InitRepo, outside),
        GitNext::Continue(GitStage::Init("/work".to_string()))
    );
}

#[test]
fn init_repo_creates_git_repository() {
    let stage = begin(GitCommand::InitRepo);
    let request = git_request(&stage, 80);
    assert_eq!(request.args, list(&["init"]));
    assert_eq!(request.place, Place::Workspace);
    let (_, result) = drive(GitCommand::InitRepo, vec![ended(true, "", "")]);
    assert_eq!(result, Ok("Initialized Git repository in /work".to_string()));
}

#[test]
fn git_workspace_diff_is_colorized_and_unified() {
    let printed = "\u{1b}[1mdiff --git a/README.md b/README.md\u{1b}[m\n\u{1b}[36m@@ -1,3 +1,4 @@\u{1b}[m\n+changed\n+four\n";
    let (lines, result) = drive(
        GitCommand::Diff,
        vec![ended(true, printed, ""), ended(false, "", ""), ended(false, "", "")],
    );
    assert!(lines[0].contains("--color=always"));
    let diff = result.expect("git diff");
    assert!(diff.contains("\u{1b}["));
    assert!(diff.contains("@@"));
    assert!(diff.contains("diff --git"));
    assert!(diff.contains("changed"));
    assert!(diff.contains("four"));
}

#[test]
fn git_workspace_diff_honors_global_gitconfig() {
    let printed = "diff --git README.md README.md\n--- README.md\n+++ README.md\n";
    let (lines, result) = drive(
        GitCommand::Diff,
        vec![ended(true, printed, ""), ended(false, "", ""), ended(false, "", "")],
    );
    assert_eq!(lines[0], "git diff --color=always");
    let diff = result.expect("git diff");
    assert!(diff.contains("diff --git README.md README.md"));
    assert!(diff.contains("--- README.md"));
    assert!(diff.contains("+++ README.md"));
    assert!(!diff.contains("diff --git a/README.md b/README.md"));
}

#[test]
fn git_workspace_diff_uses_configured_noninteractive_pager() {
    let (lines, result) = drive(
        GitCommand::Diff,
        vec![
            ended(true, "diff --git a b\n", ""),
            ended(false, "", ""),
            ended(true, "/home/me/pager.sh\n", ""),
            ended(true, "PAGER-START WIDTH=123\ndiff --git a b\nPAGER-END\n", ""),
        ],
    );
    assert_eq!(
        lines,
        list(&[
            "git diff --color=always",
            "git config --get pager.diff",
            "git config --get core.pager",
            "sh -lc /home/me/pager.sh",
        ])
    );
    let diff = result.expect("git diff");
    assert!(diff.contains("PAGER-START WIDTH="));
    assert!(diff.contains("diff --git"));
    assert!(diff.ends_with("PAGER-END\n"));
}

#[test]
fn interactive_pagers_are_passed_over() {
    assert!(looks_like_interactive_pager("less -FRX"));
    assert!(looks_like_interactive_pager("/usr/bin/more"));
    assert!(!looks_like_interactive_pager("delta"));
    let (_, result) = drive(
        GitCommand::Diff,
        vec![
            ended(true, "changed\n", ""),
            ended(true, "less\n", ""),
            ended(true, "\n", ""),
        ],
    );
    assert_eq!(result, Ok("changed\n".to_string()));
    let (_, result) = drive(
        GitCommand::Diff,
        vec![ended(true, "", ""), ended(false, "", ""), ended(false, "", "")],
    );
    assert_eq!(result, Ok("No changes against the current branch.".to_string()));
}

#[test]
fn pagers_that_fail_are_reported() {
    let diff = || vec![ended(true, "x", ""), ended(true, "delta", "")];
    let mut runs = diff();
    runs.push(RunResult::WriteFailed("broken pipe".to_string()));
    assert_eq!(
        drive(GitCommand::Diff, runs).1,
        Err("failed to write diff to git pager 'delta --width=123': broken pipe".to_string())
    );
    let mut runs = diff();
    runs.push(RunResult::ReadFailed("gone".to_string()));
    assert_eq!(
        drive(GitCommand::Diff, runs).1,
        Err("failed to read output from git pager 'delta --width=123': gone".to_string())
    );
    let mut runs = diff();
    runs.push(RunResult::NotFound("no sh".to_string()));
    assert_eq!(
        drive(GitCommand::Diff, runs).1,
        Err("failed to launch configured git pager 'delta --width=123': no sh".to_string())
    );
    let mut runs = diff();
    runs.push(RunResult::Finished(ProcessOutput {
        success: true,
        stdout: vec![0xff],
        stderr: vec![],
    }));
    let message = drive(GitCommand::Diff, runs).1.expect_err("not text");
    assert!(message.starts_with("git pager output was not UTF-8: invalid utf-8"));
}

#[test]
fn bytes_that_are_no_text_are_replaced() {
    let (_, result) = drive(
        GitCommand::Log,
        vec![
            ended(false, "", ""),
            RunResult::Finished(ProcessOutput {
                success: true,
                stdout: vec![b'a', 0xff, b'b'],
                stderr: vec![],
            }),
        ],
    );
    assert_eq!(result, Ok("a\u{fffd}b".to_string()));
}

#[test]
fn pulls_fall_back_to_git() {
    let (lines, result) = drive(
        GitCommand::Pull(58),
        vec![
            RunResult::NotFound("no gh".to_string()),
            ended(true, "", " * [new ref] pull\n"),
            ended(true, "", "Switched\n"),
        ],
    );
    assert_eq!(
        lines,
        list(&[
            "gh pr checkout 58",
            "git fetch origin --force pull/58/head:pr-58",
            "git checkout pr-58",
        ])
    );
    assert_eq!(result, Ok("* [new ref] pull\nSwitched".to_string()));
    let (_, result) = drive(GitCommand::Pull(58), vec![ended(false, "", "denied\n")]);
    assert_eq!(result, Err("gh pr checkout failed: denied".to_string()));
}

#[test]
fn rebases_look_for_the_default_branch() {
    let (lines, result) = drive(
        GitCommand::Rebase,
        vec![
            ended(false, "", ""),
            ended(true, "", ""),
            ended(true, "abc\trefs/heads/master\n", ""),
            ended(true, "", ""),
            ended(true, "", ""),
        ],
    );
    assert_eq!(lines[3], "git fetch origin master");
    assert_eq!(lines[4], "git rebase origin/master");
    assert_eq!(result, Ok("Rebased onto origin/master".to_string()));
}

#[test]
fn force_pushes_spare_protected_branches() {
    let (lines, result) = drive(GitCommand::Push(true), vec![ended(true, "main\n", "")]);
    assert_eq!(lines, list(&["git branch --show-current"]));
    assert_eq!(
        result,
        Err("force push is not allowed on the 'main' branch".to_string())
    );
    let (lines, result) = drive(
        GitCommand::Push(true),
        vec![ended(true, "topic\n", ""), ended(true, "", "")],
    );
    assert_eq!(lines[1], "git push -f origin topic");
    assert_eq!(result, Ok("Pushed 'topic' to origin".to_string()));
    let (_, result) = drive(GitCommand::Push(false), vec![ended(true, "\n", "")]);
    assert_eq!(
        result,
        Err("could not determine current branch (detached HEAD?)".to_string())
    );
}

#[test]
fn failures_carry_what_git_said() {
    let (_, result) = drive(
        GitCommand::Commit("m".to_string()),
        vec![ended(false, "nothing to commit\n", "hint\n")],
    );
    assert_eq!(result, Err("git commit failed: nothing to commit\nhint".to_string()));
    let (_, result) = drive(
        GitCommand::AddFile("x".to_string()),
        vec![RunResult::Failed("denied".to_string())],
    );
    assert_eq!(result, Err("failed to run git add: denied".to_string()));
}

#[test]
fn directories_are_removed_with_their_contents() {
    let mut dir = facts();
    dir.removes_directory = true;
    let stage = match git_start(GitCommand::RemoveFile("src/".to_string()), dir) {
        GitNext::Continue(stage) => stage,
        GitNext::Done(_) => panic!("expected a stage"),
    };
    assert_eq!(git_request(&stage, 80).args, list(&["rm", "-r", "src/"]));
    assert_eq!(removal_probe("src/"), "src");
}

#[test]
fn discovers_git_branch_name_from_workspace() {
    assert_eq!(
        workspace_branch_name("ref: refs/heads/main\n").as_deref(),
        Some("main")
    );
    assert_eq!(workspace_branch_name("0123abcd\n"), None);
    assert_eq!(
        discover_git_repository(&vec![GitEntry::Directory]),
        Some(FoundRepository { place: 0, directory: None })
    );
}

#[test]
fn repositories_are_found_above_the_workspace() {
    assert_eq!(
        discover_git_repository(&vec![
            GitEntry::Missing,
            GitEntry::File(Some("gitdir: ../.git/worktrees/x\n".to_string())),
        ]),
        Some(FoundRepository {
            place: 1,
            directory: Some("../.git/worktrees/x".to_string())
        })
    );
    assert_eq!(
        discover_git_repository(&vec![GitEntry::File(None), GitEntry::Directory]),
        None
    );
    assert_eq!(discover_git_repository(&vec![GitEntry::Missing]), None);
    assert_eq!(parse_gitdir("nothing"), None);
}

fn path(text: &str) -> Vec<PathComponent<String>> {
    text.split('/')
        .map(|part| match part {
            "" => PathComponent::Root,
            "." => PathComponent::Current,
            ".." => PathComponent::Parent,
            _ => PathComponent::Normal(part.to_string()),
        })
        .collect()
}

#[test]
fn resolve_workspace_root_makes_relative_paths_absolute() {
    assert_eq!(normalize_path(path("/home/me/.")), path("/home/me"));
}

#[test]
fn resolve_workspace_root_normalizes_parent_segments() {
    assert_eq!(normalize_path(path("/home/me/src/../tests")), path("/home/me/tests"));
    assert_eq!(normalize_path(path("/../x")), path("/x"));
}

fn project() -> ProjectFacts {
    ProjectFacts {
        has_cargo_toml: false,
        has_cmake_lists: false,
        has_pom: false,
        has_clang_format: false,
        has_build_dir: false,
        has_cmake_cache: false,
        has_frontend: false,
        installed: FileStamp::Missing,
        package: FileStamp::Missing,
        package_lock: FileStamp::Missing,
    }
}

fn plan(facts: ProjectFacts) -> Vec<String> {
    let mut steps = BuildSteps::new();
    let mut lines = vec![];
    let mut step = build_output(&facts).ok();
    while let Some(s) = step {
        lines.extend(steps.announce(s));
        step = next_build_step(s, &facts);
    }
    lines
}

#[test]
fn builds_go_by_the_files_of_the_project() {
    assert_eq!(
        build_output(&project()),
        Err(
            "no supported project found (expected Cargo.toml, CMakeLists.txt, or pom.xml)"
                .to_string()
        )
    );
    let mut cargo = project();
    cargo.has_cargo_toml = true;
    assert_eq!(
        plan(cargo),
        list(&[
            "cargo fmt:", "", "cargo clippy:", "", "cargo build:", "", "cargo test:",
        ])
    );
    let mut cmake = project();
    cmake.has_cmake_lists = true;
    assert_eq!(build_output(&cmake), Ok(BuildStep::CreateBuildDir));
    assert_eq!(plan(cmake), list(&["cmake:", "", "make:"]));
    let mut maven = project();
    maven.has_pom = true;
    assert_eq!(plan(maven), list(&["mvn package:"]));
    maven.has_frontend = true;
    assert_eq!(build_output(&maven), Ok(BuildStep::NpmInstall));
    maven.installed = FileStamp::At(7);
    maven.package = FileStamp::At(6);
    assert_eq!(build_output(&maven), Ok(BuildStep::NpmFix));
}

#[test]
fn newer_files_are_told_by_their_times() {
    assert!(is_newer(FileStamp::At(2), FileStamp::At(1)));
    assert!(!is_newer(FileStamp::At(1), FileStamp::At(1)));
    assert!(is_newer(FileStamp::At(-1), FileStamp::At(-2)));
    assert!(!is_newer(FileStamp::At(-1), FileStamp::At(0)));
    assert!(is_newer(FileStamp::At(1), FileStamp::Missing));
    assert!(!is_newer(FileStamp::Missing, FileStamp::At(1)));
}

#[test]
fn steps_are_judged_by_their_runs() {
    assert_eq!(judge_step(BuildStep::Make, "build", StreamedRun::Succeeded), Ok(()));
    assert_eq!(
        judge_step(BuildStep::Make, "build", StreamedRun::Exited("1".to_string())),
        Err("make failed".to_string())
    );
    assert_eq!(
        judge_step(BuildStep::CreateBuildDir, "build", StreamedRun::SpawnFailed("no".to_string())),
        Err("failed to create build: no".to_string())
    );
    assert_eq!(
        judge_step(BuildStep::Cmake, "build", StreamedRun::SpawnFailed("no".to_string())),
        Err("failed to run cmake: no".to_string())
    );
    assert!(runs_in_build_dir(BuildStep::Cmake));
    assert!(!runs_in_build_dir(BuildStep::ClangFormat));
    assert_eq!(build_label(BuildStep::CreateBuildDir), None);
    assert_eq!(build_command(BuildStep::Cmake), list(&["cmake", ".."]));
}

#[test]
fn shells_are_judged_by_their_runs() {
    assert_eq!(shell_command("ls -l"), list(&["bash", "-lc", "ls -l"]));
    assert_eq!(judge_shell("ls", StreamedRun::Succeeded), Ok(()));
    assert_eq!(
        judge_shell("ls", StreamedRun::Exited("exit status: 2".to_string())),
        Err("command exited with exit status: 2".to_string())
    );
    assert_eq!(
        judge_shell("ls", StreamedRun::WaitFailed("gone".to_string())),
        Err("failed to wait for: ls: gone".to_string())
    );
}

#[test]
fn the_terminal_has_a_width() {
    assert_eq!(current_terminal_width(Some(132), Some("90")), 132);
    assert_eq!(current_terminal_width(None, Some("90")), 90);
    assert_eq!(current_terminal_width(Some(0), Some("0")), 80);
    assert_eq!(current_terminal_width(None, Some("wide")), 80);
    assert_eq!(current_terminal_width(None, None), 80);
}
