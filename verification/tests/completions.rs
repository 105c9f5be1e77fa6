use orangu_console::bytes::{ProcessOutput, RunResult};
use orangu_console::completion::{
    commands, completion_request, file_completion_candidates, CompletionQuery, DirectoryEntry,
    WorkspaceFile,
};
use orangu_console::gather::{
    apply_completion, commit_branches, completion_candidates, completion_needs, listing_request,
    searched_directory, succeeded, wants_another_log, CompletionData, GitListing,
};
use orangu_console::gitignore::{
    is_offered_path, should_include_completion_path, workspace_gitignore,
};
use orangu_console::input::InputState;
use orangu_console::lists::{git_branch_names, git_commit_hashes, parse_names};

fn list(items: &[&str]) -> Vec<String> {
    items.iter().map(|s| s.to_string()).collect()
}

fn printed(text: &str) -> Option<RunResult> {
    Some(RunResult::Finished(ProcessOutput {
        success: true,
        stdout: text.as_bytes().to_vec(),
        stderr: vec![],
    }))
}

fn failed() -> RunResult {
    RunResult::Finished(ProcessOutput {
        success: false,
        stdout: b"ignored\n".to_vec(),
        stderr: vec![],
    })
}

fn nothing() -> CompletionData {
    CompletionData {
        files: vec![],
        entries: vec![],
        rules: None,
        branches: None,
        local_branches: None,
        tags: None,
        untracked_files: None,
        tracked_files: None,
        logs: vec![],
    }
}

fn file(relative: &str) -> WorkspaceFile {
    WorkspaceFile {
        relative: relative.to_string(),
        name: relative.rsplit('/').next().unwrap_or(relative).to_string(),
    }
}

fn entry(name: &str, is_dir: bool) -> DirectoryEntry {
    DirectoryEntry {
        name: name.to_string(),
        relative: Some(name.to_string()),
        below_rules: name.to_string(),
        is_dir,
    }
}

fn complete(input: &str, data: &CompletionData) -> (usize, usize, Vec<String>) {
    let request = completion_request(input, input.len(), &vec![]);
    let candidates = completion_candidates(request.query, data);
    (request.start, request.end, candidates)
}

/// The files of a workspace that are offered, as a walk through it finds them.
fn offered(paths: &[&str], gitignore: &str) -> Vec<WorkspaceFile> {
    let rules = workspace_gitignore(&None, &Some(gitignore.as_bytes().to_vec()));
    paths
        .iter()
        .filter(|p| should_include_completion_path(Some(p), p, false, &rules))
        .map(|p| file(p))
        .collect()
}

#[test]
fn completes_merge_branch_names() {
    let mut data = nothing();
    data.branches = printed("feature/test\nmain\n");
    let (start, _, candidates) = complete("/merge feature/", &data);
    assert_eq!(start, "/merge ".len());
    assert_eq!(candidates, vec!["feature/test".to_string()]);

    let (start, _, natural_candidates) = complete("merge feature/", &data);
    assert_eq!(start, "merge ".len());
    assert_eq!(natural_candidates, vec!["feature/test".to_string()]);
}

#[test]
fn completes_checkout_targets() {
    let mut data = nothing();
    data.branches = printed("main\ntopic/fix\n");
    data.entries = vec![entry("README.md", false), entry("todo.txt", false)];

    let (start, _, candidates) = complete("/checkout t", &data);
    assert_eq!(start, "/checkout ".len());
    assert_eq!(candidates[0], "topic/fix");
    assert!(candidates.contains(&"todo.txt".to_string()));

    let (start, _, natural_candidates) = complete("checkout t", &data);
    assert_eq!(start, "checkout ".len());
    assert_eq!(natural_candidates[0], "topic/fix");
    assert!(natural_candidates.contains(&"todo.txt".to_string()));
}

#[test]
fn switch_to_completes_branches_and_tags() {
    let mut data = nothing();
    data.branches = printed("master\nmybranch\n");
    data.tags = printed("mytag\n");
    data.entries = vec![entry("main.rs", false)];
    let (start, _, candidates) = complete("switch to m", &data);
    assert_eq!(start, "switch to ".len());
    assert!(candidates.contains(&"mybranch".to_string()), "branch missing");
    assert!(candidates.contains(&"mytag".to_string()), "tag missing");
    assert!(!candidates.contains(&"main.rs".to_string()), "file should not appear");
}

#[test]
fn completes_add_file_untracked() {
    let mut data = nothing();
    data.untracked_files = printed("newdir/\nnewfile.txt\n");
    data.tracked_files = printed("tracked.rs\n");
    let (start, _, candidates) = complete("/add_file n", &data);
    assert_eq!(start, "/add_file ".len());
    assert_eq!(candidates[0], "newdir/");
    assert!(candidates.contains(&"newfile.txt".to_string()));
    assert!(!candidates.contains(&"tracked.rs".to_string()));

    let (start, _, nat_candidates) = complete("add n", &data);
    assert_eq!(start, "add ".len());
    assert_eq!(nat_candidates[0], "newdir/");
}

#[test]
fn completes_remove_file_tracked() {
    let mut data = nothing();
    data.tracked_files = printed("schema.sql\nsrc/main.rs\n");
    data.untracked_files = printed("untracked.txt\n");
    let (start, _, candidates) = complete("/remove_file s", &data);
    assert_eq!(start, "/remove_file ".len());
    assert_eq!(candidates[0], "src/");
    assert!(candidates.contains(&"schema.sql".to_string()));
    assert!(!candidates.contains(&"untracked.txt".to_string()));

    let (start, _, nat_candidates) = complete("remove s", &data);
    assert_eq!(start, "remove ".len());
    assert_eq!(nat_candidates[0], "src/");
}

#[test]
fn completes_move_file_targets() {
    let mut data = nothing();
    data.tracked_files = printed("readme.md\nsrc/main.rs\n");
    data.entries = vec![
        entry("readme.md", false),
        entry("src", true),
        entry("untracked.txt", false),
    ];
    let (start, _, src_candidates) = complete("/move_file s", &data);
    assert_eq!(start, "/move_file ".len());
    assert_eq!(src_candidates[0], "src/");
    assert!(!src_candidates.contains(&"untracked.txt".to_string()));

    let (start, _, dst_candidates) = complete("/move_file src/main.rs u", &data);
    assert_eq!(start, "/move_file src/main.rs ".len());
    assert!(dst_candidates.contains(&"untracked.txt".to_string()));

    let (start, _, nat_candidates) = complete("move s", &data);
    assert_eq!(start, "move ".len());
    assert_eq!(nat_candidates[0], "src/");
}

#[test]
fn completes_cherry_pick_commits() {
    let mut data = nothing();
    data.logs = vec![printed("abc1234\n").unwrap()];
    let (start, _, candidates) = complete("/cherry_pick ", &data);
    assert_eq!(start, "/cherry_pick ".len());
    assert!(candidates.iter().all(|h| h.len() >= 4));
    assert_eq!(candidates, list(&["abc1234"]));

    let (start, _, _) = complete("cherry pick ", &data);
    assert_eq!(start, "cherry pick ".len());
}

#[test]
fn completes_open_file_commands_across_workspace() {
    let mut data = nothing();
    data.files = offered(
        &[
            "README.md",
            "doc/README.md",
            "src/tui.rs",
            "target/.fingerprint/pkg/tui-output",
            "build/out/tui.txt",
            ".gitignore",
            "ignored.md",
            ".git/config",
        ],
        "ignored.md\n",
    );

    let (_, _, slash_candidates) = complete("/open_file READ", &data);
    assert_eq!(
        slash_candidates,
        vec!["README.md".to_string(), "doc/README.md".to_string()]
    );

    let (start, _, natural_candidates) = complete("Open READ", &data);
    assert_eq!(start, "Open ".len());
    assert_eq!(
        natural_candidates,
        vec!["README.md".to_string(), "doc/README.md".to_string()]
    );

    let (_, _, ignored_candidates) = complete("Open ign", &data);
    assert!(ignored_candidates.is_empty());

    let (_, _, git_candidates) = complete("Open con", &data);
    assert!(git_candidates.is_empty());

    let (_, _, target_candidates) = complete("/open_file t", &data);
    assert_eq!(target_candidates, vec!["src/tui.rs".to_string()]);

    let (start, _, show_candidates) = complete("Show t", &data);
    assert_eq!(start, "Show ".len());
    assert_eq!(show_candidates, vec!["src/tui.rs".to_string()]);

    let (start, _, show_file_candidates) = complete("show file READ", &data);
    assert_eq!(start, "show file ".len());
    assert_eq!(
        show_file_candidates,
        vec!["README.md".to_string(), "doc/README.md".to_string()]
    );
}

#[test]
fn completes_show_file_commands_and_flags() {
    let mut data = nothing();
    data.files = offered(
        &[
            "README.md",
            "doc/README.md",
            "src/tui.rs",
            "target/.fingerprint/pkg/tui-output",
        ],
        "",
    );

    let (_, _, initial_file_candidates) = complete("/show_file ", &data);
    assert_eq!(
        initial_file_candidates,
        vec![
            "README.md".to_string(),
            "doc/README.md".to_string(),
            "src/tui.rs".to_string()
        ]
    );

    let (_, _, flag_candidates) = complete("/show_file --", &data);
    assert_eq!(
        flag_candidates,
        vec!["--author".to_string(), "--hash".to_string()]
    );

    let (_, _, file_candidates) = complete("/show_file --hash READ", &data);
    assert_eq!(
        file_candidates,
        vec!["README.md".to_string(), "doc/README.md".to_string()]
    );

    let (_, _, quoted_candidates) = complete("/show_file \"READ", &data);
    assert_eq!(
        quoted_candidates,
        vec!["\"README.md".to_string(), "\"doc/README.md".to_string()]
    );

    let (_, _, target_candidates) = complete("/show_file t", &data);
    assert_eq!(target_candidates, vec!["src/tui.rs".to_string()]);
}

#[test]
fn completion_respects_repo_gitignore_when_workspace_is_ignored_subdir() {
    let rules = workspace_gitignore(&Some(b"target/\n".to_vec()), &None);
    let relative = ".fingerprint/pkg/tui-output";
    let below = "target/debug/.fingerprint/pkg/tui-output";
    let mut data = nothing();
    if should_include_completion_path(Some(relative), below, false, &rules) {
        data.files = vec![file(relative)];
    }

    let (_, _, open_candidates) = complete("/open_file ", &data);
    assert!(open_candidates.is_empty());

    let (_, _, show_candidates) = complete("/show_file ", &data);
    assert!(show_candidates.is_empty());
}

#[test]
fn rules_of_the_workspace_come_last() {
    let root = Some(b"*.log\n".to_vec());
    let workspace = Some(b"!keep.log\n".to_vec());
    let rules = workspace_gitignore(&root, &workspace);
    assert!(rules.is_some());
    assert!(!should_include_completion_path(Some("a.log"), "a.log", false, &rules));
    assert!(should_include_completion_path(Some("keep.log"), "keep.log", false, &rules));
    assert!(should_include_completion_path(Some("a.txt"), "a.txt", false, &rules));
    assert!(should_include_completion_path(Some("a.log"), "a.log", false, &None));
}

#[test]
fn some_directories_are_never_offered() {
    assert!(!is_offered_path(Some(".git/config"), false));
    assert!(!is_offered_path(Some("target/debug/app"), false));
    assert!(!is_offered_path(Some("build"), false));
    assert!(is_offered_path(Some("builder/x.rs"), false));
    assert!(!is_offered_path(Some("src/lib.rs"), true));
}

#[test]
fn slash_words_are_completed_to_commands() {
    let request = completion_request("/rel", 4, &vec![]);
    assert_eq!((request.start, request.end), (0, 4));
    assert_eq!(request.query, CompletionQuery::Listed(list(&["/reload"])));
    assert!(commands().contains(&"/reload".to_string()));
}

#[test]
fn offsets_are_counted_in_bytes() {
    let input = "Öpen x /mer";
    let request = completion_request(input, input.len(), &vec![]);
    assert_eq!(request.start, "Öpen x ".len());
    assert_eq!(request.end, input.len());
}

#[test]
fn models_are_completed_from_the_profiles() {
    let models = list(&["gemma", "gpt-4.1", "local"]);
    let request = completion_request("/model g", 8, &models);
    assert_eq!(request.start, "/model ".len());
    assert_eq!(request.query, CompletionQuery::Listed(list(&["gemma", "gpt-4.1"])));
}

#[test]
fn protected_branches_are_not_offered_for_deletion() {
    let mut data = nothing();
    data.local_branches = printed("main\nmaster\nmend\n");
    let (start, _, candidates) = complete("/delete m", &data);
    assert_eq!(start, "/delete ".len());
    assert_eq!(candidates, list(&["mend"]));
}

#[test]
fn tab_completes_the_line_at_the_cursor() {
    let mut data = nothing();
    data.branches = printed("feature/a\nfeature/b\nmain\n");
    let mut input = InputState::default();
    input.set_buffer("/merge fé".to_string());
    input.backspace();
    apply_completion(&mut input, &vec![], &data);
    assert_eq!(input.as_str(), "/merge feature/a");
    assert_eq!(input.cursor(), "/merge feature/a".len());
    apply_completion(&mut input, &vec![], &data);
    assert_eq!(input.as_str(), "/merge feature/b");
    apply_completion(&mut input, &vec![], &data);
    assert_eq!(input.as_str(), "/merge feature/a");
}

#[test]
fn without_candidates_the_line_stays() {
    let mut input = InputState::default();
    input.set_buffer("/merge x".to_string());
    apply_completion(&mut input, &vec![], &nothing());
    assert_eq!(input.as_str(), "/merge x");
    assert!(!input.is_completing());
}

#[test]
fn queries_tell_what_they_need() {
    let query = |input: &str| completion_request(input, input.len(), &vec![]).query;
    let checkout = query("/checkout src/m");
    let needs = completion_needs(&checkout);
    assert!(needs.branches && needs.entries);
    assert!(!needs.files && !needs.tags && !needs.logs && !needs.tracked_files);
    assert_eq!(searched_directory(&checkout), Some("src"));
    assert!(completion_needs(&query("switch to m")).tags);
    assert!(completion_needs(&query("/open_file m")).files);
    assert!(completion_needs(&query("/delete m")).local_branches);
    assert!(completion_needs(&query("/add_file m")).untracked_files);
    assert!(completion_needs(&query("/remove_file m")).tracked_files);
    assert_eq!(searched_directory(&query("/merge m")), None);
}

#[test]
fn logs_are_asked_for_until_one_answers() {
    let request = completion_request("/cherry_pick ab", 15, &vec![]);
    assert!(completion_needs(&request.query).logs);
    let mut logs = vec![failed(), printed("ffff000\n").unwrap()];
    assert!(wants_another_log(&request.query, &logs));
    logs.push(printed("abc1234\n").unwrap());
    assert!(!wants_another_log(&request.query, &logs));
    let any = completion_request("/cherry_pick ", 13, &vec![]);
    assert!(wants_another_log(&any.query, &vec![failed()]));
    assert!(!wants_another_log(&any.query, &vec![printed("").unwrap()]));
    let merge = completion_request("/merge ", 7, &vec![]);
    assert!(!wants_another_log(&merge.query, &vec![]));
}

#[test]
fn rules_ignore_paths_below_their_directory() {
    let rules = workspace_gitignore(&None, &Some(b"*.log\nout/\n!keep.log\n".to_vec()))
        .expect("rules");
    assert!(rules.ignores("a.log", false));
    assert!(rules.ignores("deep/a.log", false));
    assert!(!rules.ignores("keep.log", false));
    assert!(rules.ignores("out", true));
    assert!(!rules.ignores("out", false));
    assert!(rules.ignores("out/a.txt", false));
    assert!(!rules.ignores("a//b", false));
    assert!(!rules.ignores("A.LOG", false));
    let none = workspace_gitignore(&None, &None).expect("no rules");
    assert!(!none.ignores("a.log", false));
}

#[test]
fn candidates_depend_on_what_is_needed_alone() {
    let mut needed = nothing();
    needed.local_branches = printed("main\ntopic\n");
    let (_, _, candidates) = complete("/delete t", &needed);
    assert_eq!(candidates, list(&["topic"]));
    needed.branches = printed("tango\n");
    needed.tags = printed("tag\n");
    needed.tracked_files = printed("t.rs\n");
    needed.logs = vec![printed("t123456\n").unwrap()];
    needed.files = vec![file("table.md")];
    assert_eq!(complete("/delete t", &needed).2, candidates);
}

#[test]
fn logs_after_the_answer_change_nothing() {
    let mut data = nothing();
    data.logs = vec![printed("ffff000\n").unwrap(), printed("abc1234\n").unwrap()];
    let (_, _, candidates) = complete("/cherry_pick ab", &data);
    assert_eq!(candidates, list(&["abc1234"]));
    data.logs.push(printed("abd5678\n").unwrap());
    assert_eq!(complete("/cherry_pick ab", &data).2, candidates);
}

#[test]
fn directories_are_offered_with_a_slash() {
    let entries = vec![entry("src", true), entry("setup.cfg", false), entry("x", false)];
    assert_eq!(
        file_completion_candidates("s", &entries, &None),
        list(&["setup.cfg", "src/"])
    );
}

#[test]
fn what_git_printed_in_vain_is_not_read() {
    assert!(git_branch_names(&failed()).is_empty());
    assert!(git_branch_names(&RunResult::NotFound("no git".to_string())).is_empty());
    assert!(!succeeded(&failed()));
    assert!(succeeded(&printed("").unwrap()));
}

#[test]
fn remote_heads_are_left_out_of_branches() {
    assert_eq!(
        parse_names("main\norigin/HEAD\norigin/main\n", false),
        list(&["main", "origin/main"])
    );
}

#[test]
fn commits_are_bounded() {
    let many: String = (0..60).map(|i| format!("{:07}\n", i)).collect();
    let hashes = git_commit_hashes(&vec![printed(&many).unwrap()], "");
    assert_eq!(hashes.len(), 50);
    assert_eq!(hashes[0], "0000000");
    assert_eq!(hashes[49], "0000049");
}

#[test]
fn questions_to_git_are_spelled_out() {
    let request = listing_request(GitListing::BranchLog("main"));
    assert_eq!(request.program, "git");
    assert_eq!(request.args, list(&["log", "--abbrev-commit", "--format=%h", "main"]));
    assert_eq!(
        listing_request(GitListing::Branches).args,
        list(&["branch", "--all", "--format=%(refname:short)"])
    );
    assert_eq!(
        commit_branches(),
        list(&["origin/main", "origin/master", "main", "master"])
    );
}
