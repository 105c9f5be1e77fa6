use orangu_console::command::{parse_local_command, LocalCommand};
use orangu_console::show_file::parse_show_file_arguments;

#[test]
fn parses_open_file_commands() {
    match parse_local_command("/open_file README.md") {
        Some(LocalCommand::OpenFile(path)) => assert_eq!(path, "README.md"),
        _ => panic!("expected open file slash command"),
    }
    match parse_local_command("Open README.md") {
        Some(LocalCommand::OpenFile(path)) => assert_eq!(path, "README.md"),
        _ => panic!("expected open file natural language command"),
    }
    match parse_local_command("open \"docs/user guide.md\"") {
        Some(LocalCommand::OpenFile(path)) => assert_eq!(path, "docs/user guide.md"),
        _ => panic!("expected quoted natural language open file command"),
    }
}

#[test]
fn parses_show_file_natural_language_commands() {
    match parse_local_command("show README.md") {
        Some(LocalCommand::ShowFile(path)) => assert_eq!(path.as_str(), "README.md"),
        _ => panic!("expected natural language show file command"),
    }
    match parse_local_command("show file \"docs/user guide.md\"") {
        Some(LocalCommand::ShowFile(path)) => assert_eq!(path.as_str(), "docs/user guide.md"),
        _ => panic!("expected quoted natural language show file command"),
    }
    match parse_local_command("show src/tui.rs with hash") {
        Some(LocalCommand::ShowFile(args)) => assert_eq!(args.as_str(), "--hash src/tui.rs"),
        _ => panic!("expected natural language show file hash command"),
    }
    match parse_local_command("show src/tui.rs with author") {
        Some(LocalCommand::ShowFile(args)) => {
            assert_eq!(args.as_str(), "--author src/tui.rs")
        }
        _ => panic!("expected natural language show file author command"),
    }
    match parse_local_command("show file \"docs/user guide.md\" with hash and author") {
        Some(LocalCommand::ShowFile(args)) => {
            assert_eq!(args.as_str(), "--hash --author \"docs/user guide.md\"")
        }
        _ => panic!("expected natural language show file metadata command"),
    }
}

#[test]
fn parses_show_file_commands() {
    match parse_local_command("/show_file README.md") {
        Some(LocalCommand::ShowFile(args)) => assert_eq!(args.as_str(), "README.md"),
        _ => panic!("expected show file slash command"),
    }

    let (path, options) = parse_show_file_arguments("--hash --author \"docs/user guide.md\"")
        .expect("show file args");
    assert_eq!(path, "docs/user guide.md");
    assert!(options.show_hash);
    assert!(options.show_author);
}

#[test]
fn parses_list_files_commands() {
    assert!(matches!(
        parse_local_command("/list_files"),
        Some(LocalCommand::ListFiles)
    ));
    assert!(matches!(
        parse_local_command("list files"),
        Some(LocalCommand::ListFiles)
    ));
    assert!(matches!(
        parse_local_command("show workspace files"),
        Some(LocalCommand::ListFiles)
    ));
}

#[test]
fn parses_natural_language_command_aliases() {
    assert!(matches!(
        parse_local_command("show commands"),
        Some(LocalCommand::Help)
    ));
    assert!(matches!(
        parse_local_command("diff"),
        Some(LocalCommand::Diff)
    ));
    assert!(matches!(
        parse_local_command("list models"),
        Some(LocalCommand::ListModels)
    ));
    assert!(matches!(
        parse_local_command("show tools"),
        Some(LocalCommand::Tools)
    ));
    assert!(matches!(
        parse_local_command("disconnect"),
        Some(LocalCommand::Disconnect)
    ));
    assert!(matches!(
        parse_local_command("reset conversation"),
        Some(LocalCommand::Clear)
    ));
    assert!(matches!(
        parse_local_command("exit"),
        Some(LocalCommand::Quit)
    ));
}

#[test]
fn parses_natural_language_commands_with_arguments() {
    match parse_local_command("connect to http://localhost:8080/v1") {
        Some(LocalCommand::ConnectTo(endpoint)) => {
            assert_eq!(endpoint, "http://localhost:8080/v1")
        }
        _ => panic!("expected connect command"),
    }
    match parse_local_command("switch model to local") {
        Some(LocalCommand::SetModel(name)) => assert_eq!(name, "local"),
        _ => panic!("expected set model command"),
    }
}

#[test]
fn parses_pull_request_commands() {
    assert!(matches!(
        parse_local_command("/pull 58"),
        Some(LocalCommand::Pull(Some(58)))
    ));
    assert!(matches!(
        parse_local_command("/pull"),
        Some(LocalCommand::Pull(None))
    ));
    assert!(matches!(
        parse_local_command("/pull notanumber"),
        Some(LocalCommand::Pull(None))
    ));
    assert!(matches!(
        parse_local_command("pull 58"),
        Some(LocalCommand::Pull(Some(58)))
    ));
    assert!(matches!(
        parse_local_command("Pull 58"),
        Some(LocalCommand::Pull(Some(58)))
    ));
    assert!(matches!(
        parse_local_command("pull pr 58"),
        Some(LocalCommand::Pull(Some(58)))
    ));
    assert!(matches!(
        parse_local_command("pull request 58"),
        Some(LocalCommand::Pull(Some(58)))
    ));
    assert!(matches!(
        parse_local_command("pull pull request 58"),
        Some(LocalCommand::Pull(Some(58)))
    ));
    assert!(matches!(
        parse_local_command("pull #58"),
        Some(LocalCommand::Pull(Some(58)))
    ));
}

#[test]
fn parses_status_commands() {
    assert!(matches!(
        parse_local_command("/status"),
        Some(LocalCommand::Status)
    ));
    assert!(matches!(
        parse_local_command("status"),
        Some(LocalCommand::Status)
    ));
    assert!(matches!(
        parse_local_command("Status"),
        Some(LocalCommand::Status)
    ));
    assert!(matches!(
        parse_local_command("show status"),
        Some(LocalCommand::Status)
    ));
    assert!(matches!(
        parse_local_command("git status"),
        Some(LocalCommand::Status)
    ));
}

#[test]
fn parses_log_commands() {
    assert!(matches!(
        parse_local_command("/log"),
        Some(LocalCommand::Log)
    ));
    assert!(matches!(
        parse_local_command("log"),
        Some(LocalCommand::Log)
    ));
    assert!(matches!(
        parse_local_command("Log"),
        Some(LocalCommand::Log)
    ));
    assert!(matches!(
        parse_local_command("show log"),
        Some(LocalCommand::Log)
    ));
    assert!(matches!(
        parse_local_command("git log"),
        Some(LocalCommand::Log)
    ));
    assert!(matches!(
        parse_local_command("git lg"),
        Some(LocalCommand::Log)
    ));
}

#[test]
fn parses_rebase_commands() {
    assert!(matches!(
        parse_local_command("/rebase"),
        Some(LocalCommand::Rebase)
    ));
    assert!(matches!(
        parse_local_command("rebase"),
        Some(LocalCommand::Rebase)
    ));
    assert!(matches!(
        parse_local_command("Rebase"),
        Some(LocalCommand::Rebase)
    ));
    assert!(matches!(
        parse_local_command("git rebase"),
        Some(LocalCommand::Rebase)
    ));
}

#[test]
fn parses_merge_commands() {
    assert!(matches!(
        parse_local_command("/merge"),
        Some(LocalCommand::Merge(None))
    ));
    assert!(matches!(
        parse_local_command("/merge "),
        Some(LocalCommand::Merge(None))
    ));
    assert!(matches!(
        parse_local_command("merge"),
        Some(LocalCommand::Merge(None))
    ));
    assert!(matches!(
        parse_local_command("Merge"),
        Some(LocalCommand::Merge(None))
    ));
    match parse_local_command("/merge feature/foo") {
        Some(LocalCommand::Merge(Some(branch))) => assert_eq!(branch.as_str(), "feature/foo"),
        _ => panic!("expected merge with branch"),
    }
    match parse_local_command("merge feature/foo") {
        Some(LocalCommand::Merge(Some(branch))) => assert_eq!(branch.as_str(), "feature/foo"),
        _ => panic!("expected natural merge with branch"),
    }
    match parse_local_command("Merge feature/foo") {
        Some(LocalCommand::Merge(Some(branch))) => assert_eq!(branch.as_str(), "feature/foo"),
        _ => panic!("expected case-insensitive merge with branch"),
    }
    match parse_local_command("git merge feature/foo") {
        Some(LocalCommand::Merge(Some(branch))) => assert_eq!(branch.as_str(), "feature/foo"),
        _ => panic!("expected git merge natural language with branch"),
    }
}

#[test]
fn parses_checkout_commands() {
    assert!(matches!(
        parse_local_command("/checkout"),
        Some(LocalCommand::Checkout(None))
    ));
    assert!(matches!(
        parse_local_command("/checkout "),
        Some(LocalCommand::Checkout(None))
    ));
    assert!(matches!(
        parse_local_command("checkout"),
        Some(LocalCommand::Checkout(None))
    ));
    assert!(matches!(
        parse_local_command("Checkout"),
        Some(LocalCommand::Checkout(None))
    ));
    match parse_local_command("/checkout feature/foo") {
        Some(LocalCommand::Checkout(Some(target))) => {
            assert_eq!(target.as_str(), "feature/foo")
        }
        _ => panic!("expected checkout with branch"),
    }
    match parse_local_command("checkout feature/foo") {
        Some(LocalCommand::Checkout(Some(target))) => {
            assert_eq!(target.as_str(), "feature/foo")
        }
        _ => panic!("expected natural checkout with branch"),
    }
    match parse_local_command("Checkout README.md") {
        Some(LocalCommand::Checkout(Some(target))) => {
            assert_eq!(target.as_str(), "README.md")
        }
        _ => panic!("expected case-insensitive checkout with file"),
    }
    match parse_local_command("git checkout feature/foo") {
        Some(LocalCommand::Checkout(Some(target))) => {
            assert_eq!(target.as_str(), "feature/foo")
        }
        _ => panic!("expected git checkout natural language"),
    }
    match parse_local_command("switch to main") {
        Some(LocalCommand::Checkout(Some(target))) => {
            assert_eq!(target.as_str(), "main")
        }
        _ => panic!("expected switch to main"),
    }
    match parse_local_command("Switch to main") {
        Some(LocalCommand::Checkout(Some(target))) => {
            assert_eq!(target.as_str(), "main")
        }
        _ => panic!("expected case-insensitive switch to main"),
    }
    match parse_local_command("switch to feature/foo") {
        Some(LocalCommand::Checkout(Some(target))) => {
            assert_eq!(target.as_str(), "feature/foo")
        }
        _ => panic!("expected switch to feature/foo"),
    }
    match parse_local_command("switch to main branch") {
        Some(LocalCommand::Checkout(Some(target))) => {
            assert_eq!(target.as_str(), "main")
        }
        _ => panic!("expected switch to main branch -> main"),
    }
    assert!(matches!(
        parse_local_command("switch to"),
        Some(LocalCommand::Checkout(None))
    ));
}

#[test]
fn parses_add_file_commands() {
    assert!(matches!(
        parse_local_command("/add_file"),
        Some(LocalCommand::AddFile(None))
    ));
    assert!(matches!(
        parse_local_command("/add_file "),
        Some(LocalCommand::AddFile(None))
    ));
    assert!(matches!(
        parse_local_command("add"),
        Some(LocalCommand::AddFile(None))
    ));
    assert!(matches!(
        parse_local_command("Add"),
        Some(LocalCommand::AddFile(None))
    ));
    match parse_local_command("/add_file README.md") {
        Some(LocalCommand::AddFile(Some(path))) => assert_eq!(path.as_str(), "README.md"),
        _ => panic!("expected add_file with path"),
    }
    match parse_local_command("add README.md") {
        Some(LocalCommand::AddFile(Some(path))) => assert_eq!(path.as_str(), "README.md"),
        _ => panic!("expected natural add with path"),
    }
    match parse_local_command("Add src/") {
        Some(LocalCommand::AddFile(Some(path))) => assert_eq!(path.as_str(), "src/"),
        _ => panic!("expected case-insensitive add with directory"),
    }
    match parse_local_command("add file README.md") {
        Some(LocalCommand::AddFile(Some(path))) => assert_eq!(path.as_str(), "README.md"),
        _ => panic!("expected add file prefix"),
    }
    match parse_local_command("git add README.md") {
        Some(LocalCommand::AddFile(Some(path))) => assert_eq!(path.as_str(), "README.md"),
        _ => panic!("expected git add natural language"),
    }
}

#[test]
fn parses_remove_file_commands() {
    assert!(matches!(
        parse_local_command("/remove_file"),
        Some(LocalCommand::RemoveFile(None))
    ));
    assert!(matches!(
        parse_local_command("/remove_file "),
        Some(LocalCommand::RemoveFile(None))
    ));
    assert!(matches!(
        parse_local_command("remove"),
        Some(LocalCommand::RemoveFile(None))
    ));
    assert!(matches!(
        parse_local_command("Remove"),
        Some(LocalCommand::RemoveFile(None))
    ));
    match parse_local_command("/remove_file README.md") {
        Some(LocalCommand::RemoveFile(Some(path))) => assert_eq!(path.as_str(), "README.md"),
        _ => panic!("expected remove_file with path"),
    }
    match parse_local_command("remove README.md") {
        Some(LocalCommand::RemoveFile(Some(path))) => assert_eq!(path.as_str(), "README.md"),
        _ => panic!("expected natural remove with path"),
    }
    match parse_local_command("Remove src/") {
        Some(LocalCommand::RemoveFile(Some(path))) => assert_eq!(path.as_str(), "src/"),
        _ => panic!("expected case-insensitive remove with directory"),
    }
    match parse_local_command("remove file README.md") {
        Some(LocalCommand::RemoveFile(Some(path))) => assert_eq!(path.as_str(), "README.md"),
        _ => panic!("expected remove file prefix"),
    }
    match parse_local_command("git rm README.md") {
        Some(LocalCommand::RemoveFile(Some(path))) => assert_eq!(path.as_str(), "README.md"),
        _ => panic!("expected git rm natural language"),
    }
}

#[test]
fn parses_move_file_commands() {
    assert!(matches!(
        parse_local_command("/move_file"),
        Some(LocalCommand::MoveFile(None))
    ));
    assert!(matches!(
        parse_local_command("/move_file "),
        Some(LocalCommand::MoveFile(None))
    ));
    assert!(matches!(
        parse_local_command("/move_file onlyone"),
        Some(LocalCommand::MoveFile(None))
    ));
    assert!(matches!(
        parse_local_command("move"),
        Some(LocalCommand::MoveFile(None))
    ));
    assert!(matches!(
        parse_local_command("Move"),
        Some(LocalCommand::MoveFile(None))
    ));
    match parse_local_command("/move_file old.rs new.rs") {
        Some(LocalCommand::MoveFile(Some((src, dst)))) => {
            assert_eq!(src.as_str(), "old.rs");
            assert_eq!(dst.as_str(), "new.rs");
        }
        _ => panic!("expected move_file with source and destination"),
    }
    match parse_local_command("move old.rs new.rs") {
        Some(LocalCommand::MoveFile(Some((src, dst)))) => {
            assert_eq!(src.as_str(), "old.rs");
            assert_eq!(dst.as_str(), "new.rs");
        }
        _ => panic!("expected natural move with source and destination"),
    }
    match parse_local_command("move file old.rs new.rs") {
        Some(LocalCommand::MoveFile(Some((src, dst)))) => {
            assert_eq!(src.as_str(), "old.rs");
            assert_eq!(dst.as_str(), "new.rs");
        }
        _ => panic!("expected move file prefix"),
    }
    match parse_local_command("git mv old.rs new.rs") {
        Some(LocalCommand::MoveFile(Some((src, dst)))) => {
            assert_eq!(src.as_str(), "old.rs");
            assert_eq!(dst.as_str(), "new.rs");
        }
        _ => panic!("expected git mv natural language"),
    }
}

#[test]
fn parses_cherry_pick_commands() {
    assert!(matches!(
        parse_local_command("/cherry_pick"),
        Some(LocalCommand::CherryPick(None))
    ));
    match parse_local_command("/cherry_pick abc1234") {
        Some(LocalCommand::CherryPick(Some(commit))) => {
            assert_eq!(commit.as_str(), "abc1234");
        }
        _ => panic!("expected cherry_pick with commit"),
    }
    match parse_local_command("cherry pick abc1234") {
        Some(LocalCommand::CherryPick(Some(commit))) => {
            assert_eq!(commit.as_str(), "abc1234");
        }
        _ => panic!("expected natural cherry pick with commit"),
    }
    match parse_local_command("cherry-pick abc1234") {
        Some(LocalCommand::CherryPick(Some(commit))) => {
            assert_eq!(commit.as_str(), "abc1234");
        }
        _ => panic!("expected cherry-pick with commit"),
    }
    match parse_local_command("git cherry-pick abc1234") {
        Some(LocalCommand::CherryPick(Some(commit))) => {
            assert_eq!(commit.as_str(), "abc1234");
        }
        _ => panic!("expected git cherry-pick with commit"),
    }
    assert!(matches!(
        parse_local_command("cherry pick"),
        Some(LocalCommand::CherryPick(None))
    ));
    assert!(matches!(
        parse_local_command("cherry-pick"),
        Some(LocalCommand::CherryPick(None))
    ));
}

#[test]
fn parses_commit_commands() {
    assert!(matches!(
        parse_local_command("/commit"),
        Some(LocalCommand::Commit(None))
    ));
    assert!(matches!(
        parse_local_command("commit"),
        Some(LocalCommand::Commit(None))
    ));
    match parse_local_command("/commit [#42] My feature") {
        Some(LocalCommand::Commit(Some(msg))) => {
            assert_eq!(msg.as_str(), "[#42] My feature");
        }
        _ => panic!("expected commit with plain message"),
    }
    match parse_local_command("/commit \"[#42] My feature\"") {
        Some(LocalCommand::Commit(Some(msg))) => {
            assert_eq!(msg.as_str(), "[#42] My feature");
        }
        _ => panic!("expected commit with double-quoted message"),
    }
    match parse_local_command("Commit \"[#42] My feature\"") {
        Some(LocalCommand::Commit(Some(msg))) => {
            assert_eq!(msg.as_str(), "[#42] My feature");
        }
        _ => panic!("expected natural commit with quoted message"),
    }
    match parse_local_command("commit [#42] My feature") {
        Some(LocalCommand::Commit(Some(msg))) => {
            assert_eq!(msg.as_str(), "[#42] My feature");
        }
        _ => panic!("expected natural commit without quotes"),
    }
    match parse_local_command("git commit -a -m \"[#42] My feature\"") {
        Some(LocalCommand::Commit(Some(msg))) => {
            assert_eq!(msg.as_str(), "[#42] My feature");
        }
        _ => panic!("expected git commit -a -m with quoted message"),
    }
    match parse_local_command("git commit -m fixed") {
        Some(LocalCommand::Commit(Some(msg))) => {
            assert_eq!(msg.as_str(), "fixed");
        }
        _ => panic!("expected git commit -m form"),
    }
}

#[test]
fn parses_push_commands() {
    assert!(matches!(
        parse_local_command("/push"),
        Some(LocalCommand::Push(false))
    ));
    assert!(matches!(
        parse_local_command("/push --force"),
        Some(LocalCommand::Push(true))
    ));
    assert!(matches!(
        parse_local_command("/push -f"),
        Some(LocalCommand::Push(true))
    ));
    assert!(matches!(
        parse_local_command("/push force"),
        Some(LocalCommand::Push(true))
    ));
    assert!(matches!(
        parse_local_command("push"),
        Some(LocalCommand::Push(false))
    ));
    assert!(matches!(
        parse_local_command("Push"),
        Some(LocalCommand::Push(false))
    ));
    assert!(matches!(
        parse_local_command("git push"),
        Some(LocalCommand::Push(false))
    ));
    assert!(matches!(
        parse_local_command("force push"),
        Some(LocalCommand::Push(true))
    ));
    assert!(matches!(
        parse_local_command("push force"),
        Some(LocalCommand::Push(true))
    ));
    assert!(matches!(
        parse_local_command("push --force"),
        Some(LocalCommand::Push(true))
    ));
    assert!(matches!(
        parse_local_command("git push --force"),
        Some(LocalCommand::Push(true))
    ));
    assert!(matches!(
        parse_local_command("git push origin --force"),
        Some(LocalCommand::Push(true))
    ));
}

#[test]
fn parses_init_repo_commands() {
    assert!(matches!(
        parse_local_command("/init_repo"),
        Some(LocalCommand::InitRepo)
    ));
    assert!(matches!(
        parse_local_command("init"),
        Some(LocalCommand::InitRepo)
    ));
    assert!(matches!(
        parse_local_command("Init"),
        Some(LocalCommand::InitRepo)
    ));
    assert!(matches!(
        parse_local_command("init repo"),
        Some(LocalCommand::InitRepo)
    ));
    assert!(matches!(
        parse_local_command("Init Repo"),
        Some(LocalCommand::InitRepo)
    ));
    assert!(matches!(
        parse_local_command("git init"),
        Some(LocalCommand::InitRepo)
    ));
}

#[test]
fn parses_delete_branch_commands() {
    assert!(matches!(
        parse_local_command("/delete feature/foo"),
        Some(LocalCommand::DeleteBranch(Some(_)))
    ));
    assert!(matches!(
        parse_local_command("/delete"),
        Some(LocalCommand::DeleteBranch(None))
    ));
    assert!(matches!(
        parse_local_command("delete feature/foo"),
        Some(LocalCommand::DeleteBranch(Some(_)))
    ));
    assert!(matches!(
        parse_local_command("Delete feature/foo"),
        Some(LocalCommand::DeleteBranch(Some(_)))
    ));
    assert!(matches!(
        parse_local_command("delete branch feature/foo"),
        Some(LocalCommand::DeleteBranch(Some(_)))
    ));
    assert!(matches!(
        parse_local_command("Delete Branch feature/foo"),
        Some(LocalCommand::DeleteBranch(Some(_)))
    ));
    assert!(matches!(
        parse_local_command("git branch -D feature/foo"),
        Some(LocalCommand::DeleteBranch(Some(_)))
    ));
    assert!(matches!(
        parse_local_command("delete branch"),
        Some(LocalCommand::DeleteBranch(None))
    ));
    assert!(matches!(
        parse_local_command("delete"),
        Some(LocalCommand::DeleteBranch(None))
    ));
}

#[test]
fn leaves_regular_prompts_unhandled() {
    assert!(parse_local_command("help me understand this code").is_none());
    assert!(parse_local_command("show me the files in the workspace").is_none());
}
