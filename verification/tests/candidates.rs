use orangu_console::bisect::bisect_completion_candidates;
use orangu_console::bytes::{ProcessOutput, RunResult};
use orangu_console::prune::prune_completion_candidates;

fn prune(prefix: &str) -> Option<(usize, Vec<String>)> {
    prune_completion_candidates(prefix, &vec![], &vec![], &vec![])
}

fn list(items: &[&str]) -> Vec<String> {
    items.iter().map(|s| s.to_string()).collect()
}

fn printed(text: &str) -> RunResult {
    RunResult::Finished(ProcessOutput {
        success: true,
        stdout: text.as_bytes().to_vec(),
        stderr: vec![],
    })
}

#[test]
fn prune_dash_offers_flag_names() {
    let (start, candidates) = prune("/prune -").expect("flag completion");
    assert_eq!(start, "/prune ".len());
    assert_eq!(
        candidates,
        vec!["--workspace".to_string(), "--older-than".to_string()]
    );

    assert_eq!(
        prune("/prune --w").expect("flag").1,
        vec!["--workspace".to_string()]
    );
    assert_eq!(
        prune("/prune --o").expect("flag").1,
        vec!["--older-than".to_string()]
    );
}

#[test]
fn older_than_argument_is_recognised_but_empty() {
    for form in [
        "/prune --older-than ",
        "/prune --older-than 1",
        "/prune -o ",
        "prune sessions older than ",
        "prune sessions older than 30",
    ] {
        let (start, candidates) = prune(form).expect("older-than recognised");
        assert_eq!(start, form.len(), "{form:?}");
        assert!(candidates.is_empty(), "{form:?}");
    }
}

#[test]
fn workspace_offset_points_past_the_flag() {
    for form in ["/prune --workspace ", "/prune -w ", "prune sessions in "] {
        let (start, _) = prune(form).expect("workspace form");
        assert_eq!(start, form.len(), "{form:?}");
    }
}

#[test]
fn all_is_offered_and_ghostable() {
    let (start, candidates) = prune("/prune a").expect("all completion");
    assert_eq!(start, "/prune ".len());
    assert_eq!(candidates.first().map(String::as_str), Some("all"));

    let (_, candidates) = prune("/prune ").expect("bare argument");
    assert!(candidates.iter().any(|c| c == "all"), "{candidates:?}");

    let (_, candidates) = prune("/prune b").expect("uuid argument");
    assert!(!candidates.iter().any(|c| c == "all"), "{candidates:?}");
}

#[test]
fn non_prune_input_is_not_recognised() {
    assert!(prune("/prunes x").is_none());
    assert!(prune("/branch main").is_none());
    assert!(prune("prune all").is_none());
}

#[test]
fn prune_offers_directories_where_no_workspace_is_known() {
    let (start, candidates) = prune_completion_candidates(
        "/prune --workspace /home/é",
        &list(&["/home/élan", "/srv/one"]),
        &list(&["/home/étude", "/home/élan"]),
        &vec![],
    )
    .expect("workspace");
    assert_eq!(start, "/prune --workspace ".len());
    assert_eq!(candidates, list(&["/home/élan"]));
    let (_, candidates) = prune_completion_candidates(
        "prune sessions in /home/ét",
        &list(&["/home/élan", "/srv/one"]),
        &list(&["/home/étude"]),
        &vec![],
    )
    .expect("workspace");
    assert_eq!(candidates, list(&["/home/étude"]));
}

#[test]
fn prune_offers_sessions_and_all() {
    let uuids = list(&["a1b2", "b3c4"]);
    let (_, bare) = prune_completion_candidates("/prune ", &vec![], &vec![], &uuids).expect("bare");
    assert_eq!(bare, list(&["a1b2", "b3c4", "all"]));
    let (_, typed) = prune_completion_candidates("/prune a", &vec![], &vec![], &uuids).expect("a");
    assert_eq!(typed, list(&["all", "a1b2"]));
}

#[test]
fn completes_the_subcommand_verb() {
    let (start, all) = bisect_completion_candidates("/bisect ", &vec![]).expect("verb candidates");
    assert_eq!(start, "/bisect ".len());
    assert_eq!(
        all,
        ["start", "good", "bad", "skip", "reset", "log", "status"]
    );
    let (_, s) = bisect_completion_candidates("/bisect s", &vec![]).expect("candidates");
    assert_eq!(s, ["start", "skip", "status"]);
    let (_, none) = bisect_completion_candidates("/bisect reset ", &vec![]).expect("recognised");
    assert!(none.is_empty());
}

#[test]
fn returns_none_for_non_bisect_prefixes() {
    assert!(bisect_completion_candidates("/branch good ", &vec![]).is_none());
}

#[test]
fn offsets_to_the_end_of_the_subcommand_prefix() {
    for cmd in [
        "/bisect start ",
        "/bisect good ",
        "/bisect bad ",
        "/bisect skip ",
    ] {
        let (start, _candidates) =
            bisect_completion_candidates(cmd, &vec![]).expect("a candidates tuple");
        assert_eq!(start, cmd.len(), "offset should point past '{cmd}'");
    }
    let (start, candidates) =
        bisect_completion_candidates("/bisect good   ab", &vec![]).expect("some");
    assert_eq!(start, "/bisect good ".len());
    assert!(candidates.is_empty(), "no candidates outside a git repo");
}

#[test]
fn bisect_offers_the_commits_of_the_first_log_that_has_some() {
    let logs = vec![printed("abc1234\nabd5678\nffff000\n"), printed("abc1234\nabe0000\n")];
    let (start, commits) = bisect_completion_candidates("/bisect bad ab", &logs).expect("commits");
    assert_eq!(start, "/bisect bad ".len());
    assert_eq!(commits, ["abc1234", "abd5678"]);
    let (_, later) = bisect_completion_candidates("/bisect bad abe", &logs).expect("commits");
    assert_eq!(later, ["abe0000"]);
}
