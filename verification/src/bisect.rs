//! Completion for the arguments of `/bisect`.
use vstd::prelude::*;
use vstd::string::*;

use crate::bytes::RunResult;
use crate::command::begins;
use crate::completion::owned_list;
use crate::lists::{git_commit_hashes, keep_starting_with, offered_commits, starting_with};
use crate::offset::{byte_len, byte_length};
use crate::text::{
    has_whitespace, no_whitespace, starts_with, strip_prefix, texts, trim_start, trimmed_start,
};

verus! {

/// The subcommands, in the order in which they are offered.
pub open spec fn bisect_verbs() -> Seq<Seq<char>> {
    seq!["start"@, "good"@, "bad"@, "skip"@, "reset"@, "log"@, "status"@]
}

/// The beginning of a subcommand that takes a commit.
pub open spec fn commit_subcommand(p: Seq<char>) -> Option<Seq<char>> {
    if begins(p, "/bisect start "@) {
        Some("/bisect start "@)
    } else if begins(p, "/bisect good "@) {
        Some("/bisect good "@)
    } else if begins(p, "/bisect bad "@) {
        Some("/bisect bad "@)
    } else if begins(p, "/bisect skip "@) {
        Some("/bisect skip "@)
    } else {
        None
    }
}

fn find_commit_subcommand(p: &str) -> (r: Option<&str>)
    ensures
        match r {
            Some(s) => commit_subcommand(p@) == Some(s@) && s@.is_prefix_of(p@),
            None => commit_subcommand(p@) is None,
        },
{
    if starts_with(p, "/bisect start ") {
        Some("/bisect start ")
    } else if starts_with(p, "/bisect good ") {
        Some("/bisect good ")
    } else if starts_with(p, "/bisect bad ") {
        Some("/bisect bad ")
    } else if starts_with(p, "/bisect skip ") {
        Some("/bisect skip ")
    } else {
        None
    }
}

/// The completion of a `/bisect` command: how much of the text stays, and the
/// candidates for the rest. While the subcommand is being typed these are the
/// subcommands. Behind a subcommand that takes a commit they are the commits
/// that begin with what is typed; spaces before it do not count. Behind any
/// other subcommand there is nothing to complete.
pub open spec fn bisect_completion(p: Seq<char>, logs: Seq<RunResult>) -> Option<
    (Seq<char>, Seq<Seq<char>>),
> {
    if !begins(p, "/bisect "@) {
        None
    } else {
        let rest = p.skip("/bisect "@.len() as int);
        if no_whitespace(rest) {
            Some(("/bisect "@, starting_with(bisect_verbs(), rest)))
        } else {
            match commit_subcommand(p) {
                Some(head) => Some(
                    (
                        head,
                        offered_commits(logs, trimmed_start(p.skip(head.len() as int))),
                    ),
                ),
                None => Some((p, seq![])),
            }
        }
    }
}

/// The candidates for the arguments of `/bisect`, with the offset in bytes at
/// which the part to complete begins. `logs` holds what the logs of the
/// branches printed, in the order in which they are preferred; it is empty
/// outside of a repository.
pub fn bisect_completion_candidates(prefix: &str, logs: &Vec<RunResult>) -> (r: Option<
    (usize, Vec<String>),
>)
    ensures
        match r {
            Some((start, candidates)) => bisect_completion(prefix@, logs@) matches Some((head, list))
                && start == byte_len(head) && head.is_prefix_of(prefix@) && texts(candidates@)
                == list,
            None => bisect_completion(prefix@, logs@) is None,
        },
{
    match strip_prefix(prefix, "/bisect ") {
        Some(rest) => {
            if !has_whitespace(rest) {
                let verbs = owned_list(
                    &["start", "good", "bad", "skip", "reset", "log", "status"],
                );
                assert(texts(verbs@) =~= bisect_verbs());
                return Some((byte_length("/bisect "), keep_starting_with(&verbs, rest)));
            }
            match find_commit_subcommand(prefix) {
                Some(head) => {
                    let k = head.unicode_len();
                    let n = prefix.unicode_len();
                    let rest = prefix.substring_char(k, n);
                    assert(rest@ =~= prefix@.skip(k as int));
                    Some((byte_length(head), git_commit_hashes(logs, trim_start(rest))))
                },
                None => {
                    let none: Vec<String> = Vec::new();
                    assert(texts(none@) =~= seq![]);
                    assert(prefix@.take(prefix@.len() as int) =~= prefix@);
                    Some((byte_length(prefix), none))
                },
            }
        },
        None => None,
    }
}

} // verus!
