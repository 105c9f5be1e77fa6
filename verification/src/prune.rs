//! Completion for the arguments of `/prune`.
use vstd::prelude::*;
use vstd::string::*;

use crate::command::{begins, begins_ci};
use crate::completion::owned_list;
use crate::lists::{keep_starting_with, starting_with};
use crate::offset::{byte_len, byte_offset};
use crate::text::{lemma_texts_push, starts_with, strip_ascii_prefix, strip_prefix, texts};

verus! {

/// The flags that are offered.
pub open spec fn prune_flags() -> Seq<Seq<char>> {
    seq!["--workspace"@, "--older-than"@]
}

/// The beginning of a form that takes the path of a workspace.
pub open spec fn workspace_form(p: Seq<char>) -> Option<Seq<char>> {
    if begins_ci(p, "/prune --workspace "@) {
        Some("/prune --workspace "@)
    } else if begins_ci(p, "/prune -w "@) {
        Some("/prune -w "@)
    } else if begins_ci(p, "prune sessions in "@) {
        Some("prune sessions in "@)
    } else {
        None
    }
}

/// Whether a form takes a number of days.
pub open spec fn days_form(p: Seq<char>) -> bool {
    begins_ci(p, "/prune --older-than "@) || begins_ci(p, "/prune -o "@) || begins_ci(
        p,
        "prune sessions older than "@,
    )
}

/// The path that a form with a workspace has so far.
pub open spec fn workspace_typed(p: Seq<char>) -> Option<Seq<char>> {
    match workspace_form(p) {
        Some(form) => Some(p.skip(form.len() as int)),
        None => None,
    }
}

fn rest_behind<'a>(p: &'a str, form: &str) -> (r: Option<&'a str>)
    ensures
        match r {
            Some(rest) => begins_ci(p@, form@) && rest@ == p@.skip(form@.len() as int)
                && form@.len() <= p@.len(),
            None => !begins_ci(p@, form@),
        },
{
    strip_ascii_prefix(p, form)
}

/// The path that is being completed, in the forms that take a workspace.
pub fn prune_workspace_prefix(prefix: &str) -> (r: Option<&str>)
    ensures
        match r {
            Some(path) => workspace_typed(prefix@) == Some(path@) && path@.len() <= prefix@.len()
                && path@ == prefix@.skip(prefix@.len() - path@.len()),
            None => workspace_typed(prefix@) is None,
        },
{
    if let Some(rest) = rest_behind(prefix, "/prune --workspace ") {
        return Some(rest);
    }
    if let Some(rest) = rest_behind(prefix, "/prune -w ") {
        return Some(rest);
    }
    rest_behind(prefix, "prune sessions in ")
}

/// The candidates for a session: the sessions that begin with what is typed,
/// and `all` where it still fits. It leads once something is typed, and comes
/// last before.
pub open spec fn session_candidates(typed: Seq<char>, uuids: Seq<Seq<char>>) -> Seq<Seq<char>> {
    let matching = starting_with(uuids, typed);
    if !typed.is_prefix_of("all"@) {
        matching
    } else if typed.len() == 0 {
        matching.push("all"@)
    } else {
        seq!["all"@] + matching
    }
}

/// The completion of the argument of `/prune` and of its forms in plain words:
/// how many characters of the text stay, and the candidates for the rest. A
/// workspace comes out of those of past sessions, or else out of the file
/// system. Behind the age in days there is nothing to complete.
pub open spec fn prune_completion(
    p: Seq<char>,
    workspaces: Seq<Seq<char>>,
    directories: Seq<Seq<char>>,
    uuids: Seq<Seq<char>>,
) -> Option<(int, Seq<Seq<char>>)> {
    if let Some(typed) = workspace_typed(p) {
        let known = starting_with(workspaces, typed);
        Some((p.len() - typed.len(), if known.len() == 0 { directories } else { known }))
    } else if days_form(p) {
        Some((p.len() as int, seq![]))
    } else if begins_ci(p, "prune session "@) {
        let k = "prune session "@.len() as int;
        Some((k, starting_with(uuids, p.skip(k))))
    } else if begins(p, "/prune "@) {
        let k = "/prune "@.len() as int;
        let typed = p.skip(k);
        if "-"@.is_prefix_of(typed) {
            Some((k, starting_with(prune_flags(), typed)))
        } else {
            Some((k, session_candidates(typed, uuids)))
        }
    } else {
        None
    }
}

/// The candidates for a session.
fn find_session_candidates(typed: &str, uuids: &Vec<String>) -> (r: Vec<String>)
    ensures
        texts(r@) == session_candidates(typed@, texts(uuids@)),
{
    let mut r = keep_starting_with(uuids, typed);
    let ghost matching = r@;
    if starts_with("all", typed) {
        let all = "all".to_string();
        if typed.is_empty() {
            r.push(all);
            proof {
                lemma_texts_push(matching, all);
            }
        } else {
            r.insert(0, all);
            assert(texts(r@) =~= seq!["all"@] + texts(matching));
        }
    }
    r
}

/// The candidates for the arguments of `/prune`, with the offset in bytes at
/// which the part to complete begins. `workspaces` and `uuids` are those of
/// past sessions, the newest first; `directories` are those of the file system
/// that begin with the path being completed.
pub fn prune_completion_candidates(
    prefix: &str,
    workspaces: &Vec<String>,
    directories: &Vec<String>,
    uuids: &Vec<String>,
) -> (r: Option<(usize, Vec<String>)>)
    ensures
        match r {
            Some((start, candidates)) => prune_completion(
                prefix@,
                texts(workspaces@),
                texts(directories@),
                texts(uuids@),
            ) matches Some((k, list)) && 0 <= k <= prefix@.len() && start == byte_len(
                prefix@.take(k),
            ) && texts(candidates@) == list,
            None => prune_completion(
                prefix@,
                texts(workspaces@),
                texts(directories@),
                texts(uuids@),
            ) is None,
        },
{
    let n = prefix.unicode_len();
    if let Some(typed) = prune_workspace_prefix(prefix) {
        let known = keep_starting_with(workspaces, typed);
        assert(texts(known@).len() == known@.len());
        let start = byte_offset(prefix, n - typed.unicode_len());
        if known.len() == 0 {
            return Some((start, directories.clone()));
        }
        return Some((start, known));
    }
    if rest_behind(prefix, "/prune --older-than ").is_some() || rest_behind(
        prefix,
        "/prune -o ",
    ).is_some() || rest_behind(prefix, "prune sessions older than ").is_some() {
        let none: Vec<String> = Vec::new();
        assert(texts(none@) =~= seq![]);
        return Some((byte_offset(prefix, n), none));
    }
    if let Some(typed) = rest_behind(prefix, "prune session ") {
        let k = "prune session ".unicode_len();
        return Some((byte_offset(prefix, k), keep_starting_with(uuids, typed)));
    }
    if let Some(typed) = strip_prefix(prefix, "/prune ") {
        let k = "/prune ".unicode_len();
        let start = byte_offset(prefix, k);
        if starts_with(typed, "-") {
            let flags = owned_list(&["--workspace", "--older-than"]);
            assert(texts(flags@) =~= prune_flags());
            return Some((start, keep_starting_with(&flags, typed)));
        }
        return Some((start, find_session_candidates(typed, uuids)));
    }
    None
}

/// Where `all` fits what is typed, it is offered; once something is typed it
/// comes first.
pub proof fn law_all_is_offered(typed: Seq<char>, uuids: Seq<Seq<char>>)
    requires
        typed.is_prefix_of("all"@),
    ensures
        session_candidates(typed, uuids).contains("all"@),
        typed.len() > 0 ==> session_candidates(typed, uuids)[0] == "all"@,
        typed.len() == 0 ==> session_candidates(typed, uuids).last() == "all"@,
{
    let list = session_candidates(typed, uuids);
    if typed.len() == 0 {
        assert(list[list.len() - 1] == "all"@);
    } else {
        assert(list[0] == "all"@);
    }
}

} // verus!
