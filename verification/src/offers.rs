//! What is offered for commits, bisecting and pruning, and what has to be asked
//! for before.
use vstd::prelude::*;
use vstd::string::*;

use crate::bisect::bisect_completion;
use crate::bytes::{successful_out, RunResult};
use crate::candidates::law_narrowed_lists_keep_what_fits;
use crate::command::{begins, begins_ci};
use crate::completion::{earlier_words, move_file_query, show_file_query, CompletionQuery};
use crate::gather::{another_log, directory_of, listing_args, needs_of, CompletionNeeds, GitListing};
use crate::lists::{commits_in, hashes_with, offered_commits, starting_with};
use crate::order::{deduplicated, sorted_texts};
use crate::phrases::lemma_begins_at;
use crate::pieces::{law_plain_words_are_words, law_quotes_keep_words_together};
use crate::prune::prune_completion;
use crate::shell::{last_word_start, separates, shell_mode};
use crate::text::{
    ascii_lower, joined, lines_of, no_whitespace, same_ignoring_case, trimmed, trimmed_end,
    trimmed_start, whitespace,
};

verus! {

/// Whether a line of a log, without white space around it, is this commit.
pub open spec fn is_row(rows: Seq<Seq<char>>, i: int, x: Seq<char>) -> bool {
    0 <= i < rows.len() && trimmed(rows[i]) == x
}

proof fn lemma_hashes(rows: Seq<Seq<char>>, token: Seq<char>, x: Seq<char>)
    ensures
        hashes_with(rows, token).contains(x) <==> x.len() > 0 && token.is_prefix_of(x) && (exists|
            i: int,
        | #[trigger]
            is_row(rows, i, x)),
        hashes_with(rows, token).len() <= rows.len(),
    decreases rows.len(),
{
    if rows.len() > 0 {
        let init = rows.drop_last();
        lemma_hashes(init, token, x);
        let rest = hashes_with(init, token);
        let all = hashes_with(rows, token);
        let last = trimmed(rows.last());
        let n = rows.len() - 1;
        if exists|i: int| #[trigger] is_row(init, i, x) {
            let i = choose|i: int| #[trigger] is_row(init, i, x);
            assert(is_row(rows, i, x));
        }
        if last == x {
            assert(is_row(rows, n, x));
        }
        if exists|i: int| #[trigger] is_row(rows, i, x) {
            let i = choose|i: int| #[trigger] is_row(rows, i, x);
            if i < n {
                assert(is_row(init, i, x));
            }
        }
        if rest.contains(x) {
            let i = choose|i: int| 0 <= i < rest.len() && rest[i] == x;
            assert(all[i] == x);
        }
        if all.contains(x) {
            let i = choose|i: int| 0 <= i < all.len() && all[i] == x;
            if i < rest.len() {
                assert(rest[i] == x);
            }
        }
        if all.len() > rest.len() {
            assert(all[rest.len() as int] == last);
        }
    }
}

/// Commits are offered out of the lines of a log: those that begin with what was
/// typed, at most fifty of them, in the order of the log.
pub proof fn law_commits_come_out_of_the_log(text: Seq<char>, token: Seq<char>, x: Seq<char>)
    ensures
        commits_in(text, token).contains(x) ==> x.len() > 0 && token.is_prefix_of(x) && exists|
            i: int,
        | #[trigger]
            is_row(lines_of(text), i, x),
        lines_of(text).len() <= 50 && x.len() > 0 && token.is_prefix_of(x) && (exists|i: int|
         #[trigger]
            is_row(lines_of(text), i, x)) ==> commits_in(text, token).contains(x),
        commits_in(text, token).len() <= 50,
        commits_in(text, token).is_prefix_of(hashes_with(lines_of(text), token)),
        hashes_with(lines_of(text), token).len() >= 50 ==> commits_in(text, token).len() == 50,
{
    let rows = lines_of(text);
    let all = hashes_with(rows, token);
    let some = commits_in(text, token);
    lemma_hashes(rows, token, x);
    assert(some =~= all.subrange(0, some.len() as int));
    if some.contains(x) {
        let i = choose|i: int| 0 <= i < some.len() && some[i] == x;
        assert(all[i] == x);
    }
}

/// The commits of one more line of a log follow those of the lines before.
pub proof fn law_commits_follow_the_log(rows: Seq<Seq<char>>, row: Seq<char>, token: Seq<char>)
    ensures
        hashes_with(rows.push(row), token) == (if trimmed(row).len() > 0 && token.is_prefix_of(
            trimmed(row),
        ) {
            hashes_with(rows, token).push(trimmed(row))
        } else {
            hashes_with(rows, token)
        }),
{
    assert(rows.push(row).drop_last() =~= rows);
}

/// The first log that has commits to offer is the one that counts. Logs that
/// could not be had are passed over, and so are those in which nothing begins
/// with what was typed.
pub proof fn law_the_first_log_with_commits_counts(
    log: RunResult,
    rest: Seq<RunResult>,
    token: Seq<char>,
)
    ensures
        ({
            let offered = offered_commits(seq![log] + rest, token);
            match successful_out(log) {
                None => offered == offered_commits(rest, token),
                Some(text) => {
                    &&& commits_in(text, token).len() > 0 ==> offered == commits_in(text, token)
                    &&& commits_in(text, token).len() == 0 && token.len() > 0 ==> offered
                        == offered_commits(rest, token)
                    &&& commits_in(text, token).len() == 0 && token.len() == 0 ==> offered.len()
                        == 0
                },
            }
        }),
        offered_commits(seq![], token).len() == 0,
{
    assert((seq![log] + rest).drop_first() =~= rest);
}

/// Whoever asks for commits is told to look at the next log until one has
/// commits to offer.
pub proof fn law_logs_are_asked_for_one_by_one(token: Seq<char>, text: Seq<char>, log: RunResult)
    requires
        successful_out(log) == Some(text),
    ensures
        another_log(CompletionQuery::Commits(token), seq![]),
        commits_in(text, token).len() > 0 ==> !another_log(
            CompletionQuery::Commits(token),
            seq![log],
        ),
        commits_in(text, token).len() == 0 && token.len() > 0 ==> another_log(
            CompletionQuery::Commits(token),
            seq![log],
        ),
{
    assert(seq![log][0] == log);
    if commits_in(text, token).len() > 0 {
        assert(crate::lists::log_answers(seq![log][0], token));
    }
}

proof fn lemma_after(head: Seq<char>, rest: Seq<char>)
    ensures
        begins(head + rest, head),
        (head + rest).skip(head.len() as int) == rest,
        begins_ci(head + rest, head),
{
    let s = head + rest;
    assert(s.subrange(0, head.len() as int) =~= head);
    assert(s.skip(head.len() as int) =~= rest);
    assert(s.take(head.len() as int) =~= head);
}

/// While the subcommand of a bisection is being typed, the subcommands that begin
/// like it are offered.
pub proof fn law_bisect_offers_its_subcommands(typed: Seq<char>, logs: Seq<RunResult>)
    requires
        no_whitespace(typed),
    ensures
        bisect_completion("/bisect "@ + typed, logs) == Some(
            (
                "/bisect "@,
                starting_with(
                    seq!["start"@, "good"@, "bad"@, "skip"@, "reset"@, "log"@, "status"@],
                    typed,
                ),
            ),
        ),
{
    lemma_after("/bisect "@, typed);
}

proof fn lemma_commit_heads()
    ensures
        "/bisect start "@ =~= "/bisect "@ + "start "@,
        "/bisect good "@ =~= "/bisect "@ + "good "@,
        "/bisect bad "@ =~= "/bisect "@ + "bad "@,
        "/bisect skip "@ =~= "/bisect "@ + "skip "@,
        "/bisect "@.len() == 8,
        "start "@[0] == 's' && "start "@[1] == 't' && "start "@[5] == ' ' && "start "@.len() == 6,
        "good "@[0] == 'g' && "good "@[4] == ' ' && "good "@.len() == 5,
        "bad "@[0] == 'b' && "bad "@[3] == ' ' && "bad "@.len() == 4,
        "skip "@[0] == 's' && "skip "@[1] == 'k' && "skip "@[4] == ' ' && "skip "@.len() == 5,
{
    reveal_strlit("/bisect ");
    reveal_strlit("/bisect start ");
    reveal_strlit("/bisect good ");
    reveal_strlit("/bisect bad ");
    reveal_strlit("/bisect skip ");
    reveal_strlit("start ");
    reveal_strlit("good ");
    reveal_strlit("bad ");
    reveal_strlit("skip ");
}

proof fn lemma_commit_head(word: Seq<char>, token: Seq<char>, logs: Seq<RunResult>)
    requires
        word == "start "@ || word == "good "@ || word == "bad "@ || word == "skip "@,
    ensures
        bisect_completion("/bisect "@ + word + token, logs) == Some(
            ("/bisect "@ + word, offered_commits(logs, trimmed_start(token))),
        ),
{
    lemma_commit_heads();
    let head = "/bisect "@ + word;
    let p = head + token;
    lemma_after(head, token);
    lemma_after("/bisect "@, word + token);
    assert("/bisect "@ + (word + token) =~= p);
    let rest = word + token;
    assert(rest[word.len() - 1] == ' ');
    assert(!no_whitespace(rest));
    assert(p[8] == word[0] && p[9] == word[1]);
    if begins(p, "/bisect start "@) {
        lemma_begins_at(p, "/bisect start "@);
        assert("/bisect start "@[8] == 's' && "/bisect start "@[9] == 't');
    }
    if begins(p, "/bisect good "@) {
        lemma_begins_at(p, "/bisect good "@);
        assert("/bisect good "@[8] == 'g');
    }
    if begins(p, "/bisect bad "@) {
        lemma_begins_at(p, "/bisect bad "@);
        assert("/bisect bad "@[8] == 'b');
    }
}

/// Behind a subcommand that takes a commit, the commits that begin with what
/// follows it are offered.
pub proof fn law_bisect_offers_commits(token: Seq<char>, logs: Seq<RunResult>)
    requires
        no_whitespace(token),
    ensures
        bisect_completion("/bisect start "@ + token, logs) == Some(
            ("/bisect start "@, offered_commits(logs, token)),
        ),
        bisect_completion("/bisect good "@ + token, logs) == Some(
            ("/bisect good "@, offered_commits(logs, token)),
        ),
        bisect_completion("/bisect bad "@ + token, logs) == Some(
            ("/bisect bad "@, offered_commits(logs, token)),
        ),
        bisect_completion("/bisect skip "@ + token, logs) == Some(
            ("/bisect skip "@, offered_commits(logs, token)),
        ),
{
    lemma_commit_heads();
    lemma_commit_head("start "@, token, logs);
    lemma_commit_head("good "@, token, logs);
    lemma_commit_head("bad "@, token, logs);
    lemma_commit_head("skip "@, token, logs);
    assert(trimmed_start(token) == token);
}

/// Behind the other subcommands nothing is offered, and other lines are not the
/// concern of a bisection.
pub proof fn law_bisect_offers_nothing_else(rest: Seq<char>, line: Seq<char>, logs: Seq<RunResult>)
    ensures
        bisect_completion("/bisect reset "@ + rest, logs) == Some(
            ("/bisect reset "@ + rest, Seq::<Seq<char>>::empty()),
        ),
        bisect_completion("/bisect log "@ + rest, logs) == Some(
            ("/bisect log "@ + rest, Seq::<Seq<char>>::empty()),
        ),
        !begins(line, "/bisect "@) ==> bisect_completion(line, logs) is None,
{
    lemma_commit_heads();
    reveal_strlit("/bisect reset ");
    reveal_strlit("/bisect log ");
    reveal_strlit("/bisect ");
    let a = "/bisect reset "@ + rest;
    let b = "/bisect log "@ + rest;
    assert(a.subrange(0, 8) =~= "/bisect "@);
    assert(b.subrange(0, 8) =~= "/bisect "@);
    assert(a.skip(8)[5] == ' ' && b.skip(8)[3] == ' ');
    assert(!no_whitespace(a.skip(8)) && !no_whitespace(b.skip(8)));
    assert(a[8] == 'r' && b[8] == 'l');
    lemma_other_verb(a);
    lemma_other_verb(b);
}

proof fn lemma_other_verb(p: Seq<char>)
    requires
        p.len() > 8,
        p[8] != 's' && p[8] != 'g' && p[8] != 'b',
    ensures
        crate::bisect::commit_subcommand(p) is None,
{
    lemma_commit_heads();
    if begins(p, "/bisect start "@) {
        lemma_begins_at(p, "/bisect start "@);
        assert("/bisect start "@[8] == 's');
    }
    if begins(p, "/bisect good "@) {
        lemma_begins_at(p, "/bisect good "@);
        assert("/bisect good "@[8] == 'g');
    }
    if begins(p, "/bisect bad "@) {
        lemma_begins_at(p, "/bisect bad "@);
        assert("/bisect bad "@[8] == 'b');
    }
    if begins(p, "/bisect skip "@) {
        lemma_begins_at(p, "/bisect skip "@);
        assert("/bisect skip "@[8] == 's');
    }
}

proof fn lemma_apart(p: Seq<char>, q: Seq<char>, i: int)
    requires
        0 <= i < q.len(),
        p.len() <= i || ascii_lower(p[i]) != ascii_lower(q[i]),
    ensures
        !begins_ci(p, q),
        !begins(p, q),
{
    if begins_ci(p, q) {
        let head = p.take(q.len() as int);
        assert(same_ignoring_case(head, q));
        assert(ascii_lower(head[i]) == ascii_lower(q[i]));
        assert(head[i] == p[i]);
    }
    if begins(p, q) {
        lemma_begins_at(p, q);
        assert(p[i] == q[i]);
    }
}

/// Behind a flag or words that name a workspace, the workspaces of past sessions
/// that begin with what was typed are offered, and the directories where there
/// are none.
pub proof fn law_prune_offers_workspaces(
    typed: Seq<char>,
    workspaces: Seq<Seq<char>>,
    directories: Seq<Seq<char>>,
    uuids: Seq<Seq<char>>,
)
    ensures
        ({
            let known = starting_with(workspaces, typed);
            let offered = if known.len() == 0 {
                directories
            } else {
                known
            };
            &&& prune_completion("/prune --workspace "@ + typed, workspaces, directories, uuids)
                == Some((19int, offered))
            &&& prune_completion("/prune -w "@ + typed, workspaces, directories, uuids) == Some(
                (10int, offered),
            )
            &&& prune_completion("prune sessions in "@ + typed, workspaces, directories, uuids)
                == Some((18int, offered))
        }),
{
    reveal_strlit("/prune --workspace ");
    reveal_strlit("/prune -w ");
    reveal_strlit("prune sessions in ");
    let a = "/prune --workspace "@ + typed;
    let b = "/prune -w "@ + typed;
    let c = "prune sessions in "@ + typed;
    lemma_after("/prune --workspace "@, typed);
    lemma_after("/prune -w "@, typed);
    lemma_after("prune sessions in "@, typed);
    assert(b[8] == 'w' && "/prune --workspace "@[8] == '-');
    lemma_apart(b, "/prune --workspace "@, 8);
    assert(c[0] == 'p');
    lemma_apart(c, "/prune --workspace "@, 0);
    lemma_apart(c, "/prune -w "@, 0);
}

/// Behind a flag or words that name an age there is nothing to complete.
pub proof fn law_prune_offers_no_ages(
    typed: Seq<char>,
    workspaces: Seq<Seq<char>>,
    directories: Seq<Seq<char>>,
    uuids: Seq<Seq<char>>,
)
    ensures
        ({
            let nothing = |p: Seq<char>| Some((p.len() as int, Seq::<Seq<char>>::empty()));
            let a = "/prune --older-than "@ + typed;
            let b = "/prune -o "@ + typed;
            let c = "prune sessions older than "@ + typed;
            &&& prune_completion(a, workspaces, directories, uuids) == nothing(a)
            &&& prune_completion(b, workspaces, directories, uuids) == nothing(b)
            &&& prune_completion(c, workspaces, directories, uuids) == nothing(c)
        }),
{
    reveal_strlit("/prune --workspace ");
    reveal_strlit("/prune -w ");
    reveal_strlit("prune sessions in ");
    reveal_strlit("/prune --older-than ");
    reveal_strlit("/prune -o ");
    reveal_strlit("prune sessions older than ");
    let a = "/prune --older-than "@ + typed;
    let b = "/prune -o "@ + typed;
    let c = "prune sessions older than "@ + typed;
    lemma_after("/prune --older-than "@, typed);
    lemma_after("/prune -o "@, typed);
    lemma_after("prune sessions older than "@, typed);
    assert(a[0] == '/' && a[8] == '-' && a[9] == 'o');
    assert(b[0] == '/' && b[8] == 'o');
    assert(c[0] == 'p' && c[15] == 'o');
    lemma_apart(a, "/prune --workspace "@, 9);
    lemma_apart(a, "/prune -w "@, 8);
    lemma_apart(a, "prune sessions in "@, 0);
    lemma_apart(b, "/prune --workspace "@, 8);
    lemma_apart(b, "/prune -w "@, 8);
    lemma_apart(b, "prune sessions in "@, 0);
    lemma_apart(c, "/prune --workspace "@, 0);
    lemma_apart(c, "/prune -w "@, 0);
    lemma_apart(c, "prune sessions in "@, 15);
}

/// Behind words that name a session, the sessions that begin with what was typed
/// are offered; behind the slash command alone, `all` as well where it fits, and
/// the flags where a flag is begun.
pub proof fn law_prune_offers_sessions(
    typed: Seq<char>,
    x: Seq<char>,
    workspaces: Seq<Seq<char>>,
    directories: Seq<Seq<char>>,
    uuids: Seq<Seq<char>>,
)
    requires
        no_whitespace(typed),
    ensures
        prune_completion("prune session "@ + typed, workspaces, directories, uuids) == Some(
            (14int, starting_with(uuids, typed)),
        ),
        match prune_completion("/prune "@ + typed, workspaces, directories, uuids) {
            Some((start, offered)) => {
                &&& start == 7
                &&& typed.len() > 0 && typed[0] == '-' ==> offered == starting_with(
                    seq!["--workspace"@, "--older-than"@],
                    typed,
                )
                &&& typed.len() == 0 || typed[0] != '-' ==> (offered.contains(x) <==> (
                uuids.contains(x) && typed.is_prefix_of(x)) || (x == "all"@ && typed.is_prefix_of(
                    x,
                )))
            },
            None => false,
        },
{
    reveal_strlit("/prune --workspace ");
    reveal_strlit("/prune -w ");
    reveal_strlit("prune sessions in ");
    reveal_strlit("/prune --older-than ");
    reveal_strlit("/prune -o ");
    reveal_strlit("prune sessions older than ");
    reveal_strlit("prune session ");
    reveal_strlit("/prune ");
    reveal_strlit("-");
    let a = "prune session "@ + typed;
    let b = "/prune "@ + typed;
    lemma_after("prune session "@, typed);
    lemma_after("/prune "@, typed);
    assert(a[0] == 'p' && a[13] == ' ');
    assert(b[0] == '/');
    lemma_apart(a, "/prune --workspace "@, 0);
    lemma_apart(a, "/prune -w "@, 0);
    lemma_apart(a, "prune sessions in "@, 13);
    lemma_apart(a, "/prune --older-than "@, 0);
    lemma_apart(a, "/prune -o "@, 0);
    lemma_apart(a, "prune sessions older than "@, 13);
    lemma_no_blank(typed, "/prune --workspace "@);
    lemma_no_blank(typed, "/prune -w "@);
    lemma_no_blank(typed, "/prune --older-than "@);
    lemma_no_blank(typed, "/prune -o "@);
    lemma_apart(b, "prune sessions in "@, 0);
    lemma_apart(b, "prune sessions older than "@, 0);
    lemma_apart(b, "prune session "@, 0);
    if typed.len() > 0 && typed[0] == '-' {
        assert(typed.subrange(0, 1) =~= "-"@);
    } else if "-"@.is_prefix_of(typed) {
        assert(typed.subrange(0, 1)[0] == typed[0]);
    }
    let list = crate::prune::session_candidates(typed, uuids);
    let matching = starting_with(uuids, typed);
    law_narrowed_lists_keep_what_fits(uuids, typed, x);
    if typed.is_prefix_of("all"@) {
        if typed.len() == 0 {
            assert(list == matching.push("all"@));
            assert(list[matching.len() as int] == "all"@);
            if matching.contains(x) {
                let i = choose|i: int| 0 <= i < matching.len() && matching[i] == x;
                assert(list[i] == x);
            }
            if list.contains(x) && x != "all"@ {
                let i = choose|i: int| 0 <= i < list.len() && list[i] == x;
                assert(matching[i] == x);
            }
        } else {
            assert(list == seq!["all"@] + matching);
            assert(list[0] == "all"@);
            if matching.contains(x) {
                let i = choose|i: int| 0 <= i < matching.len() && matching[i] == x;
                assert(list[i + 1] == x);
            }
            if list.contains(x) && x != "all"@ {
                let i = choose|i: int| 0 <= i < list.len() && list[i] == x;
                assert(matching[i - 1] == x);
            }
        }
    }
}

/// A slash command with an argument that has no blank does not begin with a flag
/// and a blank behind it.
proof fn lemma_no_blank(typed: Seq<char>, q: Seq<char>)
    requires
        no_whitespace(typed),
        q.len() > 8,
        q.last() == ' ',
    ensures
        !begins_ci("/prune "@ + typed, q),
{
    reveal_strlit("/prune ");
    let p = "/prune "@ + typed;
    let i = q.len() - 1;
    if i < p.len() {
        assert(p[i] == typed[i - 7]);
        assert(!whitespace(typed[i - 7]));
        assert(ascii_lower(' ') == ' ');
        assert(ascii_lower(p[i]) != ' ');
    }
    lemma_apart(p, q, i);
}

/// Other lines are not the concern of pruning.
pub proof fn law_prune_leaves_other_lines(
    line: Seq<char>,
    workspaces: Seq<Seq<char>>,
    directories: Seq<Seq<char>>,
    uuids: Seq<Seq<char>>,
)
    requires
        line.len() < 7 || !same_ignoring_case(line.take(6), "prune "@),
        line.len() < 7 || !same_ignoring_case(line.take(7), "/prune "@),
    ensures
        prune_completion(line, workspaces, directories, uuids) is None,
{
    reveal_strlit("/prune --workspace ");
    reveal_strlit("/prune -w ");
    reveal_strlit("prune sessions in ");
    reveal_strlit("/prune --older-than ");
    reveal_strlit("/prune -o ");
    reveal_strlit("prune sessions older than ");
    reveal_strlit("prune session ");
    reveal_strlit("/prune ");
    reveal_strlit("prune ");
    lemma_other("/prune --workspace "@, "/prune "@, line);
    lemma_other("/prune -w "@, "/prune "@, line);
    lemma_other("prune sessions in "@, "prune "@, line);
    lemma_other("/prune --older-than "@, "/prune "@, line);
    lemma_other("/prune -o "@, "/prune "@, line);
    lemma_other("prune sessions older than "@, "prune "@, line);
    lemma_other("prune session "@, "prune "@, line);
    lemma_other("/prune "@, "/prune "@, line);
}

proof fn lemma_other(q: Seq<char>, head: Seq<char>, line: Seq<char>)
    requires
        q == "/prune --workspace "@ || q == "/prune -w "@ || q == "prune sessions in "@ || q
            == "/prune --older-than "@ || q == "/prune -o "@ || q == "prune sessions older than "@
            || q == "prune session "@ || q == "/prune "@,
        head == (if q[0] == '/' { "/prune "@ } else { "prune "@ }),
        line.len() < 7 || !same_ignoring_case(line.take(head.len() as int), head),
    ensures
        !begins_ci(line, q),
        !begins(line, q),
{
    reveal_strlit("/prune --workspace ");
    reveal_strlit("/prune -w ");
    reveal_strlit("prune sessions in ");
    reveal_strlit("/prune --older-than ");
    reveal_strlit("/prune -o ");
    reveal_strlit("prune sessions older than ");
    reveal_strlit("prune session ");
    reveal_strlit("/prune ");
    reveal_strlit("prune ");
    assert(q.len() >= 7);
    assert(head =~= q.take(head.len() as int));
    if begins(line, q) {
        lemma_begins_at(line, q);
        assert forall|i: int| 0 <= i < q.len() implies ascii_lower(
            #[trigger] line.take(q.len() as int)[i],
        ) == ascii_lower(q[i]) by {
            assert(line[i] == q[i]);
        }
        assert(begins_ci(line, q));
    }
    if begins_ci(line, q) {
        let a = line.take(q.len() as int);
        let b = line.take(head.len() as int);
        assert forall|i: int| 0 <= i < b.len() implies ascii_lower(#[trigger] b[i])
            == ascii_lower(head[i]) by {
            assert(a[i] == b[i]);
            assert(head[i] == q[i]);
        }
        assert(same_ignoring_case(b, head));
    }
}

/// The questions that git is asked for a completion.
pub proof fn law_git_is_asked(branch: Seq<char>)
    ensures
        listing_args(GitListing::<Seq<char>>::Branches) == seq![
            "branch"@,
            "--all"@,
            "--format=%(refname:short)"@,
        ],
        listing_args(GitListing::<Seq<char>>::LocalBranches) == seq![
            "branch"@,
            "--format=%(refname:short)"@,
        ],
        listing_args(GitListing::<Seq<char>>::Tags) == seq!["tag"@],
        listing_args(GitListing::<Seq<char>>::UntrackedFiles) == seq![
            "ls-files"@,
            "--others"@,
            "--exclude-standard"@,
            "--directory"@,
        ],
        listing_args(GitListing::<Seq<char>>::TrackedFiles) == seq!["ls-files"@],
        listing_args(GitListing::BranchCheck(branch)) == seq!["rev-parse"@, "--verify"@, branch],
        listing_args(GitListing::BranchLog(branch)) == seq![
            "log"@,
            "--abbrev-commit"@,
            "--format=%h"@,
            branch,
        ],
{
}

/// What a completion needs is asked for, and nothing else.
pub proof fn law_completions_ask_for_what_they_need(
    token: Seq<char>,
    list: Seq<Seq<char>>,
)
    ensures
        ({
            let nothing = CompletionNeeds {
                files: false,
                entries: false,
                branches: false,
                local_branches: false,
                tags: false,
                untracked_files: false,
                tracked_files: false,
                logs: false,
            };
            &&& needs_of(CompletionQuery::<Seq<char>, Seq<Seq<char>>>::Listed(list)) == nothing
            &&& needs_of(CompletionQuery::<Seq<char>, Seq<Seq<char>>>::ShowFiles(token)) == (
            CompletionNeeds { files: true, ..nothing })
            &&& needs_of(CompletionQuery::<Seq<char>, Seq<Seq<char>>>::Files(token)) == (
            CompletionNeeds { files: true, ..nothing })
            &&& needs_of(CompletionQuery::<Seq<char>, Seq<Seq<char>>>::Directory(token)) == (
            CompletionNeeds { entries: true, ..nothing })
            &&& needs_of(CompletionQuery::<Seq<char>, Seq<Seq<char>>>::Checkout(token)) == (
            CompletionNeeds { entries: true, branches: true, ..nothing })
            &&& needs_of(CompletionQuery::<Seq<char>, Seq<Seq<char>>>::Switch(token)) == (
            CompletionNeeds { branches: true, tags: true, ..nothing })
            &&& needs_of(CompletionQuery::<Seq<char>, Seq<Seq<char>>>::Branches(token)) == (
            CompletionNeeds { branches: true, ..nothing })
            &&& needs_of(CompletionQuery::<Seq<char>, Seq<Seq<char>>>::Deletable(token)) == (
            CompletionNeeds { local_branches: true, ..nothing })
            &&& needs_of(CompletionQuery::<Seq<char>, Seq<Seq<char>>>::UntrackedFiles(token)) == (
            CompletionNeeds { untracked_files: true, ..nothing })
            &&& needs_of(CompletionQuery::<Seq<char>, Seq<Seq<char>>>::TrackedFiles(token)) == (
            CompletionNeeds { tracked_files: true, ..nothing })
            &&& needs_of(CompletionQuery::<Seq<char>, Seq<Seq<char>>>::Commits(token)) == (
            CompletionNeeds { logs: true, ..nothing })
        }),
        directory_of(CompletionQuery::Listed(list)) is None,
        directory_of(CompletionQuery::Branches(token)) is None,
        directory_of(CompletionQuery::Directory(token)) is Some,
        directory_of(CompletionQuery::Checkout(token)) is Some,
{
}

proof fn lemma_one_word(t: Seq<char>)
    requires
        no_whitespace(t),
    ensures
        last_word_start(t) == 0,
    decreases t.len(),
{
    if t.len() > 0 {
        let init = t.drop_last();
        assert forall|i: int| 0 <= i < init.len() implies !whitespace(#[trigger] init[i]) by {
            assert(init[i] == t[i]);
        }
        lemma_one_word(init);
        assert(!whitespace(t[t.len() - 1]));
    }
}

/// Whether a text is one word to the shell, with no sign that it reads.
pub open spec fn one_word(s: Seq<char>) -> bool {
    &&& s.len() > 0
    &&& forall|k: int|
        0 <= k < s.len() ==> !whitespace(#[trigger] s[k]) && s[k] != '"' && s[k] != '\'' && s[k]
            != '\\' && s[k] != '$' && s[k] != '`'
}

proof fn lemma_word_mode(s: Seq<char>)
    requires
        s.len() == 0 || one_word(s),
    ensures
        shell_mode(s) is Plain,
    decreases s.len(),
{
    if s.len() > 0 {
        let init = s.drop_last();
        assert forall|k: int| 0 <= k < init.len() implies !whitespace(#[trigger] init[k]) && init[k]
            != '"' && init[k] != '\'' && init[k] != '\\' && init[k] != '$' && init[k] != '`' by {
            assert(init[k] == s[k]);
        }
        lemma_word_mode(init);
        let c = s[s.len() - 1];
        assert(!whitespace(c) && c != '"' && c != '\'' && c != '\\');
    }
}

proof fn lemma_two_words(first: Seq<char>, t: Seq<char>)
    requires
        one_word(first),
        no_whitespace(t),
    ensures
        last_word_start(first.push(' ') + t) == first.len() + 1,
    decreases t.len(),
{
    let all = first.push(' ') + t;
    if t.len() == 0 {
        assert(all =~= first.push(' '));
        assert(all.take(all.len() - 1) =~= first);
        lemma_word_mode(first);
        assert(separates(all, all.len() - 1));
    } else {
        let init = t.drop_last();
        assert forall|i: int| 0 <= i < init.len() implies !whitespace(#[trigger] init[i]) by {
            assert(init[i] == t[i]);
        }
        lemma_two_words(first, init);
        assert(all.drop_last() =~= first.push(' ') + init);
        assert(all[all.len() - 1] == t[t.len() - 1]);
        assert(!whitespace(t[t.len() - 1]));
    }
}

/// The show command offers its flags where a flag is begun, and the files of the
/// workspace else, behind a flag too. Behind a path nothing more is offered but
/// flags.
pub proof fn law_show_offers_flags_and_files(first: Seq<char>, t: Seq<char>)
    requires
        one_word(first),
        no_whitespace(t),
    ensures
        ({
            let dash = t.len() > 0 && t[0] == '-';
            let flags = CompletionQuery::<Seq<char>, Seq<Seq<char>>>::Listed(
                deduplicated(sorted_texts(starting_with(seq!["--hash"@, "--author"@], t))),
            );
            &&& dash ==> show_file_query(t) == flags
            &&& dash ==> show_file_query(first.push(' ') + t) == flags
            &&& !dash ==> show_file_query(t) == CompletionQuery::<
                Seq<char>,
                Seq<Seq<char>>,
            >::ShowFiles(t)
            &&& !dash && first[0] == '-' ==> show_file_query(first.push(' ') + t)
                == CompletionQuery::<Seq<char>, Seq<Seq<char>>>::ShowFiles(t)
            &&& !dash && first[0] != '-' ==> show_file_query(first.push(' ') + t)
                == CompletionQuery::<Seq<char>, Seq<Seq<char>>>::Listed(seq![])
        }),
{
    let all = first.push(' ') + t;
    reveal_strlit("-");
    lemma_one_word(t);
    lemma_two_words(first, t);
    assert(t.skip(0) =~= t);
    assert(all.skip(first.len() as int + 1) =~= t);
    if t.len() > 0 && t[0] == '-' {
        assert(t.subrange(0, 1) =~= "-"@);
    } else if "-"@.is_prefix_of(t) {
        assert(t.subrange(0, 1)[0] == t[0]);
    }
    if first[0] == '-' {
        assert(first.subrange(0, 1) =~= "-"@);
    } else if "-"@.is_prefix_of(first) {
        assert(first.subrange(0, 1)[0] == first[0]);
    }
    lemma_earlier_words(first, t);
    assert(seq![first][0] == first);
}

proof fn lemma_earlier_words(first: Seq<char>, t: Seq<char>)
    requires
        one_word(first),
        no_whitespace(t),
    ensures
        earlier_words(first.push(' ') + t) == seq![first],
        earlier_words(t).len() == 0,
{
    let all = first.push(' ') + t;
    let none = Seq::<char>::empty();
    lemma_one_word(t);
    lemma_two_words(first, t);
    assert(t.take(0) =~= none);
    law_quotes_keep_words_together('"', seq!['x']);
    assert(all.take(first.len() as int + 1) =~= first.push(' '));
    assert(first.push(' ').drop_last() =~= first);
    assert(!whitespace(first[first.len() - 1]));
    reveal_with_fuel(trimmed_end, 3);
    assert(trimmed_end(first.push(' ')) == first);
    let words = seq![first];
    assert forall|i: int, k: int| 0 <= i < words.len() && 0 <= k < words[i].len() implies !whitespace(
        #[trigger] words[i][k],
    ) && words[i][k] != '"' && words[i][k] != '\'' && words[i][k] != '\\' && words[i][k] != '$'
        && words[i][k] != '`' by {
        assert(words[i][k] == first[k]);
    }
    law_plain_words_are_words(words);
    reveal_with_fuel(joined, 2);
    assert(joined(words, seq![' ']) =~= first);
}

/// Moving a file offers tracked files for what is moved, and any path for where
/// it goes.
pub proof fn law_move_offers_a_file_and_then_a_place(first: Seq<char>, t: Seq<char>)
    requires
        one_word(first),
        no_whitespace(t),
    ensures
        move_file_query(t) == CompletionQuery::<Seq<char>, Seq<Seq<char>>>::TrackedFiles(t),
        move_file_query(first.push(' ') + t) == CompletionQuery::<
            Seq<char>,
            Seq<Seq<char>>,
        >::Directory(t),
{
    lemma_one_word(t);
    lemma_two_words(first, t);
    lemma_earlier_words(first, t);
    assert(t.skip(0) =~= t);
    assert((first.push(' ') + t).skip(first.len() as int + 1) =~= t);
}

} // verus!
