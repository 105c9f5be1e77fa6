//! What a completion offers: which texts are among its candidates, and how they
//! stand to what was typed.
use vstd::prelude::*;
use vstd::string::*;

use crate::bytes::RunResult;
use crate::completion::{
    file_matches, joined_once, last_slash, matching_entries, matching_files, opening_quote, refs_of,
    repository_names, token_directory, token_name, unprotected, without_opening_quote,
    CompletionQuery, DirectoryEntry, WorkspaceFile,
};
use crate::gather::{query_candidates, CompletionData};
use crate::gitignore::{offers_path, IgnoreRules};
use crate::lists::{
    directories_below, entries_with, files_below, listed_names, names_in, next_directory,
    starting_with, tracked_in, untracked_in,
};
use crate::order::{deduplicated, law_sorting_keeps_the_texts, sorted_texts, text_le};
use crate::text::{first_index, lemma_first_index_props, lines_of, trimmed, with_slashes};

verus! {

proof fn lemma_contains_push(s: Seq<Seq<char>>, y: Seq<char>, x: Seq<char>)
    ensures
        s.push(y).contains(x) <==> s.contains(x) || x == y,
{
    let all = s.push(y);
    assert(all[s.len() as int] == y);
    if s.contains(x) {
        let i = choose|i: int| 0 <= i < s.len() && s[i] == x;
        assert(all[i] == x);
    }
    if all.contains(x) && x != y {
        let i = choose|i: int| 0 <= i < all.len() && all[i] == x;
        assert(s[i] == x);
    }
}

proof fn lemma_contains_add(a: Seq<Seq<char>>, b: Seq<Seq<char>>, x: Seq<char>)
    ensures
        (a + b).contains(x) <==> a.contains(x) || b.contains(x),
{
    let all = a + b;
    if a.contains(x) {
        let i = choose|i: int| 0 <= i < a.len() && a[i] == x;
        assert(all[i] == x);
    }
    if b.contains(x) {
        let i = choose|i: int| 0 <= i < b.len() && b[i] == x;
        assert(all[a.len() + i] == x);
    }
    if all.contains(x) {
        let i = choose|i: int| 0 <= i < all.len() && all[i] == x;
        if i < a.len() {
            assert(a[i] == x);
        } else {
            assert(b[i - a.len()] == x);
        }
    }
}

proof fn lemma_contains_last(s: Seq<Seq<char>>, x: Seq<char>)
    requires
        s.len() > 0,
    ensures
        s.contains(x) <==> s.drop_last().contains(x) || x == s.last(),
{
    assert(s.drop_last().push(s.last()) =~= s);
    lemma_contains_push(s.drop_last(), s.last(), x);
}

/// Sorting neither adds nor drops a text, and the texts ascend.
pub proof fn law_sorted_texts_are_the_same(s: Seq<Seq<char>>, x: Seq<char>)
    ensures
        sorted_texts(s).contains(x) <==> s.contains(x),
        sorted_texts(s).len() == s.len(),
{
    broadcast use vstd::seq_lib::group_to_multiset_ensures;

    law_sorting_keeps_the_texts(s);
    let sorted = sorted_texts(s);
    assert(sorted.to_multiset().count(x) == s.to_multiset().count(x));
    assert(sorted.to_multiset().len() == s.to_multiset().len());
}

/// Dropping what stands twice drops no text.
pub proof fn law_deduplicated_texts_are_the_same(s: Seq<Seq<char>>, x: Seq<char>)
    ensures
        deduplicated(s).contains(x) <==> s.contains(x),
    decreases s.len(),
{
    if s.len() > 1 {
        law_deduplicated_texts_are_the_same(s.drop_last(), x);
        lemma_contains_last(s, x);
        lemma_contains_push(deduplicated(s.drop_last()), s.last(), x);
        if s[s.len() - 2] == s.last() {
            assert(s.drop_last()[s.len() - 2] == s.last());
        }
    }
}

/// Behind sorting and dropping no text stands twice.
pub proof fn law_sorted_texts_stand_once(s: Seq<Seq<char>>, i: int, j: int)
    requires
        0 <= i < j < deduplicated(sorted_texts(s)).len(),
    ensures
        deduplicated(sorted_texts(s))[i] != deduplicated(sorted_texts(s))[j],
        text_le(deduplicated(sorted_texts(s))[i], deduplicated(sorted_texts(s))[j]),
{
    law_sorting_keeps_the_texts(s);
    law_sorted_texts_are_the_same(s, seq![]);
    lemma_dedup_ascends(sorted_texts(s), i, j);
}

proof fn lemma_dedup_last(s: Seq<Seq<char>>)
    requires
        s.len() > 0,
    ensures
        deduplicated(s).len() > 0,
        deduplicated(s).last() == s.last(),
    decreases s.len(),
{
    if s.len() > 1 && s[s.len() - 2] == s.last() {
        lemma_dedup_last(s.drop_last());
        assert(s.drop_last().last() == s[s.len() - 2]);
    }
}

proof fn lemma_dedup_ascends(s: Seq<Seq<char>>, i: int, j: int)
    requires
        forall|i: int, j: int| 0 <= i < j < s.len() ==> #[trigger] text_le(s[i], s[j]),
        0 <= i < j < deduplicated(s).len(),
    ensures
        deduplicated(s)[i] != deduplicated(s)[j],
        text_le(deduplicated(s)[i], deduplicated(s)[j]),
    decreases s.len(),
{
    if s.len() > 1 {
        let init = s.drop_last();
        assert forall|i: int, j: int| 0 <= i < j < init.len() implies #[trigger] text_le(
            init[i],
            init[j],
        ) by {
            assert(text_le(s[i], s[j]));
        }
        let rest = deduplicated(init);
        if s[s.len() - 2] == s.last() {
            lemma_dedup_ascends(init, i, j);
        } else if j < rest.len() {
            lemma_dedup_ascends(init, i, j);
        } else {
            law_deduplicated_texts_are_the_same(init, rest[i]);
            assert(rest.contains(rest[i]));
            let k = choose|k: int| 0 <= k < init.len() && init[k] == rest[i];
            assert(text_le(s[k], s[s.len() - 1]));
            if rest[i] == s.last() {
                lemma_dedup_last(init);
                assert(text_le(s[k], s[s.len() - 2]) || k == s.len() - 2);
                assert(text_le(s[s.len() - 2], s[s.len() - 1]));
                if k < s.len() - 2 {
                    crate::order::lemma_text_le_antisymmetric(s.last(), s[s.len() - 2]);
                }
            }
        }
    }
}

/// The order of texts is that of a dictionary: a text comes before its
/// extensions, and otherwise the first character that differs decides.
pub proof fn law_texts_are_ordered_as_in_a_dictionary(
    p: Seq<char>,
    x: char,
    y: char,
    s: Seq<char>,
    t: Seq<char>,
)
    requires
        x < y,
    ensures
        text_le(p, p + s),
        s.len() > 0 ==> !text_le(p + s, p),
        text_le(p + seq![x] + s, p + seq![y] + t),
        !text_le(p + seq![y] + t, p + seq![x] + s),
    decreases p.len(),
{
    if p.len() > 0 {
        let q = p.drop_first();
        law_texts_are_ordered_as_in_a_dictionary(q, x, y, s, t);
        assert((p + s).drop_first() =~= q + s);
        assert((p + seq![x] + s).drop_first() =~= q + seq![x] + s);
        assert((p + seq![y] + t).drop_first() =~= q + seq![y] + t);
    }
}

/// A list that is narrowed to a prefix holds exactly the entries that begin with
/// it.
pub proof fn law_narrowed_lists_keep_what_fits(
    list: Seq<Seq<char>>,
    prefix: Seq<char>,
    x: Seq<char>,
)
    ensures
        starting_with(list, prefix).contains(x) <==> list.contains(x) && prefix.is_prefix_of(x),
    decreases list.len(),
{
    if list.len() > 0 {
        law_narrowed_lists_keep_what_fits(list.drop_last(), prefix, x);
        lemma_contains_last(list, x);
        lemma_contains_push(starting_with(list.drop_last(), prefix), list.last(), x);
    }
}

/// Narrowing keeps the order: what fits in one list comes before what fits in a
/// list behind it.
pub proof fn law_narrowing_keeps_the_order(
    a: Seq<Seq<char>>,
    b: Seq<Seq<char>>,
    prefix: Seq<char>,
)
    ensures
        starting_with(a + b, prefix) == starting_with(a, prefix) + starting_with(b, prefix),
    decreases b.len(),
{
    if b.len() == 0 {
        assert(a + b =~= a);
        assert(starting_with(a, prefix) + starting_with(b, prefix) =~= starting_with(a, prefix));
    } else {
        law_narrowing_keeps_the_order(a, b.drop_last(), prefix);
        assert((a + b).drop_last() =~= a + b.drop_last());
        assert(starting_with(a + b, prefix) =~= starting_with(a, prefix) + starting_with(
            b,
            prefix,
        ));
    }
}

proof fn lemma_listed(rows: Seq<Seq<char>>, heads: bool, x: Seq<char>)
    ensures
        listed_names(rows, heads).contains(x) <==> (x.len() > 0 && (heads || (x != "HEAD"@
            && !"/HEAD"@.is_suffix_of(x))) && exists|i: int|
            0 <= i < rows.len() && trimmed(#[trigger] rows[i]) == x),
    decreases rows.len(),
{
    if rows.len() > 0 {
        let init = rows.drop_last();
        lemma_listed(init, heads, x);
        let rest = listed_names(init, heads);
        lemma_contains_push(rest, trimmed(rows.last()), x);
        if exists|i: int| 0 <= i < init.len() && trimmed(#[trigger] init[i]) == x {
            let i = choose|i: int| 0 <= i < init.len() && trimmed(#[trigger] init[i]) == x;
            assert(trimmed(rows[i]) == x);
        }
        if exists|i: int| 0 <= i < rows.len() && trimmed(#[trigger] rows[i]) == x {
            let i = choose|i: int| 0 <= i < rows.len() && trimmed(#[trigger] rows[i]) == x;
            if i < init.len() {
                assert(trimmed(init[i]) == x);
            }
        }
    }
}

/// Whether a line of a text, without white space around it, is a name.
pub open spec fn has_line(text: Seq<char>, name: Seq<char>) -> bool {
    exists|i: int| 0 <= i < lines_of(text).len() && trimmed(#[trigger] lines_of(text)[i]) == name
}

/// The names that git prints are read line by line, and those of heads are left
/// out where branches are meant.
pub proof fn law_names_are_read_line_by_line(text: Seq<char>, heads: bool, x: Seq<char>)
    ensures
        names_in(text, heads).contains(x) <==> x.len() > 0 && has_line(text, x) && (heads || (x
            != "HEAD"@ && !"/HEAD"@.is_suffix_of(x))),
{
    let rows = lines_of(text);
    lemma_listed(rows, heads, x);
    law_sorted_texts_are_the_same(listed_names(rows, heads), x);
    law_deduplicated_texts_are_the_same(sorted_texts(listed_names(rows, heads)), x);
}

/// The text that git printed in answer to a question, if it was asked and
/// succeeded.
pub open spec fn answered(run: Option<RunResult>) -> Option<Seq<char>> {
    match run {
        Some(RunResult::Finished(output)) => if output.success {
            Some(output.out_text())
        } else {
            None
        },
        _ => None,
    }
}

proof fn lemma_repository_names(run: Option<RunResult>, heads: bool, x: Seq<char>)
    ensures
        repository_names(run, heads).contains(x) <==> (answered(run) matches Some(text) && x.len()
            > 0 && has_line(text, x) && (heads || (x != "HEAD"@ && !"/HEAD"@.is_suffix_of(x)))),
{
    if let Some(text) = answered(run) {
        law_names_are_read_line_by_line(text, heads, x);
    }
}

/// A merge offers exactly the branches that git prints and that begin with what
/// was typed.
pub proof fn law_merge_offers_branches(data: CompletionData, token: Seq<char>, x: Seq<char>)
    ensures
        query_candidates(CompletionQuery::Branches(token), data).contains(x) <==> (answered(
            data.branches,
        ) matches Some(text) && x.len() > 0 && has_line(text, x) && x != "HEAD"@
            && !"/HEAD"@.is_suffix_of(x) && token.is_prefix_of(x)),
{
    lemma_repository_names(data.branches, false, x);
    law_narrowed_lists_keep_what_fits(repository_names(data.branches, false), token, x);
}

proof fn lemma_unprotected(list: Seq<Seq<char>>, x: Seq<char>)
    ensures
        unprotected(list).contains(x) <==> list.contains(x) && x != "main"@ && x != "master"@,
    decreases list.len(),
{
    if list.len() > 0 {
        lemma_unprotected(list.drop_last(), x);
        lemma_contains_last(list, x);
        lemma_contains_push(unprotected(list.drop_last()), list.last(), x);
    }
}

/// A deletion offers exactly the local branches that begin with what was typed,
/// but never `main` and `master`.
pub proof fn law_delete_offers_local_branches(
    data: CompletionData,
    token: Seq<char>,
    x: Seq<char>,
)
    ensures
        query_candidates(CompletionQuery::Deletable(token), data).contains(x) <==> (answered(
            data.local_branches,
        ) matches Some(text) && x.len() > 0 && has_line(text, x) && token.is_prefix_of(x) && x
            != "main"@ && x != "master"@),
{
    let names = repository_names(data.local_branches, true);
    lemma_repository_names(data.local_branches, true, x);
    law_narrowed_lists_keep_what_fits(names, token, x);
    lemma_unprotected(starting_with(names, token), x);
}

/// Switching offers exactly the branches and the tags that begin with what was
/// typed.
pub proof fn law_switch_offers_branches_and_tags(
    data: CompletionData,
    token: Seq<char>,
    x: Seq<char>,
)
    ensures
        query_candidates(CompletionQuery::Switch(token), data).contains(x) <==> token.is_prefix_of(
            x,
        ) && x.len() > 0 && ((answered(data.branches) matches Some(text) && has_line(text, x) && x
            != "HEAD"@ && !"/HEAD"@.is_suffix_of(x)) || (answered(data.tags) matches Some(text)
            && has_line(text, x))),
{
    let branches = repository_names(data.branches, false);
    let tags = repository_names(data.tags, true);
    lemma_repository_names(data.branches, false, x);
    lemma_repository_names(data.tags, true, x);
    lemma_contains_add(branches, tags, x);
    law_sorted_texts_are_the_same(branches + tags, x);
    law_deduplicated_texts_are_the_same(sorted_texts(branches + tags), x);
    law_narrowed_lists_keep_what_fits(refs_of(data.branches, data.tags), token, x);
}

proof fn lemma_joined_once(list: Seq<Seq<char>>, more: Seq<Seq<char>>, x: Seq<char>)
    ensures
        joined_once(list, more).contains(x) <==> list.contains(x) || more.contains(x),
        list.is_prefix_of(joined_once(list, more)),
    decreases more.len(),
{
    if more.len() > 0 {
        lemma_joined_once(list, more.drop_last(), x);
        lemma_contains_last(more, x);
        let rest = joined_once(list, more.drop_last());
        lemma_contains_push(rest, more.last(), x);
        assert(list =~= rest.push(more.last()).subrange(0, list.len() as int));
    } else {
        assert(list =~= list.subrange(0, list.len() as int));
    }
}

/// A checkout offers the branches that begin with what was typed, and behind
/// them the files.
pub proof fn law_checkout_offers_branches_then_files(
    data: CompletionData,
    token: Seq<char>,
    x: Seq<char>,
)
    ensures
        ({
            let all = query_candidates(CompletionQuery::Checkout(token), data);
            let branches = query_candidates(CompletionQuery::Branches(token), data);
            let files = query_candidates(CompletionQuery::Directory(token), data);
            &&& all.contains(x) <==> branches.contains(x) || files.contains(x)
            &&& branches.is_prefix_of(all)
        }),
{
    lemma_joined_once(
        query_candidates(CompletionQuery::Branches(token), data),
        query_candidates(CompletionQuery::Directory(token), data),
        x,
    );
}

/// What an entry of a directory makes of a token: the token, what is left of the
/// name, and a slash behind a directory.
pub open spec fn extended(token: Seq<char>, entry: DirectoryEntry) -> Seq<char> {
    token + entry.name@.skip(token_name(token).len() as int) + (if entry.is_dir {
        "/"@
    } else {
        ""@
    })
}

proof fn lemma_token_parts(token: Seq<char>)
    ensures
        match last_slash(token) {
            Some(k) => 0 <= k < token.len() && token == token_directory(token) + seq!['/']
                + token_name(token) && token_directory(token).len() == k && !token_name(
                token,
            ).contains('/'),
            None => token_directory(token).len() == 0 && token_name(token) == token
                && !token.contains('/'),
        },
    decreases token.len(),
{
    if token.len() > 0 {
        let init = token.drop_last();
        if token.last() == '/' {
            assert(token =~= token_directory(token) + seq!['/'] + token_name(token));
        } else {
            lemma_token_parts(init);
            if let Some(k) = last_slash(init) {
                assert(init[k] == '/') by {
                    assert((token_directory(init) + seq!['/'] + token_name(init))[k] == '/');
                }
                assert(token =~= token_directory(token) + seq!['/'] + token_name(token));
                let name = token_name(token);
                if name.contains('/') {
                    let i = choose|i: int| 0 <= i < name.len() && name[i] == '/';
                    assert(i < name.len() - 1);
                    assert(token_name(init)[i] == '/');
                }
            } else if token.contains('/') {
                let i = choose|i: int| 0 <= i < token.len() && token[i] == '/';
                assert(init[i] == '/');
            }
        }
    }
}

proof fn lemma_candidate_extends(entry: DirectoryEntry, token: Seq<char>)
    requires
        token_name(token).is_prefix_of(entry.name@),
        last_slash(token) != Some(0int),
    ensures
        entry.candidate(token) == extended(token, entry),
        token.is_prefix_of(entry.candidate(token)),
{
    reveal_strlit("/");
    reveal_strlit("");
    lemma_token_parts(token);
    let name = token_name(token);
    assert(name =~= entry.name@.subrange(0, name.len() as int));
    assert(entry.name@ =~= name + entry.name@.skip(name.len() as int));
    assert(entry.candidate(token) =~= extended(token, entry));
    assert(token =~= extended(token, entry).subrange(0, token.len() as int));
}

proof fn lemma_matching_entries(
    entries: Seq<DirectoryEntry>,
    token: Seq<char>,
    rules: Option<IgnoreRules>,
    x: Seq<char>,
)
    requires
        last_slash(token) != Some(0int),
    ensures
        matching_entries(entries, token, rules).contains(x) <==> exists|j: int|
            0 <= j < entries.len() && (#[trigger] entries[j]).offered(rules) && token_name(
                token,
            ).is_prefix_of(entries[j].name@) && x == extended(token, entries[j]),
    decreases entries.len(),
{
    if entries.len() > 0 {
        let init = entries.drop_last();
        let last = entries.last();
        lemma_matching_entries(init, token, rules, x);
        let rest = matching_entries(init, token, rules);
        if token_name(token).is_prefix_of(last.name@) {
            lemma_candidate_extends(last, token);
        }
        lemma_contains_push(rest, last.candidate(token), x);
        if exists|j: int|
            0 <= j < init.len() && (#[trigger] init[j]).offered(rules) && token_name(
                token,
            ).is_prefix_of(init[j].name@) && x == extended(token, init[j]) {
            let j = choose|j: int|
                0 <= j < init.len() && (#[trigger] init[j]).offered(rules) && token_name(
                    token,
                ).is_prefix_of(init[j].name@) && x == extended(token, init[j]);
            assert(entries[j].offered(rules) && x == extended(token, entries[j]));
        }
        if exists|j: int|
            0 <= j < entries.len() && (#[trigger] entries[j]).offered(rules) && token_name(
                token,
            ).is_prefix_of(entries[j].name@) && x == extended(token, entries[j]) {
            let j = choose|j: int|
                0 <= j < entries.len() && (#[trigger] entries[j]).offered(rules) && token_name(
                    token,
                ).is_prefix_of(entries[j].name@) && x == extended(token, entries[j]);
            if j < init.len() {
                assert(init[j].offered(rules));
            } else {
                assert(entries[entries.len() - 1].offered(rules));
            }
        }
        if last.offered(rules) && token_name(token).is_prefix_of(last.name@) && x == extended(
            token,
            last,
        ) {
            assert(entries[entries.len() - 1].offered(rules));
        }
    }
}

/// A completion extends what was typed: every candidate for a path begins with
/// the token itself, whatever directory it names.
pub proof fn law_candidates_extend_the_token(
    entries: Seq<DirectoryEntry>,
    token: Seq<char>,
    rules: Option<IgnoreRules>,
    i: int,
)
    requires
        0 <= i < matching_entries(entries, token, rules).len(),
        !token.contains('/') || token[0] != '/' || (exists|j: int|
            0 < j < token.len() && token[j] == '/'),
    ensures
        token.is_prefix_of(matching_entries(entries, token, rules)[i]),
    decreases entries.len(),
{
    lemma_token_parts(token);
    if last_slash(token) == Some(0int) {
        assert(token =~= seq!['/'] + token_name(token));
        assert(token[0] == '/' && token.contains(token[0]));
        let j = choose|j: int| 0 < j < token.len() && token[j] == '/';
        assert(token_name(token)[j - 1] == '/');
    }
    let x = matching_entries(entries, token, rules)[i];
    assert(matching_entries(entries, token, rules).contains(x));
    lemma_matching_entries(entries, token, rules, x);
    let j = choose|j: int|
        0 <= j < entries.len() && (#[trigger] entries[j]).offered(rules) && token_name(
            token,
        ).is_prefix_of(entries[j].name@) && x == extended(token, entries[j]);
    lemma_candidate_extends(entries[j], token);
}

/// The paths that are offered are exactly the entries of the directory that begin
/// with what was typed and are not left out; each is what was typed, with the
/// rest of its name, and a slash where it is a directory.
pub proof fn law_paths_offer_the_entries_of_the_directory(
    data: CompletionData,
    token: Seq<char>,
    x: Seq<char>,
)
    requires
        last_slash(token) != Some(0int),
    ensures
        query_candidates(CompletionQuery::Directory(token), data).contains(x) <==> exists|j: int|
            0 <= j < data.entries@.len() && (#[trigger] data.entries@[j]).offered(data.rules)
                && token_name(token).is_prefix_of(data.entries@[j].name@) && x == extended(
                token,
                data.entries@[j],
            ),
{
    lemma_matching_entries(data.entries@, token, data.rules, x);
    law_sorted_texts_are_the_same(matching_entries(data.entries@, token, data.rules), x);
}

/// A token falls into a directory and the beginning of a name: the name has no
/// slash, and together they are the token again.
pub proof fn law_tokens_fall_into_directory_and_name(token: Seq<char>)
    ensures
        !token_name(token).contains('/'),
        token.contains('/') ==> token == token_directory(token) + seq!['/'] + token_name(token),
        !token.contains('/') ==> token == token_name(token) && token_directory(token).len() == 0,
{
    lemma_token_parts(token);
    if last_slash(token) is Some {
        let k = last_slash(token)->Some_0;
        assert((token_directory(token) + seq!['/'] + token_name(token))[k] == '/');
        assert(token[k] == '/');
    }
}

/// Nothing below `.git`, `build` and `target` is offered, nor what the rules
/// ignore, nor what lies outside of the workspace; everything else is.
pub proof fn law_internal_paths_are_left_out(below: Seq<char>, path: Seq<char>, ignored: bool)
    requires
        !below.contains('\\'),
        !path.contains('\\'),
    ensures
        !offers_path(None, ignored),
        !offers_path(Some(path), true),
        !offers_path(Some(".git"@), ignored),
        !offers_path(Some(".git/"@ + below), ignored),
        !offers_path(Some("build"@), ignored),
        !offers_path(Some("build/"@ + below), ignored),
        !offers_path(Some("target"@), ignored),
        !offers_path(Some("target/"@ + below), ignored),
        path != ".git"@ && path != "build"@ && path != "target"@ && !".git/"@.is_prefix_of(path)
            && !"build/"@.is_prefix_of(path) && !"target/"@.is_prefix_of(path) ==> offers_path(
            Some(path),
            false,
        ),
{
    reveal_strlit(".git");
    reveal_strlit(".git/");
    reveal_strlit("build");
    reveal_strlit("build/");
    reveal_strlit("target");
    reveal_strlit("target/");
    lemma_slashes_stay(path);
    lemma_slashes_stay(".git"@);
    lemma_slashes_stay("build"@);
    lemma_slashes_stay("target"@);
    lemma_below(".git/"@, below);
    lemma_below("build/"@, below);
    lemma_below("target/"@, below);
}

proof fn lemma_slashes_stay(s: Seq<char>)
    requires
        !s.contains('\\'),
    ensures
        with_slashes(s) == s,
{
    assert forall|i: int| 0 <= i < s.len() implies with_slashes(s)[i] == s[i] by {
        assert(s.contains(s[i]));
    }
    assert(with_slashes(s) =~= s);
}

proof fn lemma_below(directory: Seq<char>, below: Seq<char>)
    requires
        !below.contains('\\'),
        !directory.contains('\\'),
    ensures
        with_slashes(directory + below) == directory + below,
        directory.is_prefix_of(directory + below),
{
    let s = directory + below;
    if s.contains('\\') {
        let i = choose|i: int| 0 <= i < s.len() && s[i] == '\\';
        if i < directory.len() {
            assert(directory[i] == '\\');
        } else {
            assert(below[i - directory.len()] == '\\');
        }
    }
    lemma_slashes_stay(s);
    assert(directory =~= s.subrange(0, directory.len() as int));
}

/// Whether a file of the workspace answers what was typed, quotes aside: its
/// path begins with it, or, where that is no path, its name does.
pub open spec fn answers_token(file: WorkspaceFile, typed: Seq<char>) -> bool {
    let path = with_slashes(file.relative@);
    typed.is_prefix_of(path) || (!typed.contains('/') && typed.is_prefix_of(file.name@))
}

proof fn lemma_matching_files(files: Seq<WorkspaceFile>, token: Seq<char>, x: Seq<char>)
    ensures
        opening_quote(token) is None ==> (matching_files(files, token).contains(x) <==> exists|j: int|
            0 <= j < files.len() && answers_token(#[trigger] files[j], token) && x == with_slashes(
                files[j].relative@,
            )),
        opening_quote(token) matches Some(quote) ==> (matching_files(files, token).contains(x)
            <==> exists|j: int|
            0 <= j < files.len() && answers_token(#[trigger] files[j], token.skip(1)) && x
                == seq![quote] + with_slashes(files[j].relative@)),
    decreases files.len(),
{
    if files.len() > 0 {
        let init = files.drop_last();
        let last = files.last();
        lemma_matching_files(init, token, x);
        let rest = matching_files(init, token);
        let path = with_slashes(last.relative@);
        let typed = without_opening_quote(token);
        assert(typed.len() == 0 ==> typed =~= path.subrange(0, 0));
        assert(file_matches(path, last.name@, typed) == answers_token(last, typed));
        let shown = match opening_quote(token) {
            Some(quote) => seq![quote] + path,
            None => path,
        };
        lemma_contains_push(rest, shown, x);
        let fits = |f: WorkspaceFile|
            answers_token(f, typed) && x == (match opening_quote(token) {
                Some(quote) => seq![quote] + with_slashes(f.relative@),
                None => with_slashes(f.relative@),
            });
        assert forall|j: int| 0 <= j < init.len() implies #[trigger] files[j] == init[j] by {}
        if exists|j: int| 0 <= j < init.len() && fits(#[trigger] init[j]) {
            let j = choose|j: int| 0 <= j < init.len() && fits(#[trigger] init[j]);
            assert(fits(files[j]));
        }
        if exists|j: int| 0 <= j < files.len() && fits(#[trigger] files[j]) {
            let j = choose|j: int| 0 <= j < files.len() && fits(#[trigger] files[j]);
            if j < init.len() {
                assert(fits(init[j]));
            }
        }
        if fits(last) {
            assert(fits(files[files.len() - 1]));
        }
    }
}

/// Opening and showing a file offer exactly the files of the workspace that
/// answer what was typed, by their paths; a quote that was typed stays.
pub proof fn law_files_are_offered_by_their_paths(
    data: CompletionData,
    token: Seq<char>,
    x: Seq<char>,
)
    requires
        token.len() == 0 || (token[0] != '"' && token[0] != '\''),
    ensures
        query_candidates(CompletionQuery::Files(token), data).contains(x) <==> exists|j: int|
            0 <= j < data.files@.len() && answers_token(#[trigger] data.files@[j], token) && x
                == with_slashes(data.files@[j].relative@),
        query_candidates(CompletionQuery::Files(seq!['"'] + token), data).contains(x)
            <==> exists|j: int|
            0 <= j < data.files@.len() && answers_token(#[trigger] data.files@[j], token) && x
                == seq!['"'] + with_slashes(data.files@[j].relative@),
        query_candidates(CompletionQuery::ShowFiles(token), data).contains(x) <==> query_candidates(
            CompletionQuery::Files(token),
            data,
        ).contains(x),
{
    let files = data.files@;
    let marked = seq!['"'] + token;
    assert(marked.skip(1) =~= token);
    lemma_matching_files(files, token, x);
    lemma_matching_files(files, marked, x);
    law_sorted_texts_are_the_same(matching_files(files, token), x);
    law_sorted_texts_are_the_same(matching_files(files, marked), x);
    law_deduplicated_texts_are_the_same(sorted_texts(matching_files(files, token)), x);
}

proof fn lemma_entries_with(
    rows: Seq<Seq<char>>,
    token: Seq<char>,
    slash: bool,
    x: Seq<char>,
)
    ensures
        entries_with(rows, token, slash).contains(x) <==> rows.contains(x) && x.len() > 0
            && token.is_prefix_of(x) && (x.last() == '/') == slash,
    decreases rows.len(),
{
    if rows.len() > 0 {
        lemma_entries_with(rows.drop_last(), token, slash, x);
        lemma_contains_last(rows, x);
        lemma_contains_push(entries_with(rows.drop_last(), token, slash), rows.last(), x);
    }
}

/// Adding a file offers exactly what git lists as untracked and begins with what
/// was typed; directories come before files.
pub proof fn law_add_offers_untracked_files(text: Seq<char>, token: Seq<char>, x: Seq<char>)
    ensures
        untracked_in(text, token).contains(x) <==> lines_of(text).contains(x) && x.len() > 0
            && token.is_prefix_of(x),
        forall|i: int, j: int|
            0 <= i < untracked_in(text, token).len() && 0 <= j < untracked_in(text, token).len()
                && untracked_in(text, token)[i].len() > 0 && untracked_in(text, token)[j].len() > 0
                && (#[trigger] untracked_in(text, token)[i]).last() == '/' && (
            #[trigger] untracked_in(text, token)[j]).last() != '/' ==> i < j,
{
    let rows = lines_of(text);
    let first = entries_with(rows, token, true);
    let second = entries_with(rows, token, false);
    lemma_entries_with(rows, token, true, x);
    lemma_entries_with(rows, token, false, x);
    law_sorted_texts_are_the_same(first, x);
    law_sorted_texts_are_the_same(second, x);
    lemma_contains_add(sorted_texts(first), sorted_texts(second), x);
    let all = untracked_in(text, token);
    assert forall|i: int, j: int|
        0 <= i < all.len() && 0 <= j < all.len() && all[i].len() > 0 && all[j].len() > 0 && (
        #[trigger] all[i]).last() == '/' && (#[trigger] all[j]).last() != '/' implies i < j by {
        let n = sorted_texts(first).len();
        if i >= n {
            let y = all[i];
            assert(sorted_texts(second)[i - n] == y);
            assert(sorted_texts(second).contains(y));
            law_sorted_texts_are_the_same(second, y);
            lemma_entries_with(rows, token, false, y);
        }
        if j < n {
            let y = all[j];
            assert(sorted_texts(first)[j] == y);
            assert(sorted_texts(first).contains(y));
            law_sorted_texts_are_the_same(first, y);
            lemma_entries_with(rows, token, true, y);
        }
    }
}

/// What a path shows one step behind a token: the path itself, or the directory
/// up to its next slash.
pub open spec fn one_step(row: Seq<char>, token: Seq<char>, x: Seq<char>) -> bool {
    &&& token.is_prefix_of(row)
    &&& x.is_prefix_of(row)
    &&& x.len() > token.len() || x == row
    &&& forall|k: int| token.len() <= k < x.len() - 1 ==> #[trigger] x[k] != '/'
    &&& x == row || x.last() == '/'
}

proof fn lemma_step(row: Seq<char>, token: Seq<char>)
    requires
        row.len() > 0,
        token.is_prefix_of(row),
    ensures
        match next_directory(row, token) {
            Some(dir) => dir.len() > token.len() && dir.is_prefix_of(row) && token.is_prefix_of(dir)
                && dir.last() == '/' && (forall|k: int|
                token.len() <= k < dir.len() - 1 ==> #[trigger] dir[k] != '/'),
            None => forall|k: int| token.len() <= k < row.len() ==> #[trigger] row[k] != '/',
        },
{
    let n = token.len() as int;
    let rest = row.skip(n);
    let k = first_index(rest, '/');
    lemma_first_index_props(rest, '/');
    assert(token =~= row.subrange(0, n));
    if k < rest.len() {
        let dir = token + rest.take(k) + seq!['/'];
        assert(dir =~= row.subrange(0, dir.len() as int));
        assert(token =~= dir.subrange(0, n));
        assert forall|i: int| n <= i < dir.len() - 1 implies #[trigger] dir[i] != '/' by {
            assert(rest[i - n] == dir[i]);
        }
    } else {
        assert forall|i: int| n <= i < row.len() implies #[trigger] row[i] != '/' by {
            assert(rest[i - n] == row[i]);
        }
    }
}

proof fn lemma_directories_below(rows: Seq<Seq<char>>, token: Seq<char>, x: Seq<char>)
    ensures
        directories_below(rows, token).contains(x) <==> exists|j: int|
            0 <= j < rows.len() && (#[trigger] rows[j]).len() > 0 && token.is_prefix_of(rows[j])
                && next_directory(rows[j], token) == Some(x),
        files_below(rows, token).contains(x) <==> rows.contains(x) && x.len() > 0
            && token.is_prefix_of(x) && next_directory(x, token) is None,
    decreases rows.len(),
{
    if rows.len() > 0 {
        let init = rows.drop_last();
        let last = rows.last();
        lemma_directories_below(init, token, x);
        lemma_contains_last(rows, x);
        lemma_contains_push(files_below(init, token), last, x);
        if let Some(dir) = next_directory(last, token) {
            lemma_contains_push(directories_below(init, token), dir, x);
        }
        let fits = |row: Seq<char>|
            row.len() > 0 && token.is_prefix_of(row) && next_directory(row, token) == Some(x);
        if exists|j: int| 0 <= j < init.len() && fits(#[trigger] init[j]) {
            let j = choose|j: int| 0 <= j < init.len() && fits(#[trigger] init[j]);
            assert(fits(rows[j]));
        }
        if exists|j: int| 0 <= j < rows.len() && fits(#[trigger] rows[j]) {
            let j = choose|j: int| 0 <= j < rows.len() && fits(#[trigger] rows[j]);
            if j < init.len() {
                assert(fits(init[j]));
            }
        }
        if fits(last) {
            assert(fits(rows[rows.len() - 1]));
        }
    }
}

/// Removing and moving offer what git tracks, one step at a time: every candidate
/// begins with what was typed and with it begins a path that git lists, of which
/// it shows all or all up to the next slash; and every path that begins with
/// what was typed is shown so.
pub proof fn law_tracked_files_are_offered_step_by_step(
    text: Seq<char>,
    token: Seq<char>,
    row: Seq<char>,
    x: Seq<char>,
)
    ensures
        tracked_in(text, token).contains(x) ==> exists|j: int|
            0 <= j < lines_of(text).len() && one_step(#[trigger] lines_of(text)[j], token, x),
        lines_of(text).contains(row) && row.len() > 0 && token.is_prefix_of(row) ==> exists|y: Seq<char>|
            #[trigger] tracked_in(text, token).contains(y) && one_step(row, token, y),
{
    let rows = lines_of(text);
    let dirs = directories_below(rows, token);
    let files = files_below(rows, token);
    let all = tracked_in(text, token);
    let members = |y: Seq<char>|
        {
            all.contains(y) <==> dirs.contains(y) || files.contains(y)
        };
    assert forall|y: Seq<char>| #[trigger] members(y) by {
        law_sorted_texts_are_the_same(dirs, y);
        law_deduplicated_texts_are_the_same(sorted_texts(dirs), y);
        law_sorted_texts_are_the_same(files, y);
        lemma_contains_add(deduplicated(sorted_texts(dirs)), sorted_texts(files), y);
    }
    assert(members(x));
    lemma_directories_below(rows, token, x);
    if all.contains(x) {
        if dirs.contains(x) {
            let j = choose|j: int|
                0 <= j < rows.len() && (#[trigger] rows[j]).len() > 0 && token.is_prefix_of(rows[j])
                    && next_directory(rows[j], token) == Some(x);
            lemma_step(rows[j], token);
            assert(one_step(rows[j], token, x));
        } else {
            lemma_step(x, token);
            let j = choose|j: int| 0 <= j < rows.len() && rows[j] == x;
            assert(x =~= x.subrange(0, x.len() as int));
            assert(one_step(rows[j], token, x));
        }
    }
    if rows.contains(row) && row.len() > 0 && token.is_prefix_of(row) {
        lemma_step(row, token);
        let y = match next_directory(row, token) {
            Some(dir) => dir,
            None => row,
        };
        lemma_directories_below(rows, token, y);
        assert(members(y));
        if next_directory(row, token) is Some {
            let j = choose|j: int| 0 <= j < rows.len() && rows[j] == row;
            assert(next_directory(rows[j], token) == Some(y));
        } else {
            assert(row =~= row.subrange(0, row.len() as int));
        }
        assert(all.contains(y) && one_step(row, token, y));
    }
}

} // verus!
