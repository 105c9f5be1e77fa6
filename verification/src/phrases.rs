//! Phrases: which command a line stands for, whatever its argument.
use vstd::prelude::*;
use vstd::string::*;

use crate::command::{
    argument, begins, begins_ci, branch_phrase, closing_phrase, commit_phrase, file_phrase,
    file_to_open, information_phrase, local_command, model_name, natural_command, pull_number,
    repository_phrase, show_file_request, slash_command, slash_word, two_words, worktree_phrase,
    LocalCommand, ShowFileOptions,
};
use crate::number::{decimal, is_digit, law_decimal_reads_back, lemma_decimal_digits, number_in};
use crate::shell::{unquoted, words_of, ShellWordsError};
use crate::show_file::{law_phrases_are_read_back, show_request};
use crate::text::{
    ascii_lower, before_suffix_ci, no_whitespace, same_ignoring_case, trimmed, whitespace,
};

verus! {

/// Whether a text can stand as an argument: there is something, and no white
/// space around it.
pub open spec fn is_argument(a: Seq<char>) -> bool {
    a.len() > 0 && !whitespace(a[0]) && !whitespace(a.last())
}

proof fn lemma_trimmed_is(s: Seq<char>)
    requires
        is_argument(s),
    ensures
        trimmed(s) == s,
{
}

/// Where two texts cannot be the same, or one cannot begin with the other: at
/// this place they differ.
pub open spec fn differ_at(s: Seq<char>, q: Seq<char>, k: int) -> bool {
    k < q.len() && (k >= s.len() || ascii_lower(s[k]) != ascii_lower(q[k]))
}

proof fn lemma_differ_at(s: Seq<char>, q: Seq<char>, k: int)
    requires
        0 <= k,
        differ_at(s, q, k),
    ensures
        !same_ignoring_case(s, q),
        !begins_ci(s, q),
{
    if begins_ci(s, q) {
        let head = s.take(q.len() as int);
        assert(head[k] == s[k]);
        assert(ascii_lower(head[k]) == ascii_lower(q[k]));
    }
    if same_ignoring_case(s, q) {
        assert(ascii_lower(s[k]) == ascii_lower(q[k]));
    }
}

/// Whether two texts differ at one of their first places.
pub open spec fn differ(s: Seq<char>, q: Seq<char>) -> bool {
    ||| differ_at(s, q, 0)
    ||| differ_at(s, q, 1)
    ||| differ_at(s, q, 2)
    ||| differ_at(s, q, 3)
    ||| differ_at(s, q, 4)
    ||| differ_at(s, q, 5)
    ||| differ_at(s, q, 6)
    ||| differ_at(s, q, 7)
    ||| differ_at(s, q, 8)
    ||| differ_at(s, q, 9)
    ||| differ_at(s, q, 10)
    ||| differ_at(s, q, 11)
    ||| differ_at(s, q, 12)
    ||| differ_at(s, q, 13)
    ||| differ_at(s, q, 14)
    ||| differ_at(s, q, 15)
}

pub proof fn lemma_differ(s: Seq<char>)
    ensures
        forall|q: Seq<char>| differ(s, q) ==> !#[trigger] same_ignoring_case(s, q),
        forall|q: Seq<char>| differ(s, q) ==> !#[trigger] begins_ci(s, q),
{
    assert forall|q: Seq<char>| differ(s, q) implies !#[trigger] same_ignoring_case(s, q) by {
        lemma_differ_one(s, q);
    }
    assert forall|q: Seq<char>| differ(s, q) implies !#[trigger] begins_ci(s, q) by {
        lemma_differ_one(s, q);
    }
}

proof fn lemma_differ_one(s: Seq<char>, q: Seq<char>)
    requires
        differ(s, q),
    ensures
        !same_ignoring_case(s, q),
        !begins_ci(s, q),
{
    let k = choose|k: int| 0 <= k && differ_at(s, q, k);
    lemma_differ_at(s, q, k);
}

/// A phrase with an argument: the argument is what stands behind the phrase.
proof fn lemma_phrase(p: Seq<char>, a: Seq<char>)
    requires
        p.len() > 0,
        !whitespace(p[0]),
        is_argument(a),
    ensures
        trimmed(p + a) == p + a,
        argument(p + a, p) == a,
        begins_ci(p + a, p),
        begins(p + a, p),
{
    let s = p + a;
    assert(s[0] == p[0] && s.last() == a.last());
    lemma_trimmed_is(s);
    lemma_trimmed_is(a);
    assert(s.skip(p.len() as int) =~= a);
    assert(s.take(p.len() as int) =~= p);
    assert(p =~= s.subrange(0, p.len() as int));
}

/// What follows a word that two phrases share decides which one fits.
pub proof fn lemma_longer_phrase(p: Seq<char>, q: Seq<char>, a: Seq<char>)
    ensures
        begins_ci(p + a, p + q) == begins_ci(a, q),
        same_ignoring_case(p + a, p + q) == same_ignoring_case(a, q),
{
    let s = p + a;
    let n = p.len() as int;
    if begins_ci(a, q) {
        let head = s.take(n + q.len());
        assert forall|i: int| 0 <= i < head.len() implies ascii_lower(#[trigger] head[i])
            == ascii_lower((p + q)[i]) by {
            if i >= n {
                assert(a.take(q.len() as int)[i - n] == head[i]);
            }
        }
    }
    if begins_ci(s, p + q) {
        let head = s.take(n + q.len());
        assert forall|i: int| 0 <= i < q.len() implies ascii_lower(
            #[trigger] a.take(q.len() as int)[i],
        ) == ascii_lower(q[i]) by {
            assert(head[i + n] == a[i]);
            assert((p + q)[i + n] == q[i]);
        }
    }
    if same_ignoring_case(a, q) {
        assert forall|i: int| 0 <= i < s.len() implies ascii_lower(#[trigger] s[i]) == ascii_lower(
            (p + q)[i],
        ) by {
            if i >= n {
                assert(a[i - n] == s[i]);
            }
        }
    }
    if same_ignoring_case(s, p + q) {
        assert forall|i: int| 0 <= i < a.len() implies ascii_lower(#[trigger] a[i]) == ascii_lower(
            q[i],
        ) by {
            assert(s[i + n] == a[i]);
            assert((p + q)[i + n] == q[i]);
        }
    }
}

/// The letters of the words that the lemmas below compare.
proof fn lemma_letters_slash()
    ensures
        "/add_file"@.len() == 9,
        "/add_file"@[0] == '/' && "/add_file"@[1] == 'a' && "/add_file"@[2] == 'd'
            && "/add_file"@[3] == 'd' && "/add_file"@[4] == '_' && "/add_file"@[5] == 'f'
            && "/add_file"@[6] == 'i' && "/add_file"@[7] == 'l' && "/add_file"@[8] == 'e',
        "/add_file "@.len() == 10,
        "/add_file "@[0] == '/' && "/add_file "@[1] == 'a' && "/add_file "@[2] == 'd'
            && "/add_file "@[3] == 'd' && "/add_file "@[4] == '_' && "/add_file "@[5] == 'f'
            && "/add_file "@[6] == 'i' && "/add_file "@[7] == 'l' && "/add_file "@[8] == 'e'
            && "/add_file "@[9] == ' ',
        "/checkout"@.len() == 9,
        "/checkout"@[0] == '/' && "/checkout"@[1] == 'c' && "/checkout"@[2] == 'h'
            && "/checkout"@[3] == 'e' && "/checkout"@[4] == 'c' && "/checkout"@[5] == 'k'
            && "/checkout"@[6] == 'o' && "/checkout"@[7] == 'u' && "/checkout"@[8] == 't',
        "/checkout "@.len() == 10,
        "/checkout "@[0] == '/' && "/checkout "@[1] == 'c' && "/checkout "@[2] == 'h'
            && "/checkout "@[3] == 'e' && "/checkout "@[4] == 'c' && "/checkout "@[5] == 'k'
            && "/checkout "@[6] == 'o' && "/checkout "@[7] == 'u' && "/checkout "@[8] == 't'
            && "/checkout "@[9] == ' ',
        "/cherry_pick"@.len() == 12,
        "/cherry_pick"@[0] == '/' && "/cherry_pick"@[1] == 'c' && "/cherry_pick"@[2] == 'h'
            && "/cherry_pick"@[3] == 'e' && "/cherry_pick"@[4] == 'r' && "/cherry_pick"@[5] == 'r'
            && "/cherry_pick"@[6] == 'y' && "/cherry_pick"@[7] == '_' && "/cherry_pick"@[8] == 'p'
            && "/cherry_pick"@[9] == 'i' && "/cherry_pick"@[10] == 'c'
            && "/cherry_pick"@[11] == 'k',
        "/cherry_pick "@.len() == 13,
        "/cherry_pick "@[0] == '/' && "/cherry_pick "@[1] == 'c' && "/cherry_pick "@[2] == 'h'
            && "/cherry_pick "@[3] == 'e' && "/cherry_pick "@[4] == 'r'
            && "/cherry_pick "@[5] == 'r' && "/cherry_pick "@[6] == 'y'
            && "/cherry_pick "@[7] == '_' && "/cherry_pick "@[8] == 'p'
            && "/cherry_pick "@[9] == 'i' && "/cherry_pick "@[10] == 'c'
            && "/cherry_pick "@[11] == 'k' && "/cherry_pick "@[12] == ' ',
        "/clear"@.len() == 6,
        "/clear"@[0] == '/' && "/clear"@[1] == 'c' && "/clear"@[2] == 'l' && "/clear"@[3] == 'e'
            && "/clear"@[4] == 'a' && "/clear"@[5] == 'r',
        "/commit"@.len() == 7,
        "/commit"@[0] == '/' && "/commit"@[1] == 'c' && "/commit"@[2] == 'o' && "/commit"@[3] == 'm'
            && "/commit"@[4] == 'm' && "/commit"@[5] == 'i' && "/commit"@[6] == 't',
        "/commit "@.len() == 8,
        "/commit "@[0] == '/' && "/commit "@[1] == 'c' && "/commit "@[2] == 'o'
            && "/commit "@[3] == 'm' && "/commit "@[4] == 'm' && "/commit "@[5] == 'i'
            && "/commit "@[6] == 't' && "/commit "@[7] == ' ',
        "/connect"@.len() == 8,
        "/connect"@[0] == '/' && "/connect"@[1] == 'c' && "/connect"@[2] == 'o'
            && "/connect"@[3] == 'n' && "/connect"@[4] == 'n' && "/connect"@[5] == 'e'
            && "/connect"@[6] == 'c' && "/connect"@[7] == 't',
        "/connect "@.len() == 9,
        "/connect "@[0] == '/' && "/connect "@[1] == 'c' && "/connect "@[2] == 'o'
            && "/connect "@[3] == 'n' && "/connect "@[4] == 'n' && "/connect "@[5] == 'e'
            && "/connect "@[6] == 'c' && "/connect "@[7] == 't' && "/connect "@[8] == ' ',
        "/delete"@.len() == 7,
        "/delete"@[0] == '/' && "/delete"@[1] == 'd' && "/delete"@[2] == 'e' && "/delete"@[3] == 'l'
            && "/delete"@[4] == 'e' && "/delete"@[5] == 't' && "/delete"@[6] == 'e',
        "/delete "@.len() == 8,
        "/delete "@[0] == '/' && "/delete "@[1] == 'd' && "/delete "@[2] == 'e'
            && "/delete "@[3] == 'l' && "/delete "@[4] == 'e' && "/delete "@[5] == 't'
            && "/delete "@[6] == 'e' && "/delete "@[7] == ' ',
        "/diff"@.len() == 5,
        "/diff"@[0] == '/' && "/diff"@[1] == 'd' && "/diff"@[2] == 'i' && "/diff"@[3] == 'f'
            && "/diff"@[4] == 'f',
        "/disconnect"@.len() == 11,
        "/disconnect"@[0] == '/' && "/disconnect"@[1] == 'd' && "/disconnect"@[2] == 'i'
            && "/disconnect"@[3] == 's' && "/disconnect"@[4] == 'c' && "/disconnect"@[5] == 'o'
            && "/disconnect"@[6] == 'n' && "/disconnect"@[7] == 'n' && "/disconnect"@[8] == 'e'
            && "/disconnect"@[9] == 'c' && "/disconnect"@[10] == 't',
        "/help"@.len() == 5,
        "/help"@[0] == '/' && "/help"@[1] == 'h' && "/help"@[2] == 'e' && "/help"@[3] == 'l'
            && "/help"@[4] == 'p',
        "/init_repo"@.len() == 10,
        "/init_repo"@[0] == '/' && "/init_repo"@[1] == 'i' && "/init_repo"@[2] == 'n'
            && "/init_repo"@[3] == 'i' && "/init_repo"@[4] == 't' && "/init_repo"@[5] == '_'
            && "/init_repo"@[6] == 'r' && "/init_repo"@[7] == 'e' && "/init_repo"@[8] == 'p'
            && "/init_repo"@[9] == 'o',
        "/list_files"@.len() == 11,
        "/list_files"@[0] == '/' && "/list_files"@[1] == 'l' && "/list_files"@[2] == 'i'
            && "/list_files"@[3] == 's' && "/list_files"@[4] == 't' && "/list_files"@[5] == '_'
            && "/list_files"@[6] == 'f' && "/list_files"@[7] == 'i' && "/list_files"@[8] == 'l'
            && "/list_files"@[9] == 'e' && "/list_files"@[10] == 's',
        "/list_models"@.len() == 12,
        "/list_models"@[0] == '/' && "/list_models"@[1] == 'l' && "/list_models"@[2] == 'i'
            && "/list_models"@[3] == 's' && "/list_models"@[4] == 't' && "/list_models"@[5] == '_'
            && "/list_models"@[6] == 'm' && "/list_models"@[7] == 'o' && "/list_models"@[8] == 'd'
            && "/list_models"@[9] == 'e' && "/list_models"@[10] == 'l'
            && "/list_models"@[11] == 's',
        "/log"@.len() == 4,
        "/log"@[0] == '/' && "/log"@[1] == 'l' && "/log"@[2] == 'o' && "/log"@[3] == 'g',
        "/merge"@.len() == 6,
        "/merge"@[0] == '/' && "/merge"@[1] == 'm' && "/merge"@[2] == 'e' && "/merge"@[3] == 'r'
            && "/merge"@[4] == 'g' && "/merge"@[5] == 'e',
        "/merge "@.len() == 7,
        "/merge "@[0] == '/' && "/merge "@[1] == 'm' && "/merge "@[2] == 'e' && "/merge "@[3] == 'r'
            && "/merge "@[4] == 'g' && "/merge "@[5] == 'e' && "/merge "@[6] == ' ',
        "/model"@.len() == 6,
        "/model"@[0] == '/' && "/model"@[1] == 'm' && "/model"@[2] == 'o' && "/model"@[3] == 'd'
            && "/model"@[4] == 'e' && "/model"@[5] == 'l',
        "/model "@.len() == 7,
        "/model "@[0] == '/' && "/model "@[1] == 'm' && "/model "@[2] == 'o' && "/model "@[3] == 'd'
            && "/model "@[4] == 'e' && "/model "@[5] == 'l' && "/model "@[6] == ' ',
        "/move_file"@.len() == 10,
        "/move_file"@[0] == '/' && "/move_file"@[1] == 'm' && "/move_file"@[2] == 'o'
            && "/move_file"@[3] == 'v' && "/move_file"@[4] == 'e' && "/move_file"@[5] == '_'
            && "/move_file"@[6] == 'f' && "/move_file"@[7] == 'i' && "/move_file"@[8] == 'l'
            && "/move_file"@[9] == 'e',
        "/move_file "@.len() == 11,
        "/move_file "@[0] == '/' && "/move_file "@[1] == 'm' && "/move_file "@[2] == 'o'
            && "/move_file "@[3] == 'v' && "/move_file "@[4] == 'e' && "/move_file "@[5] == '_'
            && "/move_file "@[6] == 'f' && "/move_file "@[7] == 'i' && "/move_file "@[8] == 'l'
            && "/move_file "@[9] == 'e' && "/move_file "@[10] == ' ',
        "/open_file"@.len() == 10,
        "/open_file"@[0] == '/' && "/open_file"@[1] == 'o' && "/open_file"@[2] == 'p'
            && "/open_file"@[3] == 'e' && "/open_file"@[4] == 'n' && "/open_file"@[5] == '_'
            && "/open_file"@[6] == 'f' && "/open_file"@[7] == 'i' && "/open_file"@[8] == 'l'
            && "/open_file"@[9] == 'e',
        "/open_file "@.len() == 11,
        "/open_file "@[0] == '/' && "/open_file "@[1] == 'o' && "/open_file "@[2] == 'p'
            && "/open_file "@[3] == 'e' && "/open_file "@[4] == 'n' && "/open_file "@[5] == '_'
            && "/open_file "@[6] == 'f' && "/open_file "@[7] == 'i' && "/open_file "@[8] == 'l'
            && "/open_file "@[9] == 'e' && "/open_file "@[10] == ' ',
        "/pull"@.len() == 5,
        "/pull"@[0] == '/' && "/pull"@[1] == 'p' && "/pull"@[2] == 'u' && "/pull"@[3] == 'l'
            && "/pull"@[4] == 'l',
        "/pull "@.len() == 6,
        "/pull "@[0] == '/' && "/pull "@[1] == 'p' && "/pull "@[2] == 'u' && "/pull "@[3] == 'l'
            && "/pull "@[4] == 'l' && "/pull "@[5] == ' ',
        "/push"@.len() == 5,
        "/push"@[0] == '/' && "/push"@[1] == 'p' && "/push"@[2] == 'u' && "/push"@[3] == 's'
            && "/push"@[4] == 'h',
        "/push "@.len() == 6,
        "/push "@[0] == '/' && "/push "@[1] == 'p' && "/push "@[2] == 'u' && "/push "@[3] == 's'
            && "/push "@[4] == 'h' && "/push "@[5] == ' ',
        "/quit"@.len() == 5,
        "/quit"@[0] == '/' && "/quit"@[1] == 'q' && "/quit"@[2] == 'u' && "/quit"@[3] == 'i'
            && "/quit"@[4] == 't',
        "/rebase"@.len() == 7,
        "/rebase"@[0] == '/' && "/rebase"@[1] == 'r' && "/rebase"@[2] == 'e' && "/rebase"@[3] == 'b'
            && "/rebase"@[4] == 'a' && "/rebase"@[5] == 's' && "/rebase"@[6] == 'e',
        "/reload"@.len() == 7,
        "/reload"@[0] == '/' && "/reload"@[1] == 'r' && "/reload"@[2] == 'e' && "/reload"@[3] == 'l'
            && "/reload"@[4] == 'o' && "/reload"@[5] == 'a' && "/reload"@[6] == 'd',
        "/remove_file"@.len() == 12,
        "/remove_file"@[0] == '/' && "/remove_file"@[1] == 'r' && "/remove_file"@[2] == 'e'
            && "/remove_file"@[3] == 'm' && "/remove_file"@[4] == 'o' && "/remove_file"@[5] == 'v'
            && "/remove_file"@[6] == 'e' && "/remove_file"@[7] == '_' && "/remove_file"@[8] == 'f'
            && "/remove_file"@[9] == 'i' && "/remove_file"@[10] == 'l'
            && "/remove_file"@[11] == 'e',
        "/remove_file "@.len() == 13,
        "/remove_file "@[0] == '/' && "/remove_file "@[1] == 'r' && "/remove_file "@[2] == 'e'
            && "/remove_file "@[3] == 'm' && "/remove_file "@[4] == 'o'
            && "/remove_file "@[5] == 'v' && "/remove_file "@[6] == 'e'
            && "/remove_file "@[7] == '_' && "/remove_file "@[8] == 'f'
            && "/remove_file "@[9] == 'i' && "/remove_file "@[10] == 'l'
            && "/remove_file "@[11] == 'e' && "/remove_file "@[12] == ' ',
        "/show_file"@.len() == 10,
        "/show_file"@[0] == '/' && "/show_file"@[1] == 's' && "/show_file"@[2] == 'h'
            && "/show_file"@[3] == 'o' && "/show_file"@[4] == 'w' && "/show_file"@[5] == '_'
            && "/show_file"@[6] == 'f' && "/show_file"@[7] == 'i' && "/show_file"@[8] == 'l'
            && "/show_file"@[9] == 'e',
        "/show_file "@.len() == 11,
        "/show_file "@[0] == '/' && "/show_file "@[1] == 's' && "/show_file "@[2] == 'h'
            && "/show_file "@[3] == 'o' && "/show_file "@[4] == 'w' && "/show_file "@[5] == '_'
            && "/show_file "@[6] == 'f' && "/show_file "@[7] == 'i' && "/show_file "@[8] == 'l'
            && "/show_file "@[9] == 'e' && "/show_file "@[10] == ' ',
        "/status"@.len() == 7,
        "/status"@[0] == '/' && "/status"@[1] == 's' && "/status"@[2] == 't' && "/status"@[3] == 'a'
            && "/status"@[4] == 't' && "/status"@[5] == 'u' && "/status"@[6] == 's',
        "/tools"@.len() == 6,
        "/tools"@[0] == '/' && "/tools"@[1] == 't' && "/tools"@[2] == 'o' && "/tools"@[3] == 'o'
            && "/tools"@[4] == 'l' && "/tools"@[5] == 's',
        "/usage"@.len() == 6,
        "/usage"@[0] == '/' && "/usage"@[1] == 'u' && "/usage"@[2] == 's' && "/usage"@[3] == 'a'
            && "/usage"@[4] == 'g' && "/usage"@[5] == 'e',
{
    reveal_strlit("/add_file");
    reveal_strlit("/add_file ");
    reveal_strlit("/checkout");
    reveal_strlit("/checkout ");
    reveal_strlit("/cherry_pick");
    reveal_strlit("/cherry_pick ");
    reveal_strlit("/clear");
    reveal_strlit("/commit");
    reveal_strlit("/commit ");
    reveal_strlit("/connect");
    reveal_strlit("/connect ");
    reveal_strlit("/delete");
    reveal_strlit("/delete ");
    reveal_strlit("/diff");
    reveal_strlit("/disconnect");
    reveal_strlit("/help");
    reveal_strlit("/init_repo");
    reveal_strlit("/list_files");
    reveal_strlit("/list_models");
    reveal_strlit("/log");
    reveal_strlit("/merge");
    reveal_strlit("/merge ");
    reveal_strlit("/model");
    reveal_strlit("/model ");
    reveal_strlit("/move_file");
    reveal_strlit("/move_file ");
    reveal_strlit("/open_file");
    reveal_strlit("/open_file ");
    reveal_strlit("/pull");
    reveal_strlit("/pull ");
    reveal_strlit("/push");
    reveal_strlit("/push ");
    reveal_strlit("/quit");
    reveal_strlit("/rebase");
    reveal_strlit("/reload");
    reveal_strlit("/remove_file");
    reveal_strlit("/remove_file ");
    reveal_strlit("/show_file");
    reveal_strlit("/show_file ");
    reveal_strlit("/status");
    reveal_strlit("/tools");
    reveal_strlit("/usage");
}

/// The letters of the words that the lemmas below compare.
proof fn lemma_letters_information()
    ensures
        "connect"@.len() == 7,
        "connect"@[0] == 'c' && "connect"@[1] == 'o' && "connect"@[2] == 'n' && "connect"@[3] == 'n'
            && "connect"@[4] == 'e' && "connect"@[5] == 'c' && "connect"@[6] == 't',
        "connect to "@.len() == 11,
        "connect to "@[0] == 'c' && "connect to "@[1] == 'o' && "connect to "@[2] == 'n'
            && "connect to "@[3] == 'n' && "connect to "@[4] == 'e' && "connect to "@[5] == 'c'
            && "connect to "@[6] == 't' && "connect to "@[7] == ' ' && "connect to "@[8] == 't'
            && "connect to "@[9] == 'o' && "connect to "@[10] == ' ',
        "current model"@.len() == 13,
        "current model"@[0] == 'c' && "current model"@[1] == 'u' && "current model"@[2] == 'r'
            && "current model"@[3] == 'r' && "current model"@[4] == 'e'
            && "current model"@[5] == 'n' && "current model"@[6] == 't'
            && "current model"@[7] == ' ' && "current model"@[8] == 'm'
            && "current model"@[9] == 'o' && "current model"@[10] == 'd'
            && "current model"@[11] == 'e' && "current model"@[12] == 'l',
        "diff"@.len() == 4,
        "diff"@[0] == 'd' && "diff"@[1] == 'i' && "diff"@[2] == 'f' && "diff"@[3] == 'f',
        "disconnect"@.len() == 10,
        "disconnect"@[0] == 'd' && "disconnect"@[1] == 'i' && "disconnect"@[2] == 's'
            && "disconnect"@[3] == 'c' && "disconnect"@[4] == 'o' && "disconnect"@[5] == 'n'
            && "disconnect"@[6] == 'n' && "disconnect"@[7] == 'e' && "disconnect"@[8] == 'c'
            && "disconnect"@[9] == 't',
        "git diff"@.len() == 8,
        "git diff"@[0] == 'g' && "git diff"@[1] == 'i' && "git diff"@[2] == 't'
            && "git diff"@[3] == ' ' && "git diff"@[4] == 'd' && "git diff"@[5] == 'i'
            && "git diff"@[6] == 'f' && "git diff"@[7] == 'f',
        "git lg"@.len() == 6,
        "git lg"@[0] == 'g' && "git lg"@[1] == 'i' && "git lg"@[2] == 't' && "git lg"@[3] == ' '
            && "git lg"@[4] == 'l' && "git lg"@[5] == 'g',
        "git log"@.len() == 7,
        "git log"@[0] == 'g' && "git log"@[1] == 'i' && "git log"@[2] == 't' && "git log"@[3] == ' '
            && "git log"@[4] == 'l' && "git log"@[5] == 'o' && "git log"@[6] == 'g',
        "git status"@.len() == 10,
        "git status"@[0] == 'g' && "git status"@[1] == 'i' && "git status"@[2] == 't'
            && "git status"@[3] == ' ' && "git status"@[4] == 's' && "git status"@[5] == 't'
            && "git status"@[6] == 'a' && "git status"@[7] == 't' && "git status"@[8] == 'u'
            && "git status"@[9] == 's',
        "help"@.len() == 4,
        "help"@[0] == 'h' && "help"@[1] == 'e' && "help"@[2] == 'l' && "help"@[3] == 'p',
        "list files"@.len() == 10,
        "list files"@[0] == 'l' && "list files"@[1] == 'i' && "list files"@[2] == 's'
            && "list files"@[3] == 't' && "list files"@[4] == ' ' && "list files"@[5] == 'f'
            && "list files"@[6] == 'i' && "list files"@[7] == 'l' && "list files"@[8] == 'e'
            && "list files"@[9] == 's',
        "list models"@.len() == 11,
        "list models"@[0] == 'l' && "list models"@[1] == 'i' && "list models"@[2] == 's'
            && "list models"@[3] == 't' && "list models"@[4] == ' ' && "list models"@[5] == 'm'
            && "list models"@[6] == 'o' && "list models"@[7] == 'd' && "list models"@[8] == 'e'
            && "list models"@[9] == 'l' && "list models"@[10] == 's',
        "list tools"@.len() == 10,
        "list tools"@[0] == 'l' && "list tools"@[1] == 'i' && "list tools"@[2] == 's'
            && "list tools"@[3] == 't' && "list tools"@[4] == ' ' && "list tools"@[5] == 't'
            && "list tools"@[6] == 'o' && "list tools"@[7] == 'o' && "list tools"@[8] == 'l'
            && "list tools"@[9] == 's',
        "list workspace files"@.len() == 20,
        "list workspace files"@[0] == 'l' && "list workspace files"@[1] == 'i'
            && "list workspace files"@[2] == 's' && "list workspace files"@[3] == 't'
            && "list workspace files"@[4] == ' ' && "list workspace files"@[5] == 'w'
            && "list workspace files"@[6] == 'o' && "list workspace files"@[7] == 'r'
            && "list workspace files"@[8] == 'k' && "list workspace files"@[9] == 's'
            && "list workspace files"@[10] == 'p' && "list workspace files"@[11] == 'a'
            && "list workspace files"@[12] == 'c' && "list workspace files"@[13] == 'e'
            && "list workspace files"@[14] == ' ' && "list workspace files"@[15] == 'f'
            && "list workspace files"@[16] == 'i' && "list workspace files"@[17] == 'l'
            && "list workspace files"@[18] == 'e' && "list workspace files"@[19] == 's',
        "log"@.len() == 3,
        "log"@[0] == 'l' && "log"@[1] == 'o' && "log"@[2] == 'g',
        "model"@.len() == 5,
        "model"@[0] == 'm' && "model"@[1] == 'o' && "model"@[2] == 'd' && "model"@[3] == 'e'
            && "model"@[4] == 'l',
        "models"@.len() == 6,
        "models"@[0] == 'm' && "models"@[1] == 'o' && "models"@[2] == 'd' && "models"@[3] == 'e'
            && "models"@[4] == 'l' && "models"@[5] == 's',
        "reconnect"@.len() == 9,
        "reconnect"@[0] == 'r' && "reconnect"@[1] == 'e' && "reconnect"@[2] == 'c'
            && "reconnect"@[3] == 'o' && "reconnect"@[4] == 'n' && "reconnect"@[5] == 'n'
            && "reconnect"@[6] == 'e' && "reconnect"@[7] == 'c' && "reconnect"@[8] == 't',
        "reload"@.len() == 6,
        "reload"@[0] == 'r' && "reload"@[1] == 'e' && "reload"@[2] == 'l' && "reload"@[3] == 'o'
            && "reload"@[4] == 'a' && "reload"@[5] == 'd',
        "reload configuration"@.len() == 20,
        "reload configuration"@[0] == 'r' && "reload configuration"@[1] == 'e'
            && "reload configuration"@[2] == 'l' && "reload configuration"@[3] == 'o'
            && "reload configuration"@[4] == 'a' && "reload configuration"@[5] == 'd'
            && "reload configuration"@[6] == ' ' && "reload configuration"@[7] == 'c'
            && "reload configuration"@[8] == 'o' && "reload configuration"@[9] == 'n'
            && "reload configuration"@[10] == 'f' && "reload configuration"@[11] == 'i'
            && "reload configuration"@[12] == 'g' && "reload configuration"@[13] == 'u'
            && "reload configuration"@[14] == 'r' && "reload configuration"@[15] == 'a'
            && "reload configuration"@[16] == 't' && "reload configuration"@[17] == 'i'
            && "reload configuration"@[18] == 'o' && "reload configuration"@[19] == 'n',
        "reset session"@.len() == 13,
        "reset session"@[0] == 'r' && "reset session"@[1] == 'e' && "reset session"@[2] == 's'
            && "reset session"@[3] == 'e' && "reset session"@[4] == 't'
            && "reset session"@[5] == ' ' && "reset session"@[6] == 's'
            && "reset session"@[7] == 'e' && "reset session"@[8] == 's'
            && "reset session"@[9] == 's' && "reset session"@[10] == 'i'
            && "reset session"@[11] == 'o' && "reset session"@[12] == 'n',
        "show available commands"@.len() == 23,
        "show available commands"@[0] == 's' && "show available commands"@[1] == 'h'
            && "show available commands"@[2] == 'o' && "show available commands"@[3] == 'w'
            && "show available commands"@[4] == ' ' && "show available commands"@[5] == 'a'
            && "show available commands"@[6] == 'v' && "show available commands"@[7] == 'a'
            && "show available commands"@[8] == 'i' && "show available commands"@[9] == 'l'
            && "show available commands"@[10] == 'a' && "show available commands"@[11] == 'b'
            && "show available commands"@[12] == 'l' && "show available commands"@[13] == 'e'
            && "show available commands"@[14] == ' ' && "show available commands"@[15] == 'c'
            && "show available commands"@[16] == 'o' && "show available commands"@[17] == 'm'
            && "show available commands"@[18] == 'm' && "show available commands"@[19] == 'a'
            && "show available commands"@[20] == 'n' && "show available commands"@[21] == 'd'
            && "show available commands"@[22] == 's',
        "show available models"@.len() == 21,
        "show available models"@[0] == 's' && "show available models"@[1] == 'h'
            && "show available models"@[2] == 'o' && "show available models"@[3] == 'w'
            && "show available models"@[4] == ' ' && "show available models"@[5] == 'a'
            && "show available models"@[6] == 'v' && "show available models"@[7] == 'a'
            && "show available models"@[8] == 'i' && "show available models"@[9] == 'l'
            && "show available models"@[10] == 'a' && "show available models"@[11] == 'b'
            && "show available models"@[12] == 'l' && "show available models"@[13] == 'e'
            && "show available models"@[14] == ' ' && "show available models"@[15] == 'm'
            && "show available models"@[16] == 'o' && "show available models"@[17] == 'd'
            && "show available models"@[18] == 'e' && "show available models"@[19] == 'l'
            && "show available models"@[20] == 's',
        "show commands"@.len() == 13,
        "show commands"@[0] == 's' && "show commands"@[1] == 'h' && "show commands"@[2] == 'o'
            && "show commands"@[3] == 'w' && "show commands"@[4] == ' '
            && "show commands"@[5] == 'c' && "show commands"@[6] == 'o'
            && "show commands"@[7] == 'm' && "show commands"@[8] == 'm'
            && "show commands"@[9] == 'a' && "show commands"@[10] == 'n'
            && "show commands"@[11] == 'd' && "show commands"@[12] == 's',
        "show diff"@.len() == 9,
        "show diff"@[0] == 's' && "show diff"@[1] == 'h' && "show diff"@[2] == 'o'
            && "show diff"@[3] == 'w' && "show diff"@[4] == ' ' && "show diff"@[5] == 'd'
            && "show diff"@[6] == 'i' && "show diff"@[7] == 'f' && "show diff"@[8] == 'f',
        "show files"@.len() == 10,
        "show files"@[0] == 's' && "show files"@[1] == 'h' && "show files"@[2] == 'o'
            && "show files"@[3] == 'w' && "show files"@[4] == ' ' && "show files"@[5] == 'f'
            && "show files"@[6] == 'i' && "show files"@[7] == 'l' && "show files"@[8] == 'e'
            && "show files"@[9] == 's',
        "show help"@.len() == 9,
        "show help"@[0] == 's' && "show help"@[1] == 'h' && "show help"@[2] == 'o'
            && "show help"@[3] == 'w' && "show help"@[4] == ' ' && "show help"@[5] == 'h'
            && "show help"@[6] == 'e' && "show help"@[7] == 'l' && "show help"@[8] == 'p',
        "show local tools"@.len() == 16,
        "show local tools"@[0] == 's' && "show local tools"@[1] == 'h'
            && "show local tools"@[2] == 'o' && "show local tools"@[3] == 'w'
            && "show local tools"@[4] == ' ' && "show local tools"@[5] == 'l'
            && "show local tools"@[6] == 'o' && "show local tools"@[7] == 'c'
            && "show local tools"@[8] == 'a' && "show local tools"@[9] == 'l'
            && "show local tools"@[10] == ' ' && "show local tools"@[11] == 't'
            && "show local tools"@[12] == 'o' && "show local tools"@[13] == 'o'
            && "show local tools"@[14] == 'l' && "show local tools"@[15] == 's',
        "show log"@.len() == 8,
        "show log"@[0] == 's' && "show log"@[1] == 'h' && "show log"@[2] == 'o'
            && "show log"@[3] == 'w' && "show log"@[4] == ' ' && "show log"@[5] == 'l'
            && "show log"@[6] == 'o' && "show log"@[7] == 'g',
        "show model"@.len() == 10,
        "show model"@[0] == 's' && "show model"@[1] == 'h' && "show model"@[2] == 'o'
            && "show model"@[3] == 'w' && "show model"@[4] == ' ' && "show model"@[5] == 'm'
            && "show model"@[6] == 'o' && "show model"@[7] == 'd' && "show model"@[8] == 'e'
            && "show model"@[9] == 'l',
        "show models"@.len() == 11,
        "show models"@[0] == 's' && "show models"@[1] == 'h' && "show models"@[2] == 'o'
            && "show models"@[3] == 'w' && "show models"@[4] == ' ' && "show models"@[5] == 'm'
            && "show models"@[6] == 'o' && "show models"@[7] == 'd' && "show models"@[8] == 'e'
            && "show models"@[9] == 'l' && "show models"@[10] == 's',
        "show status"@.len() == 11,
        "show status"@[0] == 's' && "show status"@[1] == 'h' && "show status"@[2] == 'o'
            && "show status"@[3] == 'w' && "show status"@[4] == ' ' && "show status"@[5] == 's'
            && "show status"@[6] == 't' && "show status"@[7] == 'a' && "show status"@[8] == 't'
            && "show status"@[9] == 'u' && "show status"@[10] == 's',
        "show tools"@.len() == 10,
        "show tools"@[0] == 's' && "show tools"@[1] == 'h' && "show tools"@[2] == 'o'
            && "show tools"@[3] == 'w' && "show tools"@[4] == ' ' && "show tools"@[5] == 't'
            && "show tools"@[6] == 'o' && "show tools"@[7] == 'o' && "show tools"@[8] == 'l'
            && "show tools"@[9] == 's',
        "show usage"@.len() == 10,
        "show usage"@[0] == 's' && "show usage"@[1] == 'h' && "show usage"@[2] == 'o'
            && "show usage"@[3] == 'w' && "show usage"@[4] == ' ' && "show usage"@[5] == 'u'
            && "show usage"@[6] == 's' && "show usage"@[7] == 'a' && "show usage"@[8] == 'g'
            && "show usage"@[9] == 'e',
        "show workspace files"@.len() == 20,
        "show workspace files"@[0] == 's' && "show workspace files"@[1] == 'h'
            && "show workspace files"@[2] == 'o' && "show workspace files"@[3] == 'w'
            && "show workspace files"@[4] == ' ' && "show workspace files"@[5] == 'w'
            && "show workspace files"@[6] == 'o' && "show workspace files"@[7] == 'r'
            && "show workspace files"@[8] == 'k' && "show workspace files"@[9] == 's'
            && "show workspace files"@[10] == 'p' && "show workspace files"@[11] == 'a'
            && "show workspace files"@[12] == 'c' && "show workspace files"@[13] == 'e'
            && "show workspace files"@[14] == ' ' && "show workspace files"@[15] == 'f'
            && "show workspace files"@[16] == 'i' && "show workspace files"@[17] == 'l'
            && "show workspace files"@[18] == 'e' && "show workspace files"@[19] == 's',
        "status"@.len() == 6,
        "status"@[0] == 's' && "status"@[1] == 't' && "status"@[2] == 'a' && "status"@[3] == 't'
            && "status"@[4] == 'u' && "status"@[5] == 's',
        "tools"@.len() == 5,
        "tools"@[0] == 't' && "tools"@[1] == 'o' && "tools"@[2] == 'o' && "tools"@[3] == 'l'
            && "tools"@[4] == 's',
        "usage"@.len() == 5,
        "usage"@[0] == 'u' && "usage"@[1] == 's' && "usage"@[2] == 'a' && "usage"@[3] == 'g'
            && "usage"@[4] == 'e',
        "what model am i using"@.len() == 21,
        "what model am i using"@[0] == 'w' && "what model am i using"@[1] == 'h'
            && "what model am i using"@[2] == 'a' && "what model am i using"@[3] == 't'
            && "what model am i using"@[4] == ' ' && "what model am i using"@[5] == 'm'
            && "what model am i using"@[6] == 'o' && "what model am i using"@[7] == 'd'
            && "what model am i using"@[8] == 'e' && "what model am i using"@[9] == 'l'
            && "what model am i using"@[10] == ' ' && "what model am i using"@[11] == 'a'
            && "what model am i using"@[12] == 'm' && "what model am i using"@[13] == ' '
            && "what model am i using"@[14] == 'i' && "what model am i using"@[15] == ' '
            && "what model am i using"@[16] == 'u' && "what model am i using"@[17] == 's'
            && "what model am i using"@[18] == 'i' && "what model am i using"@[19] == 'n'
            && "what model am i using"@[20] == 'g',
{
    reveal_strlit("connect");
    reveal_strlit("connect to ");
    reveal_strlit("current model");
    reveal_strlit("diff");
    reveal_strlit("disconnect");
    reveal_strlit("git diff");
    reveal_strlit("git lg");
    reveal_strlit("git log");
    reveal_strlit("git status");
    reveal_strlit("help");
    reveal_strlit("list files");
    reveal_strlit("list models");
    reveal_strlit("list tools");
    reveal_strlit("list workspace files");
    reveal_strlit("log");
    reveal_strlit("model");
    reveal_strlit("models");
    reveal_strlit("reconnect");
    reveal_strlit("reload");
    reveal_strlit("reload configuration");
    reveal_strlit("reset session");
    reveal_strlit("show available commands");
    reveal_strlit("show available models");
    reveal_strlit("show commands");
    reveal_strlit("show diff");
    reveal_strlit("show files");
    reveal_strlit("show help");
    reveal_strlit("show local tools");
    reveal_strlit("show log");
    reveal_strlit("show model");
    reveal_strlit("show models");
    reveal_strlit("show status");
    reveal_strlit("show tools");
    reveal_strlit("show usage");
    reveal_strlit("show workspace files");
    reveal_strlit("status");
    reveal_strlit("tools");
    reveal_strlit("usage");
    reveal_strlit("what model am i using");
}

/// The letters of the words that the lemmas below compare.
proof fn lemma_letters_file()
    ensures
        "edit "@.len() == 5,
        "edit "@[0] == 'e' && "edit "@[1] == 'd' && "edit "@[2] == 'i' && "edit "@[3] == 't'
            && "edit "@[4] == ' ',
        "edit file "@.len() == 10,
        "edit file "@[0] == 'e' && "edit file "@[1] == 'd' && "edit file "@[2] == 'i'
            && "edit file "@[3] == 't' && "edit file "@[4] == ' ' && "edit file "@[5] == 'f'
            && "edit file "@[6] == 'i' && "edit file "@[7] == 'l' && "edit file "@[8] == 'e'
            && "edit file "@[9] == ' ',
        "open "@.len() == 5,
        "open "@[0] == 'o' && "open "@[1] == 'p' && "open "@[2] == 'e' && "open "@[3] == 'n'
            && "open "@[4] == ' ',
        "open file "@.len() == 10,
        "open file "@[0] == 'o' && "open file "@[1] == 'p' && "open file "@[2] == 'e'
            && "open file "@[3] == 'n' && "open file "@[4] == ' ' && "open file "@[5] == 'f'
            && "open file "@[6] == 'i' && "open file "@[7] == 'l' && "open file "@[8] == 'e'
            && "open file "@[9] == ' ',
        "pull "@.len() == 5,
        "pull "@[0] == 'p' && "pull "@[1] == 'u' && "pull "@[2] == 'l' && "pull "@[3] == 'l'
            && "pull "@[4] == ' ',
        "pull #"@.len() == 6,
        "pull #"@[0] == 'p' && "pull #"@[1] == 'u' && "pull #"@[2] == 'l' && "pull #"@[3] == 'l'
            && "pull #"@[4] == ' ' && "pull #"@[5] == '#',
        "pull pr "@.len() == 8,
        "pull pr "@[0] == 'p' && "pull pr "@[1] == 'u' && "pull pr "@[2] == 'l'
            && "pull pr "@[3] == 'l' && "pull pr "@[4] == ' ' && "pull pr "@[5] == 'p'
            && "pull pr "@[6] == 'r' && "pull pr "@[7] == ' ',
        "pull pull request "@.len() == 18,
        "pull pull request "@[0] == 'p' && "pull pull request "@[1] == 'u'
            && "pull pull request "@[2] == 'l' && "pull pull request "@[3] == 'l'
            && "pull pull request "@[4] == ' ' && "pull pull request "@[5] == 'p'
            && "pull pull request "@[6] == 'u' && "pull pull request "@[7] == 'l'
            && "pull pull request "@[8] == 'l' && "pull pull request "@[9] == ' '
            && "pull pull request "@[10] == 'r' && "pull pull request "@[11] == 'e'
            && "pull pull request "@[12] == 'q' && "pull pull request "@[13] == 'u'
            && "pull pull request "@[14] == 'e' && "pull pull request "@[15] == 's'
            && "pull pull request "@[16] == 't' && "pull pull request "@[17] == ' ',
        "pull request "@.len() == 13,
        "pull request "@[0] == 'p' && "pull request "@[1] == 'u' && "pull request "@[2] == 'l'
            && "pull request "@[3] == 'l' && "pull request "@[4] == ' '
            && "pull request "@[5] == 'r' && "pull request "@[6] == 'e'
            && "pull request "@[7] == 'q' && "pull request "@[8] == 'u'
            && "pull request "@[9] == 'e' && "pull request "@[10] == 's'
            && "pull request "@[11] == 't' && "pull request "@[12] == ' ',
        "select model "@.len() == 13,
        "select model "@[0] == 's' && "select model "@[1] == 'e' && "select model "@[2] == 'l'
            && "select model "@[3] == 'e' && "select model "@[4] == 'c'
            && "select model "@[5] == 't' && "select model "@[6] == ' '
            && "select model "@[7] == 'm' && "select model "@[8] == 'o'
            && "select model "@[9] == 'd' && "select model "@[10] == 'e'
            && "select model "@[11] == 'l' && "select model "@[12] == ' ',
        "set model to "@.len() == 13,
        "set model to "@[0] == 's' && "set model to "@[1] == 'e' && "set model to "@[2] == 't'
            && "set model to "@[3] == ' ' && "set model to "@[4] == 'm'
            && "set model to "@[5] == 'o' && "set model to "@[6] == 'd'
            && "set model to "@[7] == 'e' && "set model to "@[8] == 'l'
            && "set model to "@[9] == ' ' && "set model to "@[10] == 't'
            && "set model to "@[11] == 'o' && "set model to "@[12] == ' ',
        "show "@.len() == 5,
        "show "@[0] == 's' && "show "@[1] == 'h' && "show "@[2] == 'o' && "show "@[3] == 'w'
            && "show "@[4] == ' ',
        "show file "@.len() == 10,
        "show file "@[0] == 's' && "show file "@[1] == 'h' && "show file "@[2] == 'o'
            && "show file "@[3] == 'w' && "show file "@[4] == ' ' && "show file "@[5] == 'f'
            && "show file "@[6] == 'i' && "show file "@[7] == 'l' && "show file "@[8] == 'e'
            && "show file "@[9] == ' ',
        "switch model to "@.len() == 16,
        "switch model to "@[0] == 's' && "switch model to "@[1] == 'w'
            && "switch model to "@[2] == 'i' && "switch model to "@[3] == 't'
            && "switch model to "@[4] == 'c' && "switch model to "@[5] == 'h'
            && "switch model to "@[6] == ' ' && "switch model to "@[7] == 'm'
            && "switch model to "@[8] == 'o' && "switch model to "@[9] == 'd'
            && "switch model to "@[10] == 'e' && "switch model to "@[11] == 'l'
            && "switch model to "@[12] == ' ' && "switch model to "@[13] == 't'
            && "switch model to "@[14] == 'o' && "switch model to "@[15] == ' ',
        "use model "@.len() == 10,
        "use model "@[0] == 'u' && "use model "@[1] == 's' && "use model "@[2] == 'e'
            && "use model "@[3] == ' ' && "use model "@[4] == 'm' && "use model "@[5] == 'o'
            && "use model "@[6] == 'd' && "use model "@[7] == 'e' && "use model "@[8] == 'l'
            && "use model "@[9] == ' ',
{
    reveal_strlit("edit ");
    reveal_strlit("edit file ");
    reveal_strlit("open ");
    reveal_strlit("open file ");
    reveal_strlit("pull ");
    reveal_strlit("pull #");
    reveal_strlit("pull pr ");
    reveal_strlit("pull pull request ");
    reveal_strlit("pull request ");
    reveal_strlit("select model ");
    reveal_strlit("set model to ");
    reveal_strlit("show ");
    reveal_strlit("show file ");
    reveal_strlit("switch model to ");
    reveal_strlit("use model ");
}

/// The letters of the words that the lemmas below compare.
proof fn lemma_letters_branch()
    ensures
        " branch"@.len() == 7,
        " branch"@[0] == ' ' && " branch"@[1] == 'b' && " branch"@[2] == 'r' && " branch"@[3] == 'a'
            && " branch"@[4] == 'n' && " branch"@[5] == 'c' && " branch"@[6] == 'h',
        "checkout"@.len() == 8,
        "checkout"@[0] == 'c' && "checkout"@[1] == 'h' && "checkout"@[2] == 'e'
            && "checkout"@[3] == 'c' && "checkout"@[4] == 'k' && "checkout"@[5] == 'o'
            && "checkout"@[6] == 'u' && "checkout"@[7] == 't',
        "checkout "@.len() == 9,
        "checkout "@[0] == 'c' && "checkout "@[1] == 'h' && "checkout "@[2] == 'e'
            && "checkout "@[3] == 'c' && "checkout "@[4] == 'k' && "checkout "@[5] == 'o'
            && "checkout "@[6] == 'u' && "checkout "@[7] == 't' && "checkout "@[8] == ' ',
        "git checkout "@.len() == 13,
        "git checkout "@[0] == 'g' && "git checkout "@[1] == 'i' && "git checkout "@[2] == 't'
            && "git checkout "@[3] == ' ' && "git checkout "@[4] == 'c'
            && "git checkout "@[5] == 'h' && "git checkout "@[6] == 'e'
            && "git checkout "@[7] == 'c' && "git checkout "@[8] == 'k'
            && "git checkout "@[9] == 'o' && "git checkout "@[10] == 'u'
            && "git checkout "@[11] == 't' && "git checkout "@[12] == ' ',
        "git merge "@.len() == 10,
        "git merge "@[0] == 'g' && "git merge "@[1] == 'i' && "git merge "@[2] == 't'
            && "git merge "@[3] == ' ' && "git merge "@[4] == 'm' && "git merge "@[5] == 'e'
            && "git merge "@[6] == 'r' && "git merge "@[7] == 'g' && "git merge "@[8] == 'e'
            && "git merge "@[9] == ' ',
        "git rebase"@.len() == 10,
        "git rebase"@[0] == 'g' && "git rebase"@[1] == 'i' && "git rebase"@[2] == 't'
            && "git rebase"@[3] == ' ' && "git rebase"@[4] == 'r' && "git rebase"@[5] == 'e'
            && "git rebase"@[6] == 'b' && "git rebase"@[7] == 'a' && "git rebase"@[8] == 's'
            && "git rebase"@[9] == 'e',
        "merge"@.len() == 5,
        "merge"@[0] == 'm' && "merge"@[1] == 'e' && "merge"@[2] == 'r' && "merge"@[3] == 'g'
            && "merge"@[4] == 'e',
        "merge "@.len() == 6,
        "merge "@[0] == 'm' && "merge "@[1] == 'e' && "merge "@[2] == 'r' && "merge "@[3] == 'g'
            && "merge "@[4] == 'e' && "merge "@[5] == ' ',
        "rebase"@.len() == 6,
        "rebase"@[0] == 'r' && "rebase"@[1] == 'e' && "rebase"@[2] == 'b' && "rebase"@[3] == 'a'
            && "rebase"@[4] == 's' && "rebase"@[5] == 'e',
        "switch to"@.len() == 9,
        "switch to"@[0] == 's' && "switch to"@[1] == 'w' && "switch to"@[2] == 'i'
            && "switch to"@[3] == 't' && "switch to"@[4] == 'c' && "switch to"@[5] == 'h'
            && "switch to"@[6] == ' ' && "switch to"@[7] == 't' && "switch to"@[8] == 'o',
        "switch to "@.len() == 10,
        "switch to "@[0] == 's' && "switch to "@[1] == 'w' && "switch to "@[2] == 'i'
            && "switch to "@[3] == 't' && "switch to "@[4] == 'c' && "switch to "@[5] == 'h'
            && "switch to "@[6] == ' ' && "switch to "@[7] == 't' && "switch to "@[8] == 'o'
            && "switch to "@[9] == ' ',
{
    reveal_strlit(" branch");
    reveal_strlit("checkout");
    reveal_strlit("checkout ");
    reveal_strlit("git checkout ");
    reveal_strlit("git merge ");
    reveal_strlit("git rebase");
    reveal_strlit("merge");
    reveal_strlit("merge ");
    reveal_strlit("rebase");
    reveal_strlit("switch to");
    reveal_strlit("switch to ");
}

/// The letters of the words that the lemmas below compare.
proof fn lemma_letters_worktree()
    ensures
        "add"@.len() == 3,
        "add"@[0] == 'a' && "add"@[1] == 'd' && "add"@[2] == 'd',
        "add "@.len() == 4,
        "add "@[0] == 'a' && "add "@[1] == 'd' && "add "@[2] == 'd' && "add "@[3] == ' ',
        "add file "@.len() == 9,
        "add file "@[0] == 'a' && "add file "@[1] == 'd' && "add file "@[2] == 'd'
            && "add file "@[3] == ' ' && "add file "@[4] == 'f' && "add file "@[5] == 'i'
            && "add file "@[6] == 'l' && "add file "@[7] == 'e' && "add file "@[8] == ' ',
        "git add "@.len() == 8,
        "git add "@[0] == 'g' && "git add "@[1] == 'i' && "git add "@[2] == 't'
            && "git add "@[3] == ' ' && "git add "@[4] == 'a' && "git add "@[5] == 'd'
            && "git add "@[6] == 'd' && "git add "@[7] == ' ',
        "git mv "@.len() == 7,
        "git mv "@[0] == 'g' && "git mv "@[1] == 'i' && "git mv "@[2] == 't' && "git mv "@[3] == ' '
            && "git mv "@[4] == 'm' && "git mv "@[5] == 'v' && "git mv "@[6] == ' ',
        "git rm "@.len() == 7,
        "git rm "@[0] == 'g' && "git rm "@[1] == 'i' && "git rm "@[2] == 't' && "git rm "@[3] == ' '
            && "git rm "@[4] == 'r' && "git rm "@[5] == 'm' && "git rm "@[6] == ' ',
        "move"@.len() == 4,
        "move"@[0] == 'm' && "move"@[1] == 'o' && "move"@[2] == 'v' && "move"@[3] == 'e',
        "move "@.len() == 5,
        "move "@[0] == 'm' && "move "@[1] == 'o' && "move "@[2] == 'v' && "move "@[3] == 'e'
            && "move "@[4] == ' ',
        "move file "@.len() == 10,
        "move file "@[0] == 'm' && "move file "@[1] == 'o' && "move file "@[2] == 'v'
            && "move file "@[3] == 'e' && "move file "@[4] == ' ' && "move file "@[5] == 'f'
            && "move file "@[6] == 'i' && "move file "@[7] == 'l' && "move file "@[8] == 'e'
            && "move file "@[9] == ' ',
        "remove"@.len() == 6,
        "remove"@[0] == 'r' && "remove"@[1] == 'e' && "remove"@[2] == 'm' && "remove"@[3] == 'o'
            && "remove"@[4] == 'v' && "remove"@[5] == 'e',
        "remove "@.len() == 7,
        "remove "@[0] == 'r' && "remove "@[1] == 'e' && "remove "@[2] == 'm' && "remove "@[3] == 'o'
            && "remove "@[4] == 'v' && "remove "@[5] == 'e' && "remove "@[6] == ' ',
        "remove file "@.len() == 12,
        "remove file "@[0] == 'r' && "remove file "@[1] == 'e' && "remove file "@[2] == 'm'
            && "remove file "@[3] == 'o' && "remove file "@[4] == 'v' && "remove file "@[5] == 'e'
            && "remove file "@[6] == ' ' && "remove file "@[7] == 'f' && "remove file "@[8] == 'i'
            && "remove file "@[9] == 'l' && "remove file "@[10] == 'e'
            && "remove file "@[11] == ' ',
{
    reveal_strlit("add");
    reveal_strlit("add ");
    reveal_strlit("add file ");
    reveal_strlit("git add ");
    reveal_strlit("git mv ");
    reveal_strlit("git rm ");
    reveal_strlit("move");
    reveal_strlit("move ");
    reveal_strlit("move file ");
    reveal_strlit("remove");
    reveal_strlit("remove ");
    reveal_strlit("remove file ");
}

/// The letters of the words that the lemmas below compare.
proof fn lemma_letters_commit()
    ensures
        "cherry pick"@.len() == 11,
        "cherry pick"@[0] == 'c' && "cherry pick"@[1] == 'h' && "cherry pick"@[2] == 'e'
            && "cherry pick"@[3] == 'r' && "cherry pick"@[4] == 'r' && "cherry pick"@[5] == 'y'
            && "cherry pick"@[6] == ' ' && "cherry pick"@[7] == 'p' && "cherry pick"@[8] == 'i'
            && "cherry pick"@[9] == 'c' && "cherry pick"@[10] == 'k',
        "cherry pick "@.len() == 12,
        "cherry pick "@[0] == 'c' && "cherry pick "@[1] == 'h' && "cherry pick "@[2] == 'e'
            && "cherry pick "@[3] == 'r' && "cherry pick "@[4] == 'r' && "cherry pick "@[5] == 'y'
            && "cherry pick "@[6] == ' ' && "cherry pick "@[7] == 'p' && "cherry pick "@[8] == 'i'
            && "cherry pick "@[9] == 'c' && "cherry pick "@[10] == 'k'
            && "cherry pick "@[11] == ' ',
        "cherry-pick"@.len() == 11,
        "cherry-pick"@[0] == 'c' && "cherry-pick"@[1] == 'h' && "cherry-pick"@[2] == 'e'
            && "cherry-pick"@[3] == 'r' && "cherry-pick"@[4] == 'r' && "cherry-pick"@[5] == 'y'
            && "cherry-pick"@[6] == '-' && "cherry-pick"@[7] == 'p' && "cherry-pick"@[8] == 'i'
            && "cherry-pick"@[9] == 'c' && "cherry-pick"@[10] == 'k',
        "cherry-pick "@.len() == 12,
        "cherry-pick "@[0] == 'c' && "cherry-pick "@[1] == 'h' && "cherry-pick "@[2] == 'e'
            && "cherry-pick "@[3] == 'r' && "cherry-pick "@[4] == 'r' && "cherry-pick "@[5] == 'y'
            && "cherry-pick "@[6] == '-' && "cherry-pick "@[7] == 'p' && "cherry-pick "@[8] == 'i'
            && "cherry-pick "@[9] == 'c' && "cherry-pick "@[10] == 'k'
            && "cherry-pick "@[11] == ' ',
        "commit"@.len() == 6,
        "commit"@[0] == 'c' && "commit"@[1] == 'o' && "commit"@[2] == 'm' && "commit"@[3] == 'm'
            && "commit"@[4] == 'i' && "commit"@[5] == 't',
        "commit "@.len() == 7,
        "commit "@[0] == 'c' && "commit "@[1] == 'o' && "commit "@[2] == 'm' && "commit "@[3] == 'm'
            && "commit "@[4] == 'i' && "commit "@[5] == 't' && "commit "@[6] == ' ',
        "git cherry-pick "@.len() == 16,
        "git cherry-pick "@[0] == 'g' && "git cherry-pick "@[1] == 'i'
            && "git cherry-pick "@[2] == 't' && "git cherry-pick "@[3] == ' '
            && "git cherry-pick "@[4] == 'c' && "git cherry-pick "@[5] == 'h'
            && "git cherry-pick "@[6] == 'e' && "git cherry-pick "@[7] == 'r'
            && "git cherry-pick "@[8] == 'r' && "git cherry-pick "@[9] == 'y'
            && "git cherry-pick "@[10] == '-' && "git cherry-pick "@[11] == 'p'
            && "git cherry-pick "@[12] == 'i' && "git cherry-pick "@[13] == 'c'
            && "git cherry-pick "@[14] == 'k' && "git cherry-pick "@[15] == ' ',
        "git commit -a -m "@.len() == 17,
        "git commit -a -m "@[0] == 'g' && "git commit -a -m "@[1] == 'i'
            && "git commit -a -m "@[2] == 't' && "git commit -a -m "@[3] == ' '
            && "git commit -a -m "@[4] == 'c' && "git commit -a -m "@[5] == 'o'
            && "git commit -a -m "@[6] == 'm' && "git commit -a -m "@[7] == 'm'
            && "git commit -a -m "@[8] == 'i' && "git commit -a -m "@[9] == 't'
            && "git commit -a -m "@[10] == ' ' && "git commit -a -m "@[11] == '-'
            && "git commit -a -m "@[12] == 'a' && "git commit -a -m "@[13] == ' '
            && "git commit -a -m "@[14] == '-' && "git commit -a -m "@[15] == 'm'
            && "git commit -a -m "@[16] == ' ',
        "git commit -m "@.len() == 14,
        "git commit -m "@[0] == 'g' && "git commit -m "@[1] == 'i' && "git commit -m "@[2] == 't'
            && "git commit -m "@[3] == ' ' && "git commit -m "@[4] == 'c'
            && "git commit -m "@[5] == 'o' && "git commit -m "@[6] == 'm'
            && "git commit -m "@[7] == 'm' && "git commit -m "@[8] == 'i'
            && "git commit -m "@[9] == 't' && "git commit -m "@[10] == ' '
            && "git commit -m "@[11] == '-' && "git commit -m "@[12] == 'm'
            && "git commit -m "@[13] == ' ',
{
    reveal_strlit("cherry pick");
    reveal_strlit("cherry pick ");
    reveal_strlit("cherry-pick");
    reveal_strlit("cherry-pick ");
    reveal_strlit("commit");
    reveal_strlit("commit ");
    reveal_strlit("git cherry-pick ");
    reveal_strlit("git commit -a -m ");
    reveal_strlit("git commit -m ");
}

/// The letters of the words that the lemmas below compare.
proof fn lemma_letters_repository()
    ensures
        "delete"@.len() == 6,
        "delete"@[0] == 'd' && "delete"@[1] == 'e' && "delete"@[2] == 'l' && "delete"@[3] == 'e'
            && "delete"@[4] == 't' && "delete"@[5] == 'e',
        "delete "@.len() == 7,
        "delete "@[0] == 'd' && "delete "@[1] == 'e' && "delete "@[2] == 'l' && "delete "@[3] == 'e'
            && "delete "@[4] == 't' && "delete "@[5] == 'e' && "delete "@[6] == ' ',
        "delete branch"@.len() == 13,
        "delete branch"@[0] == 'd' && "delete branch"@[1] == 'e' && "delete branch"@[2] == 'l'
            && "delete branch"@[3] == 'e' && "delete branch"@[4] == 't'
            && "delete branch"@[5] == 'e' && "delete branch"@[6] == ' '
            && "delete branch"@[7] == 'b' && "delete branch"@[8] == 'r'
            && "delete branch"@[9] == 'a' && "delete branch"@[10] == 'n'
            && "delete branch"@[11] == 'c' && "delete branch"@[12] == 'h',
        "delete branch "@.len() == 14,
        "delete branch "@[0] == 'd' && "delete branch "@[1] == 'e' && "delete branch "@[2] == 'l'
            && "delete branch "@[3] == 'e' && "delete branch "@[4] == 't'
            && "delete branch "@[5] == 'e' && "delete branch "@[6] == ' '
            && "delete branch "@[7] == 'b' && "delete branch "@[8] == 'r'
            && "delete branch "@[9] == 'a' && "delete branch "@[10] == 'n'
            && "delete branch "@[11] == 'c' && "delete branch "@[12] == 'h'
            && "delete branch "@[13] == ' ',
        "force push"@.len() == 10,
        "force push"@[0] == 'f' && "force push"@[1] == 'o' && "force push"@[2] == 'r'
            && "force push"@[3] == 'c' && "force push"@[4] == 'e' && "force push"@[5] == ' '
            && "force push"@[6] == 'p' && "force push"@[7] == 'u' && "force push"@[8] == 's'
            && "force push"@[9] == 'h',
        "git branch -D "@.len() == 14,
        "git branch -D "@[0] == 'g' && "git branch -D "@[1] == 'i' && "git branch -D "@[2] == 't'
            && "git branch -D "@[3] == ' ' && "git branch -D "@[4] == 'b'
            && "git branch -D "@[5] == 'r' && "git branch -D "@[6] == 'a'
            && "git branch -D "@[7] == 'n' && "git branch -D "@[8] == 'c'
            && "git branch -D "@[9] == 'h' && "git branch -D "@[10] == ' '
            && "git branch -D "@[11] == '-' && "git branch -D "@[12] == 'D'
            && "git branch -D "@[13] == ' ',
        "git init"@.len() == 8,
        "git init"@[0] == 'g' && "git init"@[1] == 'i' && "git init"@[2] == 't'
            && "git init"@[3] == ' ' && "git init"@[4] == 'i' && "git init"@[5] == 'n'
            && "git init"@[6] == 'i' && "git init"@[7] == 't',
        "git push"@.len() == 8,
        "git push"@[0] == 'g' && "git push"@[1] == 'i' && "git push"@[2] == 't'
            && "git push"@[3] == ' ' && "git push"@[4] == 'p' && "git push"@[5] == 'u'
            && "git push"@[6] == 's' && "git push"@[7] == 'h',
        "git push --force"@.len() == 16,
        "git push --force"@[0] == 'g' && "git push --force"@[1] == 'i'
            && "git push --force"@[2] == 't' && "git push --force"@[3] == ' '
            && "git push --force"@[4] == 'p' && "git push --force"@[5] == 'u'
            && "git push --force"@[6] == 's' && "git push --force"@[7] == 'h'
            && "git push --force"@[8] == ' ' && "git push --force"@[9] == '-'
            && "git push --force"@[10] == '-' && "git push --force"@[11] == 'f'
            && "git push --force"@[12] == 'o' && "git push --force"@[13] == 'r'
            && "git push --force"@[14] == 'c' && "git push --force"@[15] == 'e',
        "git push -f"@.len() == 11,
        "git push -f"@[0] == 'g' && "git push -f"@[1] == 'i' && "git push -f"@[2] == 't'
            && "git push -f"@[3] == ' ' && "git push -f"@[4] == 'p' && "git push -f"@[5] == 'u'
            && "git push -f"@[6] == 's' && "git push -f"@[7] == 'h' && "git push -f"@[8] == ' '
            && "git push -f"@[9] == '-' && "git push -f"@[10] == 'f',
        "git push origin"@.len() == 15,
        "git push origin"@[0] == 'g' && "git push origin"@[1] == 'i' && "git push origin"@[2] == 't'
            && "git push origin"@[3] == ' ' && "git push origin"@[4] == 'p'
            && "git push origin"@[5] == 'u' && "git push origin"@[6] == 's'
            && "git push origin"@[7] == 'h' && "git push origin"@[8] == ' '
            && "git push origin"@[9] == 'o' && "git push origin"@[10] == 'r'
            && "git push origin"@[11] == 'i' && "git push origin"@[12] == 'g'
            && "git push origin"@[13] == 'i' && "git push origin"@[14] == 'n',
        "git push origin --force"@.len() == 23,
        "git push origin --force"@[0] == 'g' && "git push origin --force"@[1] == 'i'
            && "git push origin --force"@[2] == 't' && "git push origin --force"@[3] == ' '
            && "git push origin --force"@[4] == 'p' && "git push origin --force"@[5] == 'u'
            && "git push origin --force"@[6] == 's' && "git push origin --force"@[7] == 'h'
            && "git push origin --force"@[8] == ' ' && "git push origin --force"@[9] == 'o'
            && "git push origin --force"@[10] == 'r' && "git push origin --force"@[11] == 'i'
            && "git push origin --force"@[12] == 'g' && "git push origin --force"@[13] == 'i'
            && "git push origin --force"@[14] == 'n' && "git push origin --force"@[15] == ' '
            && "git push origin --force"@[16] == '-' && "git push origin --force"@[17] == '-'
            && "git push origin --force"@[18] == 'f' && "git push origin --force"@[19] == 'o'
            && "git push origin --force"@[20] == 'r' && "git push origin --force"@[21] == 'c'
            && "git push origin --force"@[22] == 'e',
        "git push origin -f"@.len() == 18,
        "git push origin -f"@[0] == 'g' && "git push origin -f"@[1] == 'i'
            && "git push origin -f"@[2] == 't' && "git push origin -f"@[3] == ' '
            && "git push origin -f"@[4] == 'p' && "git push origin -f"@[5] == 'u'
            && "git push origin -f"@[6] == 's' && "git push origin -f"@[7] == 'h'
            && "git push origin -f"@[8] == ' ' && "git push origin -f"@[9] == 'o'
            && "git push origin -f"@[10] == 'r' && "git push origin -f"@[11] == 'i'
            && "git push origin -f"@[12] == 'g' && "git push origin -f"@[13] == 'i'
            && "git push origin -f"@[14] == 'n' && "git push origin -f"@[15] == ' '
            && "git push origin -f"@[16] == '-' && "git push origin -f"@[17] == 'f',
        "init"@.len() == 4,
        "init"@[0] == 'i' && "init"@[1] == 'n' && "init"@[2] == 'i' && "init"@[3] == 't',
        "init repo"@.len() == 9,
        "init repo"@[0] == 'i' && "init repo"@[1] == 'n' && "init repo"@[2] == 'i'
            && "init repo"@[3] == 't' && "init repo"@[4] == ' ' && "init repo"@[5] == 'r'
            && "init repo"@[6] == 'e' && "init repo"@[7] == 'p' && "init repo"@[8] == 'o',
        "push"@.len() == 4,
        "push"@[0] == 'p' && "push"@[1] == 'u' && "push"@[2] == 's' && "push"@[3] == 'h',
        "push --force"@.len() == 12,
        "push --force"@[0] == 'p' && "push --force"@[1] == 'u' && "push --force"@[2] == 's'
            && "push --force"@[3] == 'h' && "push --force"@[4] == ' ' && "push --force"@[5] == '-'
            && "push --force"@[6] == '-' && "push --force"@[7] == 'f' && "push --force"@[8] == 'o'
            && "push --force"@[9] == 'r' && "push --force"@[10] == 'c'
            && "push --force"@[11] == 'e',
        "push -f"@.len() == 7,
        "push -f"@[0] == 'p' && "push -f"@[1] == 'u' && "push -f"@[2] == 's' && "push -f"@[3] == 'h'
            && "push -f"@[4] == ' ' && "push -f"@[5] == '-' && "push -f"@[6] == 'f',
        "push force"@.len() == 10,
        "push force"@[0] == 'p' && "push force"@[1] == 'u' && "push force"@[2] == 's'
            && "push force"@[3] == 'h' && "push force"@[4] == ' ' && "push force"@[5] == 'f'
            && "push force"@[6] == 'o' && "push force"@[7] == 'r' && "push force"@[8] == 'c'
            && "push force"@[9] == 'e',
{
    reveal_strlit("delete");
    reveal_strlit("delete ");
    reveal_strlit("delete branch");
    reveal_strlit("delete branch ");
    reveal_strlit("force push");
    reveal_strlit("git branch -D ");
    reveal_strlit("git init");
    reveal_strlit("git push");
    reveal_strlit("git push --force");
    reveal_strlit("git push -f");
    reveal_strlit("git push origin");
    reveal_strlit("git push origin --force");
    reveal_strlit("git push origin -f");
    reveal_strlit("init");
    reveal_strlit("init repo");
    reveal_strlit("push");
    reveal_strlit("push --force");
    reveal_strlit("push -f");
    reveal_strlit("push force");
}

/// The letters of the words that the lemmas below compare.
proof fn lemma_letters_closing()
    ensures
        "clear"@.len() == 5,
        "clear"@[0] == 'c' && "clear"@[1] == 'l' && "clear"@[2] == 'e' && "clear"@[3] == 'a'
            && "clear"@[4] == 'r',
        "clear conversation"@.len() == 18,
        "clear conversation"@[0] == 'c' && "clear conversation"@[1] == 'l'
            && "clear conversation"@[2] == 'e' && "clear conversation"@[3] == 'a'
            && "clear conversation"@[4] == 'r' && "clear conversation"@[5] == ' '
            && "clear conversation"@[6] == 'c' && "clear conversation"@[7] == 'o'
            && "clear conversation"@[8] == 'n' && "clear conversation"@[9] == 'v'
            && "clear conversation"@[10] == 'e' && "clear conversation"@[11] == 'r'
            && "clear conversation"@[12] == 's' && "clear conversation"@[13] == 'a'
            && "clear conversation"@[14] == 't' && "clear conversation"@[15] == 'i'
            && "clear conversation"@[16] == 'o' && "clear conversation"@[17] == 'n',
        "exit"@.len() == 4,
        "exit"@[0] == 'e' && "exit"@[1] == 'x' && "exit"@[2] == 'i' && "exit"@[3] == 't',
        "quit"@.len() == 4,
        "quit"@[0] == 'q' && "quit"@[1] == 'u' && "quit"@[2] == 'i' && "quit"@[3] == 't',
        "reset conversation"@.len() == 18,
        "reset conversation"@[0] == 'r' && "reset conversation"@[1] == 'e'
            && "reset conversation"@[2] == 's' && "reset conversation"@[3] == 'e'
            && "reset conversation"@[4] == 't' && "reset conversation"@[5] == ' '
            && "reset conversation"@[6] == 'c' && "reset conversation"@[7] == 'o'
            && "reset conversation"@[8] == 'n' && "reset conversation"@[9] == 'v'
            && "reset conversation"@[10] == 'e' && "reset conversation"@[11] == 'r'
            && "reset conversation"@[12] == 's' && "reset conversation"@[13] == 'a'
            && "reset conversation"@[14] == 't' && "reset conversation"@[15] == 'i'
            && "reset conversation"@[16] == 'o' && "reset conversation"@[17] == 'n',
{
    reveal_strlit("clear");
    reveal_strlit("clear conversation");
    reveal_strlit("exit");
    reveal_strlit("quit");
    reveal_strlit("reset conversation");
}

/// A line in plain words is no slash command.
proof fn lemma_no_slash(s: Seq<char>)
    requires
        s.len() > 0,
        s[0] != '/',
    ensures
        slash_command(s) is None,
{
    lemma_letters_slash();
    lemma_differ(s);
    assert(slash_word(s) is None);
    assert forall|q: Seq<char>| q.len() > 0 && q[0] == '/' implies !#[trigger] begins(s, q) by {
        if begins(s, q) {
            assert(s.subrange(0, q.len() as int)[0] == s[0]);
        }
    }
    assert(differ_at(s, "/open_file "@, 0));
}

pub proof fn lemma_begins_at(s: Seq<char>, q: Seq<char>)
    requires
        begins(s, q),
    ensures
        s.len() >= q.len(),
        forall|k: int| 0 <= k < q.len() ==> #[trigger] s[k] == q[k],
{
    assert forall|k: int| 0 <= k < q.len() implies #[trigger] s[k] == q[k] by {
        assert(s.subrange(0, q.len() as int)[k] == s[k]);
    }
}

/// The words by which the phrases behind the topic `information_phrase` begin.
spec fn behind_information(s: Seq<char>) -> bool {
    ||| begins(s, "use model "@)
    ||| begins(s, "switch model to "@)
    ||| begins(s, "set model to "@)
    ||| begins(s, "select model "@)
    ||| begins(s, "open file "@)
    ||| begins(s, "open "@)
    ||| begins(s, "edit file "@)
    ||| begins(s, "edit "@)
    ||| begins(s, "pull "@)
    ||| begins(s, "git merge "@)
    ||| begins(s, "merge "@)
    ||| begins(s, "git checkout "@)
    ||| begins(s, "checkout "@)
    ||| begins(s, "switch to "@)
    ||| begins(s, "git add "@)
    ||| begins(s, "add file "@)
    ||| begins(s, "add "@)
    ||| begins(s, "git rm "@)
    ||| begins(s, "remove file "@)
    ||| begins(s, "remove "@)
    ||| begins(s, "git mv "@)
    ||| begins(s, "move "@)
    ||| begins(s, "git cherry-pick "@)
    ||| begins(s, "cherry-pick "@)
    ||| begins(s, "cherry pick "@)
    ||| begins(s, "git commit -a -m "@)
    ||| begins(s, "git commit -m "@)
    ||| begins(s, "commit "@)
    ||| begins(s, "git branch -D "@)
    ||| begins(s, "delete branch "@)
    ||| begins(s, "delete "@)
}

proof fn lemma_no_information(s: Seq<char>)
    requires
        behind_information(s),
    ensures
        information_phrase(s) is None,
{
    lemma_letters_worktree();
    lemma_letters_branch();
    lemma_letters_commit();
    lemma_letters_information();
    lemma_letters_repository();
    lemma_letters_file();
    lemma_differ(s);
    assert forall|q: Seq<char>| #[trigger] begins(s, q) implies s.len() >= q.len()
        && (forall|k: int|
        0 <= k < q.len() ==> #[trigger] s[k] == q[k]) by {
        lemma_begins_at(s, q);
    }
}

/// The words by which the phrases behind the topic `file_phrase` begin.
spec fn behind_file(s: Seq<char>) -> bool {
    ||| begins(s, "git merge "@)
    ||| begins(s, "merge "@)
    ||| begins(s, "git checkout "@)
    ||| begins(s, "checkout "@)
    ||| begins(s, "switch to "@)
    ||| begins(s, "git add "@)
    ||| begins(s, "add file "@)
    ||| begins(s, "add "@)
    ||| begins(s, "git rm "@)
    ||| begins(s, "remove file "@)
    ||| begins(s, "remove "@)
    ||| begins(s, "git mv "@)
    ||| begins(s, "move "@)
    ||| begins(s, "git cherry-pick "@)
    ||| begins(s, "cherry-pick "@)
    ||| begins(s, "cherry pick "@)
    ||| begins(s, "git commit -a -m "@)
    ||| begins(s, "git commit -m "@)
    ||| begins(s, "commit "@)
    ||| begins(s, "git branch -D "@)
    ||| begins(s, "delete branch "@)
    ||| begins(s, "delete "@)
}

proof fn lemma_no_file(s: Seq<char>)
    requires
        behind_file(s),
    ensures
        file_phrase(s) is None,
{
    lemma_letters_slash();
    lemma_letters_worktree();
    lemma_letters_branch();
    lemma_letters_commit();
    lemma_letters_repository();
    lemma_letters_file();
    lemma_differ(s);
    assert forall|q: Seq<char>| #[trigger] begins(s, q) implies s.len() >= q.len()
        && (forall|k: int|
        0 <= k < q.len() ==> #[trigger] s[k] == q[k]) by {
        lemma_begins_at(s, q);
    }
}

/// The words by which the phrases behind the topic `branch_phrase` begin.
spec fn behind_branch(s: Seq<char>) -> bool {
    ||| begins(s, "git add "@)
    ||| begins(s, "add file "@)
    ||| begins(s, "add "@)
    ||| begins(s, "git rm "@)
    ||| begins(s, "remove file "@)
    ||| begins(s, "remove "@)
    ||| begins(s, "git mv "@)
    ||| begins(s, "move "@)
    ||| begins(s, "git cherry-pick "@)
    ||| begins(s, "cherry-pick "@)
    ||| begins(s, "cherry pick "@)
    ||| begins(s, "git commit -a -m "@)
    ||| begins(s, "git commit -m "@)
    ||| begins(s, "commit "@)
    ||| begins(s, "git branch -D "@)
    ||| begins(s, "delete branch "@)
    ||| begins(s, "delete "@)
}

proof fn lemma_no_branch(s: Seq<char>)
    requires
        behind_branch(s),
    ensures
        branch_phrase(s) is None,
{
    lemma_letters_branch();
    lemma_letters_worktree();
    lemma_letters_commit();
    lemma_letters_repository();
    lemma_differ(s);
    assert forall|q: Seq<char>| #[trigger] begins(s, q) implies s.len() >= q.len()
        && (forall|k: int|
        0 <= k < q.len() ==> #[trigger] s[k] == q[k]) by {
        lemma_begins_at(s, q);
    }
}

/// The words by which the phrases behind the topic `worktree_phrase` begin.
spec fn behind_worktree(s: Seq<char>) -> bool {
    ||| begins(s, "git cherry-pick "@)
    ||| begins(s, "cherry-pick "@)
    ||| begins(s, "cherry pick "@)
    ||| begins(s, "git commit -a -m "@)
    ||| begins(s, "git commit -m "@)
    ||| begins(s, "commit "@)
    ||| begins(s, "git branch -D "@)
    ||| begins(s, "delete branch "@)
    ||| begins(s, "delete "@)
}

proof fn lemma_no_worktree(s: Seq<char>)
    requires
        behind_worktree(s),
    ensures
        worktree_phrase(s) is None,
{
    lemma_letters_worktree();
    lemma_letters_commit();
    lemma_letters_repository();
    lemma_differ(s);
    assert forall|q: Seq<char>| #[trigger] begins(s, q) implies s.len() >= q.len()
        && (forall|k: int|
        0 <= k < q.len() ==> #[trigger] s[k] == q[k]) by {
        lemma_begins_at(s, q);
    }
}

/// The words by which the phrases behind the topic `commit_phrase` begin.
spec fn behind_commit(s: Seq<char>) -> bool {
    ||| begins(s, "git branch -D "@)
    ||| begins(s, "delete branch "@)
    ||| begins(s, "delete "@)
}

proof fn lemma_no_commit(s: Seq<char>)
    requires
        behind_commit(s),
    ensures
        commit_phrase(s) is None,
{
    lemma_letters_commit();
    lemma_letters_repository();
    lemma_differ(s);
    assert forall|q: Seq<char>| #[trigger] begins(s, q) implies s.len() >= q.len()
        && (forall|k: int|
        0 <= k < q.len() ==> #[trigger] s[k] == q[k]) by {
        lemma_begins_at(s, q);
    }
}

/// At this place two texts differ, be it in the case of a letter.
pub open spec fn exactly_differ_at(s: Seq<char>, q: Seq<char>, k: int) -> bool {
    k < q.len() && (k >= s.len() || s[k] != q[k])
}

/// Whether two texts differ at one of their first places, be it in case.
pub open spec fn exactly_differ(s: Seq<char>, q: Seq<char>) -> bool {
    ||| exactly_differ_at(s, q, 0)
    ||| exactly_differ_at(s, q, 1)
    ||| exactly_differ_at(s, q, 2)
    ||| exactly_differ_at(s, q, 3)
    ||| exactly_differ_at(s, q, 4)
    ||| exactly_differ_at(s, q, 5)
    ||| exactly_differ_at(s, q, 6)
    ||| exactly_differ_at(s, q, 7)
    ||| exactly_differ_at(s, q, 8)
    ||| exactly_differ_at(s, q, 9)
    ||| exactly_differ_at(s, q, 10)
    ||| exactly_differ_at(s, q, 11)
    ||| exactly_differ_at(s, q, 12)
}

pub proof fn lemma_slash_apart(s: Seq<char>)
    ensures
        forall|q: Seq<char>| exactly_differ(s, q) ==> !#[trigger] begins(s, q),
{
    assert forall|q: Seq<char>| exactly_differ(s, q) implies !#[trigger] begins(s, q) by {
        let k = choose|k: int| 0 <= k && exactly_differ_at(s, q, k);
        if begins(s, q) {
            lemma_begins_at(s, q);
            assert(s[k] == q[k]);
        }
    }
}

/// A line with a blank in it is no slash command of one word.
proof fn lemma_no_slash_word(s: Seq<char>, k: int)
    requires
        5 <= k <= 12,
        k < s.len(),
        s[k] == ' ',
    ensures
        slash_word(s) is None,
{
    lemma_letters_slash();
    assert(k == 5 || k == 6 || k == 7 || k == 8 || k == 9 || k == 10 || k == 11 || k == 12);
}

proof fn lemma_slash_connect(a: Seq<char>)
    requires
        is_argument(a),
    ensures
        local_command("/connect "@ + a) == Some(LocalCommand::<Seq<char>>::ConnectTo(a)),
{
    lemma_letters_slash();
    let s = "/connect "@ + a;
    lemma_phrase("/connect "@, a);
    lemma_slash_apart(s);
    lemma_no_slash_word(s, 8);
}

proof fn lemma_slash_model(a: Seq<char>)
    requires
        is_argument(a),
    ensures
        local_command("/model "@ + a) == Some(LocalCommand::<Seq<char>>::SetModel(a)),
{
    lemma_letters_slash();
    let s = "/model "@ + a;
    lemma_phrase("/model "@, a);
    lemma_slash_apart(s);
    lemma_no_slash_word(s, 6);
}

proof fn lemma_slash_show_file(a: Seq<char>)
    requires
        is_argument(a),
    ensures
        local_command("/show_file "@ + a) == Some(LocalCommand::<Seq<char>>::ShowFile(a)),
{
    lemma_letters_slash();
    let s = "/show_file "@ + a;
    lemma_phrase("/show_file "@, a);
    lemma_slash_apart(s);
    lemma_no_slash_word(s, 10);
}

proof fn lemma_slash_pull(a: Seq<char>)
    requires
        is_argument(a),
    ensures
        local_command("/pull "@ + a) == Some(LocalCommand::<Seq<char>>::Pull(number_in(a))),
{
    lemma_letters_slash();
    let s = "/pull "@ + a;
    lemma_phrase("/pull "@, a);
    lemma_slash_apart(s);
    lemma_no_slash_word(s, 5);
}

proof fn lemma_slash_merge(a: Seq<char>)
    requires
        is_argument(a),
    ensures
        local_command("/merge "@ + a) == Some(LocalCommand::<Seq<char>>::Merge(Some(a))),
{
    lemma_letters_slash();
    let s = "/merge "@ + a;
    lemma_phrase("/merge "@, a);
    lemma_slash_apart(s);
    lemma_no_slash_word(s, 6);
}

proof fn lemma_slash_checkout(a: Seq<char>)
    requires
        is_argument(a),
    ensures
        local_command("/checkout "@ + a) == Some(LocalCommand::<Seq<char>>::Checkout(Some(a))),
{
    lemma_letters_slash();
    let s = "/checkout "@ + a;
    lemma_phrase("/checkout "@, a);
    lemma_slash_apart(s);
    lemma_no_slash_word(s, 9);
}

proof fn lemma_slash_add_file(a: Seq<char>)
    requires
        is_argument(a),
    ensures
        local_command("/add_file "@ + a) == Some(LocalCommand::<Seq<char>>::AddFile(Some(a))),
{
    lemma_letters_slash();
    let s = "/add_file "@ + a;
    lemma_phrase("/add_file "@, a);
    lemma_slash_apart(s);
    lemma_no_slash_word(s, 9);
}

proof fn lemma_slash_remove_file(a: Seq<char>)
    requires
        is_argument(a),
    ensures
        local_command("/remove_file "@ + a) == Some(LocalCommand::<Seq<char>>::RemoveFile(Some(a))),
{
    lemma_letters_slash();
    let s = "/remove_file "@ + a;
    lemma_phrase("/remove_file "@, a);
    lemma_slash_apart(s);
    lemma_no_slash_word(s, 12);
}

proof fn lemma_slash_cherry_pick(a: Seq<char>)
    requires
        is_argument(a),
    ensures
        local_command("/cherry_pick "@ + a) == Some(LocalCommand::<Seq<char>>::CherryPick(Some(a))),
{
    lemma_letters_slash();
    let s = "/cherry_pick "@ + a;
    lemma_phrase("/cherry_pick "@, a);
    lemma_slash_apart(s);
    lemma_no_slash_word(s, 12);
}

proof fn lemma_slash_commit(a: Seq<char>)
    requires
        is_argument(a),
    ensures
        unquoted(a).len() > 0 ==> local_command("/commit "@ + a) == Some(
            LocalCommand::<Seq<char>>::Commit(Some(unquoted(a))),
        ),
{
    lemma_letters_slash();
    let s = "/commit "@ + a;
    lemma_phrase("/commit "@, a);
    lemma_slash_apart(s);
    lemma_no_slash_word(s, 7);
}

proof fn lemma_slash_delete(a: Seq<char>)
    requires
        is_argument(a),
    ensures
        local_command("/delete "@ + a) == Some(LocalCommand::<Seq<char>>::DeleteBranch(Some(a))),
{
    lemma_letters_slash();
    let s = "/delete "@ + a;
    lemma_phrase("/delete "@, a);
    lemma_slash_apart(s);
    lemma_no_slash_word(s, 7);
}

proof fn lemma_slash_open_file(a: Seq<char>)
    requires
        is_argument(a),
    ensures
        local_command("/open_file "@ + a) == Some(LocalCommand::<Seq<char>>::OpenFile(unquoted(a))),
{
    lemma_letters_slash();
    let s = "/open_file "@ + a;
    lemma_phrase("/open_file "@, a);
    lemma_slash_apart(s);
    lemma_no_slash_word(s, 10);
}

proof fn lemma_slash_move_file(a: Seq<char>)
    requires
        is_argument(a),
    ensures
        local_command("/move_file "@ + a) == Some(
            LocalCommand::<Seq<char>>::MoveFile(two_words(a)),
        ),
{
    lemma_letters_slash();
    let s = "/move_file "@ + a;
    lemma_phrase("/move_file "@, a);
    lemma_slash_apart(s);
    lemma_no_slash_word(s, 10);
}

/// A slash command takes what stands behind it as its argument.
pub proof fn law_slash_commands_take_their_argument(a: Seq<char>)
    requires
        is_argument(a),
    ensures
        local_command("/connect "@ + a) == Some(LocalCommand::<Seq<char>>::ConnectTo(a)),
        local_command("/model "@ + a) == Some(LocalCommand::<Seq<char>>::SetModel(a)),
        local_command("/show_file "@ + a) == Some(LocalCommand::<Seq<char>>::ShowFile(a)),
        local_command("/pull "@ + a) == Some(LocalCommand::<Seq<char>>::Pull(number_in(a))),
        local_command("/merge "@ + a) == Some(LocalCommand::<Seq<char>>::Merge(Some(a))),
        local_command("/checkout "@ + a) == Some(LocalCommand::<Seq<char>>::Checkout(Some(a))),
        local_command("/add_file "@ + a) == Some(LocalCommand::<Seq<char>>::AddFile(Some(a))),
        local_command("/remove_file "@ + a) == Some(LocalCommand::<Seq<char>>::RemoveFile(Some(a))),
        local_command("/cherry_pick "@ + a) == Some(LocalCommand::<Seq<char>>::CherryPick(Some(a))),
        unquoted(a).len() > 0 ==> local_command("/commit "@ + a) == Some(
            LocalCommand::<Seq<char>>::Commit(Some(unquoted(a))),
        ),
        local_command("/delete "@ + a) == Some(LocalCommand::<Seq<char>>::DeleteBranch(Some(a))),
        local_command("/open_file "@ + a) == Some(LocalCommand::<Seq<char>>::OpenFile(unquoted(a))),
        words_of(a) matches Ok(words)
            && words.len() >= 2 ==> local_command("/move_file "@ + a) == Some(
            LocalCommand::MoveFile(Some((words_of(a)->Ok_0[0], words_of(a)->Ok_0[1]))),
        ),
{
    lemma_slash_connect(a);
    lemma_slash_model(a);
    lemma_slash_show_file(a);
    lemma_slash_pull(a);
    lemma_slash_merge(a);
    lemma_slash_checkout(a);
    lemma_slash_add_file(a);
    lemma_slash_remove_file(a);
    lemma_slash_cherry_pick(a);
    lemma_slash_commit(a);
    lemma_slash_delete(a);
    lemma_slash_open_file(a);
    lemma_slash_move_file(a);
}

proof fn lemma_git_merge_phrase(a: Seq<char>)
    requires
        is_argument(a),
    ensures
        local_command("git merge "@ + a) == Some(LocalCommand::Merge(Some(a))),
{
    lemma_letters_branch();
    lemma_phrase("git merge "@, a);
    lemma_no_slash("git merge "@ + a);
    lemma_no_information("git merge "@ + a);
    lemma_no_file("git merge "@ + a);
    lemma_differ("git merge "@ + a);
}

proof fn lemma_merge_phrase(a: Seq<char>)
    requires
        is_argument(a),
    ensures
        local_command("merge "@ + a) == Some(LocalCommand::Merge(Some(a))),
{
    lemma_letters_branch();
    lemma_phrase("merge "@, a);
    lemma_no_slash("merge "@ + a);
    lemma_no_information("merge "@ + a);
    lemma_no_file("merge "@ + a);
    lemma_differ("merge "@ + a);
}

/// Every way to ask for a merge names the branch that is merged.
pub proof fn law_merge_phrases(a: Seq<char>)
    requires
        is_argument(a),
    ensures
        local_command("git merge "@ + a) == Some(LocalCommand::Merge(Some(a))),
        local_command("merge "@ + a) == Some(LocalCommand::Merge(Some(a))),
        local_command("/merge "@ + a) == Some(LocalCommand::Merge(Some(a))),
{
    lemma_git_merge_phrase(a);
    lemma_merge_phrase(a);
    law_slash_commands_take_their_argument(a);
}

proof fn lemma_git_checkout_phrase(a: Seq<char>)
    requires
        is_argument(a),
    ensures
        local_command("git checkout "@ + a) == Some(LocalCommand::Checkout(Some(a))),
{
    lemma_letters_branch();
    lemma_phrase("git checkout "@, a);
    lemma_no_slash("git checkout "@ + a);
    lemma_no_information("git checkout "@ + a);
    lemma_no_file("git checkout "@ + a);
    lemma_differ("git checkout "@ + a);
}

proof fn lemma_checkout_phrase(a: Seq<char>)
    requires
        is_argument(a),
    ensures
        local_command("checkout "@ + a) == Some(LocalCommand::Checkout(Some(a))),
{
    lemma_letters_branch();
    lemma_phrase("checkout "@, a);
    lemma_no_slash("checkout "@ + a);
    lemma_no_information("checkout "@ + a);
    lemma_no_file("checkout "@ + a);
    lemma_differ("checkout "@ + a);
}

proof fn lemma_switch_to_phrase(a: Seq<char>)
    requires
        is_argument(a),
        before_suffix_ci(a, " branch"@) is None,
    ensures
        local_command("switch to "@ + a) == Some(LocalCommand::Checkout(Some(a))),
{
    lemma_letters_branch();
    lemma_phrase("switch to "@, a);
    lemma_no_slash("switch to "@ + a);
    lemma_no_information("switch to "@ + a);
    lemma_no_file("switch to "@ + a);
    lemma_differ("switch to "@ + a);
}

/// Every way to ask for a checkout names what is checked out; the word `branch`
/// behind it does not belong to the name.
pub proof fn law_checkout_phrases(a: Seq<char>)
    requires
        is_argument(a),
    ensures
        local_command("git checkout "@ + a) == Some(LocalCommand::Checkout(Some(a))),
        local_command("checkout "@ + a) == Some(LocalCommand::Checkout(Some(a))),
        before_suffix_ci(a, " branch"@) is None ==> local_command("switch to "@ + a) == Some(
            LocalCommand::Checkout(Some(a)),
        ),
        local_command("/checkout "@ + a) == Some(LocalCommand::Checkout(Some(a))),
{
    lemma_git_checkout_phrase(a);
    lemma_checkout_phrase(a);
    if before_suffix_ci(a, " branch"@) is None {
        lemma_switch_to_phrase(a);
    }
    law_slash_commands_take_their_argument(a);
}

proof fn lemma_git_add_phrase(a: Seq<char>)
    requires
        is_argument(a),
    ensures
        local_command("git add "@ + a) == Some(LocalCommand::AddFile(Some(a))),
{
    lemma_letters_worktree();
    lemma_phrase("git add "@, a);
    lemma_no_slash("git add "@ + a);
    lemma_no_information("git add "@ + a);
    lemma_no_file("git add "@ + a);
    lemma_no_branch("git add "@ + a);
    lemma_differ("git add "@ + a);
}

proof fn lemma_add_file_phrase(a: Seq<char>)
    requires
        is_argument(a),
    ensures
        local_command("add file "@ + a) == Some(LocalCommand::AddFile(Some(a))),
{
    lemma_letters_worktree();
    lemma_phrase("add file "@, a);
    lemma_no_slash("add file "@ + a);
    lemma_no_information("add file "@ + a);
    lemma_no_file("add file "@ + a);
    lemma_no_branch("add file "@ + a);
    lemma_differ("add file "@ + a);
}

proof fn lemma_add_phrase(a: Seq<char>)
    requires
        is_argument(a),
        !begins_ci(a, "file "@),
    ensures
        local_command("add "@ + a) == Some(LocalCommand::AddFile(Some(a))),
{
    lemma_letters_worktree();
    lemma_phrase("add "@, a);
    reveal_strlit("file ");
    assert("add "@ + "file "@ =~= "add file "@);
    lemma_longer_phrase("add "@, "file "@, a);
    lemma_no_slash("add "@ + a);
    lemma_no_information("add "@ + a);
    lemma_no_file("add "@ + a);
    lemma_no_branch("add "@ + a);
    lemma_differ("add "@ + a);
}

/// Every way to add a file names the file; of two phrases that fit, the longer
/// one counts.
pub proof fn law_add_phrases(a: Seq<char>)
    requires
        is_argument(a),
    ensures
        local_command("git add "@ + a) == Some(LocalCommand::AddFile(Some(a))),
        local_command("add file "@ + a) == Some(LocalCommand::AddFile(Some(a))),
        !begins_ci(a, "file "@) ==> local_command("add "@ + a) == Some(
            LocalCommand::AddFile(Some(a)),
        ),
        local_command("/add_file "@ + a) == Some(LocalCommand::AddFile(Some(a))),
{
    lemma_git_add_phrase(a);
    lemma_add_file_phrase(a);
    if !begins_ci(a, "file "@) {
        lemma_add_phrase(a);
    }
    law_slash_commands_take_their_argument(a);
}

proof fn lemma_git_rm_phrase(a: Seq<char>)
    requires
        is_argument(a),
    ensures
        local_command("git rm "@ + a) == Some(LocalCommand::RemoveFile(Some(a))),
{
    lemma_letters_worktree();
    lemma_phrase("git rm "@, a);
    lemma_no_slash("git rm "@ + a);
    lemma_no_information("git rm "@ + a);
    lemma_no_file("git rm "@ + a);
    lemma_no_branch("git rm "@ + a);
    lemma_differ("git rm "@ + a);
}

proof fn lemma_remove_file_phrase(a: Seq<char>)
    requires
        is_argument(a),
    ensures
        local_command("remove file "@ + a) == Some(LocalCommand::RemoveFile(Some(a))),
{
    lemma_letters_worktree();
    lemma_phrase("remove file "@, a);
    lemma_no_slash("remove file "@ + a);
    lemma_no_information("remove file "@ + a);
    lemma_no_file("remove file "@ + a);
    lemma_no_branch("remove file "@ + a);
    lemma_differ("remove file "@ + a);
}

proof fn lemma_remove_phrase(a: Seq<char>)
    requires
        is_argument(a),
        !begins_ci(a, "file "@),
    ensures
        local_command("remove "@ + a) == Some(LocalCommand::RemoveFile(Some(a))),
{
    lemma_letters_worktree();
    lemma_phrase("remove "@, a);
    reveal_strlit("file ");
    assert("remove "@ + "file "@ =~= "remove file "@);
    lemma_longer_phrase("remove "@, "file "@, a);
    lemma_no_slash("remove "@ + a);
    lemma_no_information("remove "@ + a);
    lemma_no_file("remove "@ + a);
    lemma_no_branch("remove "@ + a);
    lemma_differ("remove "@ + a);
}

/// Every way to remove a file names the file; of two phrases that fit, the
/// longer one counts.
pub proof fn law_remove_phrases(a: Seq<char>)
    requires
        is_argument(a),
    ensures
        local_command("git rm "@ + a) == Some(LocalCommand::RemoveFile(Some(a))),
        local_command("remove file "@ + a) == Some(LocalCommand::RemoveFile(Some(a))),
        !begins_ci(a, "file "@) ==> local_command("remove "@ + a) == Some(
            LocalCommand::RemoveFile(Some(a)),
        ),
        local_command("/remove_file "@ + a) == Some(LocalCommand::RemoveFile(Some(a))),
{
    lemma_git_rm_phrase(a);
    lemma_remove_file_phrase(a);
    if !begins_ci(a, "file "@) {
        lemma_remove_phrase(a);
    }
    law_slash_commands_take_their_argument(a);
}

proof fn lemma_git_cherry_dash_pick_phrase(a: Seq<char>)
    requires
        is_argument(a),
    ensures
        local_command("git cherry-pick "@ + a) == Some(LocalCommand::CherryPick(Some(a))),
{
    lemma_letters_commit();
    lemma_phrase("git cherry-pick "@, a);
    lemma_no_slash("git cherry-pick "@ + a);
    lemma_no_information("git cherry-pick "@ + a);
    lemma_no_file("git cherry-pick "@ + a);
    lemma_no_branch("git cherry-pick "@ + a);
    lemma_no_worktree("git cherry-pick "@ + a);
    lemma_differ("git cherry-pick "@ + a);
}

proof fn lemma_cherry_dash_pick_phrase(a: Seq<char>)
    requires
        is_argument(a),
    ensures
        local_command("cherry-pick "@ + a) == Some(LocalCommand::CherryPick(Some(a))),
{
    lemma_letters_commit();
    lemma_phrase("cherry-pick "@, a);
    lemma_no_slash("cherry-pick "@ + a);
    lemma_no_information("cherry-pick "@ + a);
    lemma_no_file("cherry-pick "@ + a);
    lemma_no_branch("cherry-pick "@ + a);
    lemma_no_worktree("cherry-pick "@ + a);
    lemma_differ("cherry-pick "@ + a);
}

proof fn lemma_cherry_pick_phrase(a: Seq<char>)
    requires
        is_argument(a),
    ensures
        local_command("cherry pick "@ + a) == Some(LocalCommand::CherryPick(Some(a))),
{
    lemma_letters_commit();
    lemma_phrase("cherry pick "@, a);
    lemma_no_slash("cherry pick "@ + a);
    lemma_no_information("cherry pick "@ + a);
    lemma_no_file("cherry pick "@ + a);
    lemma_no_branch("cherry pick "@ + a);
    lemma_no_worktree("cherry pick "@ + a);
    lemma_differ("cherry pick "@ + a);
}

/// Every way to pick a commit names the commit.
pub proof fn law_cherry_pick_phrases(a: Seq<char>)
    requires
        is_argument(a),
    ensures
        local_command("git cherry-pick "@ + a) == Some(LocalCommand::CherryPick(Some(a))),
        local_command("cherry-pick "@ + a) == Some(LocalCommand::CherryPick(Some(a))),
        local_command("cherry pick "@ + a) == Some(LocalCommand::CherryPick(Some(a))),
        local_command("/cherry_pick "@ + a) == Some(LocalCommand::CherryPick(Some(a))),
{
    lemma_git_cherry_dash_pick_phrase(a);
    lemma_cherry_dash_pick_phrase(a);
    lemma_cherry_pick_phrase(a);
    law_slash_commands_take_their_argument(a);
}

proof fn lemma_git_commit_a_m_phrase(a: Seq<char>)
    requires
        is_argument(a),
        unquoted(a).len() > 0,
    ensures
        local_command("git commit -a -m "@ + a) == Some(LocalCommand::Commit(Some(unquoted(a)))),
{
    lemma_letters_commit();
    lemma_phrase("git commit -a -m "@, a);
    lemma_no_slash("git commit -a -m "@ + a);
    lemma_no_information("git commit -a -m "@ + a);
    lemma_no_file("git commit -a -m "@ + a);
    lemma_no_branch("git commit -a -m "@ + a);
    lemma_no_worktree("git commit -a -m "@ + a);
    lemma_differ("git commit -a -m "@ + a);
}

proof fn lemma_git_commit_m_phrase(a: Seq<char>)
    requires
        is_argument(a),
        unquoted(a).len() > 0,
    ensures
        local_command("git commit -m "@ + a) == Some(LocalCommand::Commit(Some(unquoted(a)))),
{
    lemma_letters_commit();
    lemma_phrase("git commit -m "@, a);
    lemma_no_slash("git commit -m "@ + a);
    lemma_no_information("git commit -m "@ + a);
    lemma_no_file("git commit -m "@ + a);
    lemma_no_branch("git commit -m "@ + a);
    lemma_no_worktree("git commit -m "@ + a);
    lemma_differ("git commit -m "@ + a);
}

proof fn lemma_commit_phrase(a: Seq<char>)
    requires
        is_argument(a),
        unquoted(a).len() > 0,
    ensures
        local_command("commit "@ + a) == Some(LocalCommand::Commit(Some(unquoted(a)))),
{
    lemma_letters_commit();
    lemma_phrase("commit "@, a);
    lemma_no_slash("commit "@ + a);
    lemma_no_information("commit "@ + a);
    lemma_no_file("commit "@ + a);
    lemma_no_branch("commit "@ + a);
    lemma_no_worktree("commit "@ + a);
    lemma_differ("commit "@ + a);
}

/// Every way to commit gives the message, without quotes around it.
pub proof fn law_commit_phrases(a: Seq<char>)
    requires
        is_argument(a),
        unquoted(a).len() > 0,
    ensures
        local_command("git commit -a -m "@ + a) == Some(LocalCommand::Commit(Some(unquoted(a)))),
        local_command("git commit -m "@ + a) == Some(LocalCommand::Commit(Some(unquoted(a)))),
        local_command("commit "@ + a) == Some(LocalCommand::Commit(Some(unquoted(a)))),
        local_command("/commit "@ + a) == Some(LocalCommand::Commit(Some(unquoted(a)))),
{
    lemma_git_commit_a_m_phrase(a);
    lemma_git_commit_m_phrase(a);
    lemma_commit_phrase(a);
    law_slash_commands_take_their_argument(a);
}

proof fn lemma_git_branch_d_phrase(a: Seq<char>)
    requires
        is_argument(a),
    ensures
        local_command("git branch -D "@ + a) == Some(LocalCommand::DeleteBranch(Some(a))),
{
    lemma_letters_repository();
    lemma_phrase("git branch -D "@, a);
    lemma_no_slash("git branch -D "@ + a);
    lemma_no_information("git branch -D "@ + a);
    lemma_no_file("git branch -D "@ + a);
    lemma_no_branch("git branch -D "@ + a);
    lemma_no_worktree("git branch -D "@ + a);
    lemma_no_commit("git branch -D "@ + a);
    lemma_differ("git branch -D "@ + a);
}

proof fn lemma_delete_branch_phrase(a: Seq<char>)
    requires
        is_argument(a),
    ensures
        local_command("delete branch "@ + a) == Some(LocalCommand::DeleteBranch(Some(a))),
{
    lemma_letters_repository();
    lemma_phrase("delete branch "@, a);
    lemma_no_slash("delete branch "@ + a);
    lemma_no_information("delete branch "@ + a);
    lemma_no_file("delete branch "@ + a);
    lemma_no_branch("delete branch "@ + a);
    lemma_no_worktree("delete branch "@ + a);
    lemma_no_commit("delete branch "@ + a);
    lemma_differ("delete branch "@ + a);
}

proof fn lemma_delete_phrase(a: Seq<char>)
    requires
        is_argument(a),
        !begins_ci(a, "branch "@) && !same_ignoring_case(a, "branch"@),
    ensures
        local_command("delete "@ + a) == Some(LocalCommand::DeleteBranch(Some(a))),
{
    lemma_letters_repository();
    lemma_phrase("delete "@, a);
    reveal_strlit("branch ");
    assert("delete "@ + "branch "@ =~= "delete branch "@);
    lemma_longer_phrase("delete "@, "branch "@, a);
    reveal_strlit("branch");
    assert("delete "@ + "branch"@ =~= "delete branch"@);
    lemma_longer_phrase("delete "@, "branch"@, a);
    lemma_no_slash("delete "@ + a);
    lemma_no_information("delete "@ + a);
    lemma_no_file("delete "@ + a);
    lemma_no_branch("delete "@ + a);
    lemma_no_worktree("delete "@ + a);
    lemma_no_commit("delete "@ + a);
    lemma_differ("delete "@ + a);
}

/// Every way to delete a branch names the branch; of two phrases that fit, the
/// longer one counts, so that the word `branch` is no part of the name.
pub proof fn law_delete_phrases(a: Seq<char>)
    requires
        is_argument(a),
    ensures
        local_command("git branch -D "@ + a) == Some(LocalCommand::DeleteBranch(Some(a))),
        local_command("delete branch "@ + a) == Some(LocalCommand::DeleteBranch(Some(a))),
        !begins_ci(a, "branch "@)
            && !same_ignoring_case(a, "branch"@) ==> local_command("delete "@ + a) == Some(
                LocalCommand::DeleteBranch(Some(a)),
            ),
        local_command("/delete "@ + a) == Some(LocalCommand::DeleteBranch(Some(a))),
{
    lemma_git_branch_d_phrase(a);
    lemma_delete_branch_phrase(a);
    if !begins_ci(a, "branch "@) && !same_ignoring_case(a, "branch"@) {
        lemma_delete_phrase(a);
    }
    law_slash_commands_take_their_argument(a);
}

proof fn lemma_use_model_phrase(a: Seq<char>)
    requires
        is_argument(a),
    ensures
        local_command("use model "@ + a) == Some(LocalCommand::SetModel(a)),
{
    lemma_letters_slash();
    lemma_letters_file();
    lemma_phrase("use model "@, a);
    lemma_no_slash("use model "@ + a);
    lemma_no_information("use model "@ + a);
    lemma_differ("use model "@ + a);
}

proof fn lemma_switch_model_to_phrase(a: Seq<char>)
    requires
        is_argument(a),
    ensures
        local_command("switch model to "@ + a) == Some(LocalCommand::SetModel(a)),
{
    lemma_letters_slash();
    lemma_letters_file();
    lemma_phrase("switch model to "@, a);
    lemma_no_slash("switch model to "@ + a);
    lemma_no_information("switch model to "@ + a);
    lemma_differ("switch model to "@ + a);
}

proof fn lemma_set_model_to_phrase(a: Seq<char>)
    requires
        is_argument(a),
    ensures
        local_command("set model to "@ + a) == Some(LocalCommand::SetModel(a)),
{
    lemma_letters_slash();
    lemma_letters_file();
    lemma_phrase("set model to "@, a);
    lemma_no_slash("set model to "@ + a);
    lemma_no_information("set model to "@ + a);
    lemma_differ("set model to "@ + a);
}

proof fn lemma_select_model_phrase(a: Seq<char>)
    requires
        is_argument(a),
    ensures
        local_command("select model "@ + a) == Some(LocalCommand::SetModel(a)),
{
    lemma_letters_slash();
    lemma_letters_file();
    lemma_phrase("select model "@, a);
    lemma_no_slash("select model "@ + a);
    lemma_no_information("select model "@ + a);
    lemma_differ("select model "@ + a);
}

/// Every way to choose a model names the model.
pub proof fn law_model_phrases(a: Seq<char>)
    requires
        is_argument(a),
    ensures
        local_command("use model "@ + a) == Some(LocalCommand::SetModel(a)),
        local_command("switch model to "@ + a) == Some(LocalCommand::SetModel(a)),
        local_command("set model to "@ + a) == Some(LocalCommand::SetModel(a)),
        local_command("select model "@ + a) == Some(LocalCommand::SetModel(a)),
        local_command("/model "@ + a) == Some(LocalCommand::SetModel(a)),
{
    lemma_use_model_phrase(a);
    lemma_switch_model_to_phrase(a);
    lemma_set_model_to_phrase(a);
    lemma_select_model_phrase(a);
    law_slash_commands_take_their_argument(a);
}

proof fn lemma_open_file_phrase(a: Seq<char>)
    requires
        is_argument(a),
    ensures
        local_command("open file "@ + a) == Some(LocalCommand::OpenFile(unquoted(a))),
{
    lemma_letters_slash();
    lemma_letters_file();
    lemma_phrase("open file "@, a);
    lemma_no_slash("open file "@ + a);
    lemma_no_information("open file "@ + a);
    lemma_differ("open file "@ + a);
}

proof fn lemma_open_phrase(a: Seq<char>)
    requires
        is_argument(a),
        !begins_ci(a, "file "@),
    ensures
        local_command("open "@ + a) == Some(LocalCommand::OpenFile(unquoted(a))),
{
    lemma_letters_slash();
    lemma_letters_file();
    lemma_phrase("open "@, a);
    reveal_strlit("file ");
    assert("open "@ + "file "@ =~= "open file "@);
    lemma_longer_phrase("open "@, "file "@, a);
    lemma_no_slash("open "@ + a);
    lemma_no_information("open "@ + a);
    lemma_differ("open "@ + a);
}

proof fn lemma_edit_file_phrase(a: Seq<char>)
    requires
        is_argument(a),
    ensures
        local_command("edit file "@ + a) == Some(LocalCommand::OpenFile(unquoted(a))),
{
    lemma_letters_slash();
    lemma_letters_file();
    lemma_phrase("edit file "@, a);
    lemma_no_slash("edit file "@ + a);
    lemma_no_information("edit file "@ + a);
    lemma_differ("edit file "@ + a);
}

proof fn lemma_edit_phrase(a: Seq<char>)
    requires
        is_argument(a),
        !begins_ci(a, "file "@),
    ensures
        local_command("edit "@ + a) == Some(LocalCommand::OpenFile(unquoted(a))),
{
    lemma_letters_slash();
    lemma_letters_file();
    lemma_phrase("edit "@, a);
    reveal_strlit("file ");
    assert("edit "@ + "file "@ =~= "edit file "@);
    lemma_longer_phrase("edit "@, "file "@, a);
    lemma_no_slash("edit "@ + a);
    lemma_no_information("edit "@ + a);
    lemma_differ("edit "@ + a);
}

/// Every way to open a file names the file, without quotes around it; of two
/// phrases that fit, the longer one counts.
pub proof fn law_open_phrases(a: Seq<char>)
    requires
        is_argument(a),
    ensures
        local_command("open file "@ + a) == Some(LocalCommand::OpenFile(unquoted(a))),
        !begins_ci(a, "file "@) ==> local_command("open "@ + a) == Some(
            LocalCommand::OpenFile(unquoted(a)),
        ),
        local_command("edit file "@ + a) == Some(LocalCommand::OpenFile(unquoted(a))),
        !begins_ci(a, "file "@) ==> local_command("edit "@ + a) == Some(
            LocalCommand::OpenFile(unquoted(a)),
        ),
        local_command("/open_file "@ + a) == Some(LocalCommand::OpenFile(unquoted(a))),
{
    lemma_open_file_phrase(a);
    if !begins_ci(a, "file "@) {
        lemma_open_phrase(a);
    }
    lemma_edit_file_phrase(a);
    if !begins_ci(a, "file "@) {
        lemma_edit_phrase(a);
    }
    law_slash_commands_take_their_argument(a);
}

/// Connecting in plain words names the server.
pub proof fn law_connect_phrases(a: Seq<char>)
    requires
        is_argument(a),
    ensures
        local_command("connect to "@ + a) == Some(LocalCommand::ConnectTo(a)),
        local_command("/connect "@ + a) == Some(LocalCommand::ConnectTo(a)),
{
    lemma_letters_information();
    lemma_phrase("connect to "@, a);
    lemma_no_slash("connect to "@ + a);
    lemma_differ("connect to "@ + a);
    law_slash_commands_take_their_argument(a);
}

proof fn lemma_decimal_is_argument(n: u64)
    ensures
        is_argument(decimal(n as nat)),
        is_digit(decimal(n as nat)[0]),
        number_in(decimal(n as nat)) == Some(n),
{
    lemma_decimal_digits(n as nat);
    law_decimal_reads_back(n);
    let d = decimal(n as nat);
    assert(is_digit(d[0]) && is_digit(d[d.len() - 1]));
}

proof fn lemma_pull_pull_request(n: u64)
    ensures
        local_command("pull pull request "@ + decimal(n as nat)) == Some(
            LocalCommand::<Seq<char>>::Pull(Some(n)),
        ),
{
    lemma_letters_slash();
    lemma_letters_file();
    let a = decimal(n as nat);
    lemma_decimal_is_argument(n);
    lemma_phrase("pull pull request "@, a);
    assert("pull "@ =~= ("pull pull request "@ + a).subrange(0, 5));
    lemma_no_slash("pull pull request "@ + a);
    lemma_no_information("pull pull request "@ + a);
    lemma_differ("pull pull request "@ + a);
}

proof fn lemma_pull_request(n: u64)
    ensures
        local_command("pull request "@ + decimal(n as nat)) == Some(
            LocalCommand::<Seq<char>>::Pull(Some(n)),
        ),
{
    lemma_letters_slash();
    lemma_letters_file();
    let a = decimal(n as nat);
    lemma_decimal_is_argument(n);
    lemma_phrase("pull request "@, a);
    assert("pull "@ =~= ("pull request "@ + a).subrange(0, 5));
    lemma_no_slash("pull request "@ + a);
    lemma_no_information("pull request "@ + a);
    lemma_differ("pull request "@ + a);
}

proof fn lemma_pull_pr(n: u64)
    ensures
        local_command("pull pr "@ + decimal(n as nat)) == Some(
            LocalCommand::<Seq<char>>::Pull(Some(n)),
        ),
{
    lemma_letters_slash();
    lemma_letters_file();
    let a = decimal(n as nat);
    lemma_decimal_is_argument(n);
    lemma_phrase("pull pr "@, a);
    assert("pull "@ =~= ("pull pr "@ + a).subrange(0, 5));
    lemma_no_slash("pull pr "@ + a);
    lemma_no_information("pull pr "@ + a);
    lemma_differ("pull pr "@ + a);
}

proof fn lemma_pull_sharp(n: u64)
    ensures
        local_command("pull #"@ + decimal(n as nat)) == Some(
            LocalCommand::<Seq<char>>::Pull(Some(n)),
        ),
{
    lemma_letters_slash();
    lemma_letters_file();
    let a = decimal(n as nat);
    lemma_decimal_is_argument(n);
    lemma_phrase("pull #"@, a);
    assert("pull "@ =~= ("pull #"@ + a).subrange(0, 5));
    lemma_no_slash("pull #"@ + a);
    lemma_no_information("pull #"@ + a);
    lemma_differ("pull #"@ + a);
}

proof fn lemma_bare_pull(n: u64)
    ensures
        local_command("pull "@ + decimal(n as nat)) == Some(
            LocalCommand::<Seq<char>>::Pull(Some(n)),
        ),
{
    lemma_letters_slash();
    lemma_letters_file();
    let a = decimal(n as nat);
    lemma_decimal_is_argument(n);
    lemma_phrase("pull "@, a);
    assert("pull "@ =~= ("pull "@ + a).subrange(0, 5));
    lemma_no_slash("pull "@ + a);
    lemma_no_information("pull "@ + a);
    lemma_differ("pull "@ + a);
}

/// Every way to fetch a pull request gives its number.
pub proof fn law_pull_phrases(n: u64)
    ensures
        local_command("pull pull request "@ + decimal(n as nat)) == Some(
            LocalCommand::<Seq<char>>::Pull(Some(n)),
        ),
        local_command("pull request "@ + decimal(n as nat)) == Some(
            LocalCommand::<Seq<char>>::Pull(Some(n)),
        ),
        local_command("pull pr "@ + decimal(n as nat)) == Some(
            LocalCommand::<Seq<char>>::Pull(Some(n)),
        ),
        local_command("pull #"@ + decimal(n as nat)) == Some(
            LocalCommand::<Seq<char>>::Pull(Some(n)),
        ),
        local_command("pull "@ + decimal(n as nat)) == Some(
            LocalCommand::<Seq<char>>::Pull(Some(n)),
        ),
        local_command("/pull "@ + decimal(n as nat)) == Some(
            LocalCommand::<Seq<char>>::Pull(Some(n)),
        ),
{
    lemma_decimal_is_argument(n);
    lemma_pull_pull_request(n);
    lemma_pull_request(n);
    lemma_pull_pr(n);
    lemma_pull_sharp(n);
    lemma_bare_pull(n);
    law_slash_commands_take_their_argument(decimal(n as nat));
}

/// Switching to a branch in plain words may say that it is a branch.
pub proof fn law_switch_to_a_branch(a: Seq<char>)
    requires
        is_argument(a),
    ensures
        local_command("switch to "@ + (a + " branch"@)) == Some(LocalCommand::Checkout(Some(a))),
{
    lemma_letters_branch();
    let b = a + " branch"@;
    assert(is_argument(b));
    assert(b.skip(b.len() - 7) =~= " branch"@);
    assert(b.take(b.len() - 7) =~= a);
    lemma_trimmed_is(a);
    lemma_phrase("switch to "@, b);
    lemma_no_slash("switch to "@ + b);
    lemma_no_information("switch to "@ + b);
    lemma_no_file("switch to "@ + b);
    lemma_differ("switch to "@ + b);
}

proof fn lemma_git_mv_phrase(a: Seq<char>, words: Seq<Seq<char>>)
    requires
        is_argument(a),
        words_of(a) == Ok::<Seq<Seq<char>>, ShellWordsError>(words),
        words.len() >= 2,
    ensures
        local_command("git mv "@ + a) == Some(LocalCommand::MoveFile(Some((words[0], words[1])))),
{
    lemma_letters_worktree();
    lemma_phrase("git mv "@, a);
    lemma_no_slash("git mv "@ + a);
    lemma_no_information("git mv "@ + a);
    lemma_no_file("git mv "@ + a);
    lemma_no_branch("git mv "@ + a);
    lemma_differ("git mv "@ + a);
}

proof fn lemma_move_file_phrase(a: Seq<char>, words: Seq<Seq<char>>)
    requires
        is_argument(a),
        words_of(a) == Ok::<Seq<Seq<char>>, ShellWordsError>(words),
        words.len() >= 2,
    ensures
        local_command("move file "@ + a) == Some(
            LocalCommand::MoveFile(Some((words[0], words[1]))),
        ),
{
    lemma_letters_worktree();
    lemma_phrase("move file "@, a);
    lemma_no_slash("move file "@ + a);
    lemma_no_information("move file "@ + a);
    lemma_no_file("move file "@ + a);
    lemma_no_branch("move file "@ + a);
    lemma_differ("move file "@ + a);
}

proof fn lemma_move_phrase(a: Seq<char>, words: Seq<Seq<char>>)
    requires
        is_argument(a),
        words_of(a) == Ok::<Seq<Seq<char>>, ShellWordsError>(words),
        words.len() >= 2,
        !begins_ci(a, "file "@),
    ensures
        local_command("move "@ + a) == Some(LocalCommand::MoveFile(Some((words[0], words[1])))),
{
    lemma_letters_worktree();
    lemma_phrase("move "@, a);
    reveal_strlit("file ");
    assert("move "@ + "file "@ =~= "move file "@);
    lemma_longer_phrase("move "@, "file "@, a);
    lemma_no_slash("move "@ + a);
    lemma_no_information("move "@ + a);
    lemma_no_file("move "@ + a);
    lemma_no_branch("move "@ + a);
    lemma_differ("move "@ + a);
}

/// Every way to move a file names the file and then its new place.
pub proof fn law_move_phrases(a: Seq<char>, words: Seq<Seq<char>>)
    requires
        is_argument(a),
        words_of(a) == Ok::<Seq<Seq<char>>, ShellWordsError>(words),
        words.len() >= 2,
    ensures
        local_command("git mv "@ + a) == Some(LocalCommand::MoveFile(Some((words[0], words[1])))),
        local_command("move file "@ + a) == Some(
            LocalCommand::MoveFile(Some((words[0], words[1]))),
        ),
        !begins_ci(a, "file "@) ==> local_command("move "@ + a) == Some(
            LocalCommand::MoveFile(Some((words[0], words[1]))),
        ),
        local_command("/move_file "@ + a) == Some(
            LocalCommand::MoveFile(Some((words[0], words[1]))),
        ),
{
    lemma_git_mv_phrase(a, words);
    lemma_move_file_phrase(a, words);
    if !begins_ci(a, "file "@) {
        lemma_move_phrase(a, words);
    }
    law_slash_commands_take_their_argument(a);
}

proof fn lemma_later_words_information(s: Seq<char>)
    ensures
        same_ignoring_case(s, "rebase"@) ==> information_phrase(s) is None,
        same_ignoring_case(s, "git rebase"@) ==> information_phrase(s) is None,
        same_ignoring_case(s, "merge"@) ==> information_phrase(s) is None,
        same_ignoring_case(s, "checkout"@) ==> information_phrase(s) is None,
        same_ignoring_case(s, "switch to"@) ==> information_phrase(s) is None,
        same_ignoring_case(s, "add"@) ==> information_phrase(s) is None,
        same_ignoring_case(s, "remove"@) ==> information_phrase(s) is None,
        same_ignoring_case(s, "move"@) ==> information_phrase(s) is None,
        same_ignoring_case(s, "cherry pick"@) ==> information_phrase(s) is None,
        same_ignoring_case(s, "cherry-pick"@) ==> information_phrase(s) is None,
        same_ignoring_case(s, "commit"@) ==> information_phrase(s) is None,
        same_ignoring_case(s, "force push"@) ==> information_phrase(s) is None,
        same_ignoring_case(s, "push force"@) ==> information_phrase(s) is None,
        same_ignoring_case(s, "push --force"@) ==> information_phrase(s) is None,
        same_ignoring_case(s, "push -f"@) ==> information_phrase(s) is None,
        same_ignoring_case(s, "git push --force"@) ==> information_phrase(s) is None,
        same_ignoring_case(s, "git push -f"@) ==> information_phrase(s) is None,
        same_ignoring_case(s, "git push origin --force"@) ==> information_phrase(s) is None,
        same_ignoring_case(s, "git push origin -f"@) ==> information_phrase(s) is None,
        same_ignoring_case(s, "push"@) ==> information_phrase(s) is None,
        same_ignoring_case(s, "git push"@) ==> information_phrase(s) is None,
        same_ignoring_case(s, "git push origin"@) ==> information_phrase(s) is None,
        same_ignoring_case(s, "init"@) ==> information_phrase(s) is None,
        same_ignoring_case(s, "init repo"@) ==> information_phrase(s) is None,
        same_ignoring_case(s, "git init"@) ==> information_phrase(s) is None,
        same_ignoring_case(s, "delete"@) ==> information_phrase(s) is None,
        same_ignoring_case(s, "delete branch"@) ==> information_phrase(s) is None,
        same_ignoring_case(s, "clear"@) ==> information_phrase(s) is None,
        same_ignoring_case(s, "clear conversation"@) ==> information_phrase(s) is None,
        same_ignoring_case(s, "reset conversation"@) ==> information_phrase(s) is None,
        same_ignoring_case(s, "quit"@) ==> information_phrase(s) is None,
        same_ignoring_case(s, "exit"@) ==> information_phrase(s) is None,
{
    lemma_letters_worktree();
    lemma_letters_branch();
    lemma_letters_commit();
    lemma_letters_closing();
    lemma_letters_information();
    lemma_letters_repository();
    lemma_differ(s);
}

proof fn lemma_words_information(s: Seq<char>)
    ensures
        same_ignoring_case(s, "help"@) ==> information_phrase(s) == Some(
            LocalCommand::<Seq<char>>::Help,
        ),
        same_ignoring_case(s, "show help"@) ==> information_phrase(s) == Some(
            LocalCommand::<Seq<char>>::Help,
        ),
        same_ignoring_case(s, "show commands"@) ==> information_phrase(s) == Some(
            LocalCommand::<Seq<char>>::Help,
        ),
        same_ignoring_case(s, "show available commands"@) ==> information_phrase(s) == Some(
            LocalCommand::<Seq<char>>::Help,
        ),
        same_ignoring_case(s, "connect"@) ==> information_phrase(s) == Some(
            LocalCommand::<Seq<char>>::ConnectDefault,
        ),
        same_ignoring_case(s, "reconnect"@) ==> information_phrase(s) == Some(
            LocalCommand::<Seq<char>>::ConnectDefault,
        ),
        same_ignoring_case(s, "disconnect"@) ==> information_phrase(s) == Some(
            LocalCommand::<Seq<char>>::Disconnect,
        ),
        same_ignoring_case(s, "reload"@) ==> information_phrase(s) == Some(
            LocalCommand::<Seq<char>>::Reload,
        ),
        same_ignoring_case(s, "reload configuration"@) ==> information_phrase(s) == Some(
            LocalCommand::<Seq<char>>::Reload,
        ),
        same_ignoring_case(s, "reset session"@) ==> information_phrase(s) == Some(
            LocalCommand::<Seq<char>>::Reload,
        ),
        same_ignoring_case(s, "list models"@) ==> information_phrase(s) == Some(
            LocalCommand::<Seq<char>>::ListModels,
        ),
        same_ignoring_case(s, "show models"@) ==> information_phrase(s) == Some(
            LocalCommand::<Seq<char>>::ListModels,
        ),
        same_ignoring_case(s, "show available models"@) ==> information_phrase(s) == Some(
            LocalCommand::<Seq<char>>::ListModels,
        ),
        same_ignoring_case(s, "models"@) ==> information_phrase(s) == Some(
            LocalCommand::<Seq<char>>::ListModels,
        ),
        same_ignoring_case(s, "list files"@) ==> information_phrase(s) == Some(
            LocalCommand::<Seq<char>>::ListFiles,
        ),
        same_ignoring_case(s, "show files"@) ==> information_phrase(s) == Some(
            LocalCommand::<Seq<char>>::ListFiles,
        ),
        same_ignoring_case(s, "show workspace files"@) ==> information_phrase(s) == Some(
            LocalCommand::<Seq<char>>::ListFiles,
        ),
        same_ignoring_case(s, "list workspace files"@) ==> information_phrase(s) == Some(
            LocalCommand::<Seq<char>>::ListFiles,
        ),
        same_ignoring_case(s, "show tools"@) ==> information_phrase(s) == Some(
            LocalCommand::<Seq<char>>::Tools,
        ),
        same_ignoring_case(s, "list tools"@) ==> information_phrase(s) == Some(
            LocalCommand::<Seq<char>>::Tools,
        ),
        same_ignoring_case(s, "show local tools"@) ==> information_phrase(s) == Some(
            LocalCommand::<Seq<char>>::Tools,
        ),
        same_ignoring_case(s, "tools"@) ==> information_phrase(s) == Some(
            LocalCommand::<Seq<char>>::Tools,
        ),
        same_ignoring_case(s, "show model"@) ==> information_phrase(s) == Some(
            LocalCommand::<Seq<char>>::ModelInfo,
        ),
        same_ignoring_case(s, "current model"@) ==> information_phrase(s) == Some(
            LocalCommand::<Seq<char>>::ModelInfo,
        ),
        same_ignoring_case(s, "what model am i using"@) ==> information_phrase(s) == Some(
            LocalCommand::<Seq<char>>::ModelInfo,
        ),
        same_ignoring_case(s, "model"@) ==> information_phrase(s) == Some(
            LocalCommand::<Seq<char>>::ModelInfo,
        ),
        same_ignoring_case(s, "diff"@) ==> information_phrase(s) == Some(
            LocalCommand::<Seq<char>>::Diff,
        ),
        same_ignoring_case(s, "show diff"@) ==> information_phrase(s) == Some(
            LocalCommand::<Seq<char>>::Diff,
        ),
        same_ignoring_case(s, "git diff"@) ==> information_phrase(s) == Some(
            LocalCommand::<Seq<char>>::Diff,
        ),
        same_ignoring_case(s, "status"@) ==> information_phrase(s) == Some(
            LocalCommand::<Seq<char>>::Status,
        ),
        same_ignoring_case(s, "show status"@) ==> information_phrase(s) == Some(
            LocalCommand::<Seq<char>>::Status,
        ),
        same_ignoring_case(s, "git status"@) ==> information_phrase(s) == Some(
            LocalCommand::<Seq<char>>::Status,
        ),
        same_ignoring_case(s, "log"@) ==> information_phrase(s) == Some(
            LocalCommand::<Seq<char>>::Log,
        ),
        same_ignoring_case(s, "show log"@) ==> information_phrase(s) == Some(
            LocalCommand::<Seq<char>>::Log,
        ),
        same_ignoring_case(s, "git log"@) ==> information_phrase(s) == Some(
            LocalCommand::<Seq<char>>::Log,
        ),
        same_ignoring_case(s, "git lg"@) ==> information_phrase(s) == Some(
            LocalCommand::<Seq<char>>::Log,
        ),
        same_ignoring_case(s, "usage"@) ==> information_phrase(s) == Some(
            LocalCommand::<Seq<char>>::Usage,
        ),
        same_ignoring_case(s, "show usage"@) ==> information_phrase(s) == Some(
            LocalCommand::<Seq<char>>::Usage,
        ),
{
    lemma_letters_information();
    lemma_differ(s);
}

proof fn lemma_later_words_file(s: Seq<char>)
    ensures
        same_ignoring_case(s, "rebase"@) ==> file_phrase(s) is None,
        same_ignoring_case(s, "git rebase"@) ==> file_phrase(s) is None,
        same_ignoring_case(s, "merge"@) ==> file_phrase(s) is None,
        same_ignoring_case(s, "checkout"@) ==> file_phrase(s) is None,
        same_ignoring_case(s, "switch to"@) ==> file_phrase(s) is None,
        same_ignoring_case(s, "add"@) ==> file_phrase(s) is None,
        same_ignoring_case(s, "remove"@) ==> file_phrase(s) is None,
        same_ignoring_case(s, "move"@) ==> file_phrase(s) is None,
        same_ignoring_case(s, "cherry pick"@) ==> file_phrase(s) is None,
        same_ignoring_case(s, "cherry-pick"@) ==> file_phrase(s) is None,
        same_ignoring_case(s, "commit"@) ==> file_phrase(s) is None,
        same_ignoring_case(s, "force push"@) ==> file_phrase(s) is None,
        same_ignoring_case(s, "push force"@) ==> file_phrase(s) is None,
        same_ignoring_case(s, "push --force"@) ==> file_phrase(s) is None,
        same_ignoring_case(s, "push -f"@) ==> file_phrase(s) is None,
        same_ignoring_case(s, "git push --force"@) ==> file_phrase(s) is None,
        same_ignoring_case(s, "git push -f"@) ==> file_phrase(s) is None,
        same_ignoring_case(s, "git push origin --force"@) ==> file_phrase(s) is None,
        same_ignoring_case(s, "git push origin -f"@) ==> file_phrase(s) is None,
        same_ignoring_case(s, "push"@) ==> file_phrase(s) is None,
        same_ignoring_case(s, "git push"@) ==> file_phrase(s) is None,
        same_ignoring_case(s, "git push origin"@) ==> file_phrase(s) is None,
        same_ignoring_case(s, "init"@) ==> file_phrase(s) is None,
        same_ignoring_case(s, "init repo"@) ==> file_phrase(s) is None,
        same_ignoring_case(s, "git init"@) ==> file_phrase(s) is None,
        same_ignoring_case(s, "delete"@) ==> file_phrase(s) is None,
        same_ignoring_case(s, "delete branch"@) ==> file_phrase(s) is None,
        same_ignoring_case(s, "clear"@) ==> file_phrase(s) is None,
        same_ignoring_case(s, "clear conversation"@) ==> file_phrase(s) is None,
        same_ignoring_case(s, "reset conversation"@) ==> file_phrase(s) is None,
        same_ignoring_case(s, "quit"@) ==> file_phrase(s) is None,
        same_ignoring_case(s, "exit"@) ==> file_phrase(s) is None,
{
    lemma_letters_slash();
    lemma_letters_worktree();
    lemma_letters_branch();
    lemma_letters_commit();
    lemma_letters_closing();
    lemma_letters_repository();
    lemma_letters_file();
    lemma_differ(s);
}

proof fn lemma_later_words_branch(s: Seq<char>)
    ensures
        same_ignoring_case(s, "add"@) ==> branch_phrase(s) is None,
        same_ignoring_case(s, "remove"@) ==> branch_phrase(s) is None,
        same_ignoring_case(s, "move"@) ==> branch_phrase(s) is None,
        same_ignoring_case(s, "cherry pick"@) ==> branch_phrase(s) is None,
        same_ignoring_case(s, "cherry-pick"@) ==> branch_phrase(s) is None,
        same_ignoring_case(s, "commit"@) ==> branch_phrase(s) is None,
        same_ignoring_case(s, "force push"@) ==> branch_phrase(s) is None,
        same_ignoring_case(s, "push force"@) ==> branch_phrase(s) is None,
        same_ignoring_case(s, "push --force"@) ==> branch_phrase(s) is None,
        same_ignoring_case(s, "push -f"@) ==> branch_phrase(s) is None,
        same_ignoring_case(s, "git push --force"@) ==> branch_phrase(s) is None,
        same_ignoring_case(s, "git push -f"@) ==> branch_phrase(s) is None,
        same_ignoring_case(s, "git push origin --force"@) ==> branch_phrase(s) is None,
        same_ignoring_case(s, "git push origin -f"@) ==> branch_phrase(s) is None,
        same_ignoring_case(s, "push"@) ==> branch_phrase(s) is None,
        same_ignoring_case(s, "git push"@) ==> branch_phrase(s) is None,
        same_ignoring_case(s, "git push origin"@) ==> branch_phrase(s) is None,
        same_ignoring_case(s, "init"@) ==> branch_phrase(s) is None,
        same_ignoring_case(s, "init repo"@) ==> branch_phrase(s) is None,
        same_ignoring_case(s, "git init"@) ==> branch_phrase(s) is None,
        same_ignoring_case(s, "delete"@) ==> branch_phrase(s) is None,
        same_ignoring_case(s, "delete branch"@) ==> branch_phrase(s) is None,
        same_ignoring_case(s, "clear"@) ==> branch_phrase(s) is None,
        same_ignoring_case(s, "clear conversation"@) ==> branch_phrase(s) is None,
        same_ignoring_case(s, "reset conversation"@) ==> branch_phrase(s) is None,
        same_ignoring_case(s, "quit"@) ==> branch_phrase(s) is None,
        same_ignoring_case(s, "exit"@) ==> branch_phrase(s) is None,
{
    lemma_letters_branch();
    lemma_letters_worktree();
    lemma_letters_commit();
    lemma_letters_closing();
    lemma_letters_repository();
    lemma_differ(s);
}

proof fn lemma_words_branch(s: Seq<char>)
    ensures
        same_ignoring_case(s, "rebase"@) ==> branch_phrase(s) == Some(
            LocalCommand::<Seq<char>>::Rebase,
        ),
        same_ignoring_case(s, "git rebase"@) ==> branch_phrase(s) == Some(
            LocalCommand::<Seq<char>>::Rebase,
        ),
        same_ignoring_case(s, "merge"@) ==> branch_phrase(s) == Some(
            LocalCommand::<Seq<char>>::Merge(None),
        ),
        same_ignoring_case(s, "checkout"@) ==> branch_phrase(s) == Some(
            LocalCommand::<Seq<char>>::Checkout(None),
        ),
        same_ignoring_case(s, "switch to"@) ==> branch_phrase(s) == Some(
            LocalCommand::<Seq<char>>::Checkout(None),
        ),
{
    lemma_letters_branch();
    lemma_differ(s);
}

proof fn lemma_later_words_worktree(s: Seq<char>)
    ensures
        same_ignoring_case(s, "cherry pick"@) ==> worktree_phrase(s) is None,
        same_ignoring_case(s, "cherry-pick"@) ==> worktree_phrase(s) is None,
        same_ignoring_case(s, "commit"@) ==> worktree_phrase(s) is None,
        same_ignoring_case(s, "force push"@) ==> worktree_phrase(s) is None,
        same_ignoring_case(s, "push force"@) ==> worktree_phrase(s) is None,
        same_ignoring_case(s, "push --force"@) ==> worktree_phrase(s) is None,
        same_ignoring_case(s, "push -f"@) ==> worktree_phrase(s) is None,
        same_ignoring_case(s, "git push --force"@) ==> worktree_phrase(s) is None,
        same_ignoring_case(s, "git push -f"@) ==> worktree_phrase(s) is None,
        same_ignoring_case(s, "git push origin --force"@) ==> worktree_phrase(s) is None,
        same_ignoring_case(s, "git push origin -f"@) ==> worktree_phrase(s) is None,
        same_ignoring_case(s, "push"@) ==> worktree_phrase(s) is None,
        same_ignoring_case(s, "git push"@) ==> worktree_phrase(s) is None,
        same_ignoring_case(s, "git push origin"@) ==> worktree_phrase(s) is None,
        same_ignoring_case(s, "init"@) ==> worktree_phrase(s) is None,
        same_ignoring_case(s, "init repo"@) ==> worktree_phrase(s) is None,
        same_ignoring_case(s, "git init"@) ==> worktree_phrase(s) is None,
        same_ignoring_case(s, "delete"@) ==> worktree_phrase(s) is None,
        same_ignoring_case(s, "delete branch"@) ==> worktree_phrase(s) is None,
        same_ignoring_case(s, "clear"@) ==> worktree_phrase(s) is None,
        same_ignoring_case(s, "clear conversation"@) ==> worktree_phrase(s) is None,
        same_ignoring_case(s, "reset conversation"@) ==> worktree_phrase(s) is None,
        same_ignoring_case(s, "quit"@) ==> worktree_phrase(s) is None,
        same_ignoring_case(s, "exit"@) ==> worktree_phrase(s) is None,
{
    lemma_letters_worktree();
    lemma_letters_commit();
    lemma_letters_closing();
    lemma_letters_repository();
    lemma_differ(s);
}

proof fn lemma_words_worktree(s: Seq<char>)
    ensures
        same_ignoring_case(s, "add"@) ==> worktree_phrase(s) == Some(
            LocalCommand::<Seq<char>>::AddFile(None),
        ),
        same_ignoring_case(s, "remove"@) ==> worktree_phrase(s) == Some(
            LocalCommand::<Seq<char>>::RemoveFile(None),
        ),
        same_ignoring_case(s, "move"@) ==> worktree_phrase(s) == Some(
            LocalCommand::<Seq<char>>::MoveFile(None),
        ),
{
    lemma_letters_worktree();
    lemma_differ(s);
}

proof fn lemma_later_words_commit(s: Seq<char>)
    ensures
        same_ignoring_case(s, "force push"@) ==> commit_phrase(s) is None,
        same_ignoring_case(s, "push force"@) ==> commit_phrase(s) is None,
        same_ignoring_case(s, "push --force"@) ==> commit_phrase(s) is None,
        same_ignoring_case(s, "push -f"@) ==> commit_phrase(s) is None,
        same_ignoring_case(s, "git push --force"@) ==> commit_phrase(s) is None,
        same_ignoring_case(s, "git push -f"@) ==> commit_phrase(s) is None,
        same_ignoring_case(s, "git push origin --force"@) ==> commit_phrase(s) is None,
        same_ignoring_case(s, "git push origin -f"@) ==> commit_phrase(s) is None,
        same_ignoring_case(s, "push"@) ==> commit_phrase(s) is None,
        same_ignoring_case(s, "git push"@) ==> commit_phrase(s) is None,
        same_ignoring_case(s, "git push origin"@) ==> commit_phrase(s) is None,
        same_ignoring_case(s, "init"@) ==> commit_phrase(s) is None,
        same_ignoring_case(s, "init repo"@) ==> commit_phrase(s) is None,
        same_ignoring_case(s, "git init"@) ==> commit_phrase(s) is None,
        same_ignoring_case(s, "delete"@) ==> commit_phrase(s) is None,
        same_ignoring_case(s, "delete branch"@) ==> commit_phrase(s) is None,
        same_ignoring_case(s, "clear"@) ==> commit_phrase(s) is None,
        same_ignoring_case(s, "clear conversation"@) ==> commit_phrase(s) is None,
        same_ignoring_case(s, "reset conversation"@) ==> commit_phrase(s) is None,
        same_ignoring_case(s, "quit"@) ==> commit_phrase(s) is None,
        same_ignoring_case(s, "exit"@) ==> commit_phrase(s) is None,
{
    lemma_letters_commit();
    lemma_letters_closing();
    lemma_letters_repository();
    lemma_differ(s);
}

proof fn lemma_words_commit(s: Seq<char>)
    ensures
        same_ignoring_case(s, "cherry pick"@) ==> commit_phrase(s) == Some(
            LocalCommand::<Seq<char>>::CherryPick(None),
        ),
        same_ignoring_case(s, "cherry-pick"@) ==> commit_phrase(s) == Some(
            LocalCommand::<Seq<char>>::CherryPick(None),
        ),
        same_ignoring_case(s, "commit"@) ==> commit_phrase(s) == Some(
            LocalCommand::<Seq<char>>::Commit(None),
        ),
{
    lemma_letters_commit();
    lemma_differ(s);
}

proof fn lemma_later_words_repository(s: Seq<char>)
    ensures
        same_ignoring_case(s, "clear"@) ==> repository_phrase(s) is None,
        same_ignoring_case(s, "clear conversation"@) ==> repository_phrase(s) is None,
        same_ignoring_case(s, "reset conversation"@) ==> repository_phrase(s) is None,
        same_ignoring_case(s, "quit"@) ==> repository_phrase(s) is None,
        same_ignoring_case(s, "exit"@) ==> repository_phrase(s) is None,
{
    lemma_letters_closing();
    lemma_letters_repository();
    lemma_differ(s);
}

proof fn lemma_words_repository(s: Seq<char>)
    ensures
        same_ignoring_case(s, "force push"@) ==> repository_phrase(s) == Some(
            LocalCommand::<Seq<char>>::Push(true),
        ),
        same_ignoring_case(s, "push force"@) ==> repository_phrase(s) == Some(
            LocalCommand::<Seq<char>>::Push(true),
        ),
        same_ignoring_case(s, "push --force"@) ==> repository_phrase(s) == Some(
            LocalCommand::<Seq<char>>::Push(true),
        ),
        same_ignoring_case(s, "push -f"@) ==> repository_phrase(s) == Some(
            LocalCommand::<Seq<char>>::Push(true),
        ),
        same_ignoring_case(s, "git push --force"@) ==> repository_phrase(s) == Some(
            LocalCommand::<Seq<char>>::Push(true),
        ),
        same_ignoring_case(s, "git push -f"@) ==> repository_phrase(s) == Some(
            LocalCommand::<Seq<char>>::Push(true),
        ),
        same_ignoring_case(s, "git push origin --force"@) ==> repository_phrase(s) == Some(
            LocalCommand::<Seq<char>>::Push(true),
        ),
        same_ignoring_case(s, "git push origin -f"@) ==> repository_phrase(s) == Some(
            LocalCommand::<Seq<char>>::Push(true),
        ),
        same_ignoring_case(s, "push"@) ==> repository_phrase(s) == Some(
            LocalCommand::<Seq<char>>::Push(false),
        ),
        same_ignoring_case(s, "git push"@) ==> repository_phrase(s) == Some(
            LocalCommand::<Seq<char>>::Push(false),
        ),
        same_ignoring_case(s, "git push origin"@) ==> repository_phrase(s) == Some(
            LocalCommand::<Seq<char>>::Push(false),
        ),
        same_ignoring_case(s, "init"@) ==> repository_phrase(s) == Some(
            LocalCommand::<Seq<char>>::InitRepo,
        ),
        same_ignoring_case(s, "init repo"@) ==> repository_phrase(s) == Some(
            LocalCommand::<Seq<char>>::InitRepo,
        ),
        same_ignoring_case(s, "git init"@) ==> repository_phrase(s) == Some(
            LocalCommand::<Seq<char>>::InitRepo,
        ),
        same_ignoring_case(s, "delete"@) ==> repository_phrase(s) == Some(
            LocalCommand::<Seq<char>>::DeleteBranch(None),
        ),
        same_ignoring_case(s, "delete branch"@) ==> repository_phrase(s) == Some(
            LocalCommand::<Seq<char>>::DeleteBranch(None),
        ),
{
    lemma_letters_repository();
    lemma_differ(s);
}

proof fn lemma_words_closing(s: Seq<char>)
    ensures
        same_ignoring_case(s, "clear"@) ==> closing_phrase(s) == Some(
            LocalCommand::<Seq<char>>::Clear,
        ),
        same_ignoring_case(s, "clear conversation"@) ==> closing_phrase(s) == Some(
            LocalCommand::<Seq<char>>::Clear,
        ),
        same_ignoring_case(s, "reset conversation"@) ==> closing_phrase(s) == Some(
            LocalCommand::<Seq<char>>::Clear,
        ),
        same_ignoring_case(s, "quit"@) ==> closing_phrase(s) == Some(
            LocalCommand::<Seq<char>>::Quit,
        ),
        same_ignoring_case(s, "exit"@) ==> closing_phrase(s) == Some(
            LocalCommand::<Seq<char>>::Quit,
        ),
{
    lemma_letters_closing();
    lemma_differ(s);
}

proof fn lemma_word_is_plain(s: Seq<char>)
    ensures
        same_ignoring_case(s, "help"@) ==> s.len() > 0 && s[0] != '/',
        same_ignoring_case(s, "show help"@) ==> s.len() > 0 && s[0] != '/',
        same_ignoring_case(s, "show commands"@) ==> s.len() > 0 && s[0] != '/',
        same_ignoring_case(s, "show available commands"@) ==> s.len() > 0 && s[0] != '/',
        same_ignoring_case(s, "connect"@) ==> s.len() > 0 && s[0] != '/',
        same_ignoring_case(s, "reconnect"@) ==> s.len() > 0 && s[0] != '/',
        same_ignoring_case(s, "disconnect"@) ==> s.len() > 0 && s[0] != '/',
        same_ignoring_case(s, "reload"@) ==> s.len() > 0 && s[0] != '/',
        same_ignoring_case(s, "reload configuration"@) ==> s.len() > 0 && s[0] != '/',
        same_ignoring_case(s, "reset session"@) ==> s.len() > 0 && s[0] != '/',
        same_ignoring_case(s, "list models"@) ==> s.len() > 0 && s[0] != '/',
        same_ignoring_case(s, "show models"@) ==> s.len() > 0 && s[0] != '/',
        same_ignoring_case(s, "show available models"@) ==> s.len() > 0 && s[0] != '/',
        same_ignoring_case(s, "models"@) ==> s.len() > 0 && s[0] != '/',
        same_ignoring_case(s, "list files"@) ==> s.len() > 0 && s[0] != '/',
        same_ignoring_case(s, "show files"@) ==> s.len() > 0 && s[0] != '/',
        same_ignoring_case(s, "show workspace files"@) ==> s.len() > 0 && s[0] != '/',
        same_ignoring_case(s, "list workspace files"@) ==> s.len() > 0 && s[0] != '/',
        same_ignoring_case(s, "show tools"@) ==> s.len() > 0 && s[0] != '/',
        same_ignoring_case(s, "list tools"@) ==> s.len() > 0 && s[0] != '/',
        same_ignoring_case(s, "show local tools"@) ==> s.len() > 0 && s[0] != '/',
        same_ignoring_case(s, "tools"@) ==> s.len() > 0 && s[0] != '/',
        same_ignoring_case(s, "show model"@) ==> s.len() > 0 && s[0] != '/',
        same_ignoring_case(s, "current model"@) ==> s.len() > 0 && s[0] != '/',
        same_ignoring_case(s, "what model am i using"@) ==> s.len() > 0 && s[0] != '/',
        same_ignoring_case(s, "model"@) ==> s.len() > 0 && s[0] != '/',
        same_ignoring_case(s, "diff"@) ==> s.len() > 0 && s[0] != '/',
        same_ignoring_case(s, "show diff"@) ==> s.len() > 0 && s[0] != '/',
        same_ignoring_case(s, "git diff"@) ==> s.len() > 0 && s[0] != '/',
        same_ignoring_case(s, "status"@) ==> s.len() > 0 && s[0] != '/',
        same_ignoring_case(s, "show status"@) ==> s.len() > 0 && s[0] != '/',
        same_ignoring_case(s, "git status"@) ==> s.len() > 0 && s[0] != '/',
        same_ignoring_case(s, "log"@) ==> s.len() > 0 && s[0] != '/',
        same_ignoring_case(s, "show log"@) ==> s.len() > 0 && s[0] != '/',
        same_ignoring_case(s, "git log"@) ==> s.len() > 0 && s[0] != '/',
        same_ignoring_case(s, "git lg"@) ==> s.len() > 0 && s[0] != '/',
        same_ignoring_case(s, "usage"@) ==> s.len() > 0 && s[0] != '/',
        same_ignoring_case(s, "show usage"@) ==> s.len() > 0 && s[0] != '/',
        same_ignoring_case(s, "rebase"@) ==> s.len() > 0 && s[0] != '/',
        same_ignoring_case(s, "git rebase"@) ==> s.len() > 0 && s[0] != '/',
        same_ignoring_case(s, "merge"@) ==> s.len() > 0 && s[0] != '/',
        same_ignoring_case(s, "checkout"@) ==> s.len() > 0 && s[0] != '/',
        same_ignoring_case(s, "switch to"@) ==> s.len() > 0 && s[0] != '/',
        same_ignoring_case(s, "add"@) ==> s.len() > 0 && s[0] != '/',
        same_ignoring_case(s, "remove"@) ==> s.len() > 0 && s[0] != '/',
        same_ignoring_case(s, "move"@) ==> s.len() > 0 && s[0] != '/',
        same_ignoring_case(s, "cherry pick"@) ==> s.len() > 0 && s[0] != '/',
        same_ignoring_case(s, "cherry-pick"@) ==> s.len() > 0 && s[0] != '/',
        same_ignoring_case(s, "commit"@) ==> s.len() > 0 && s[0] != '/',
        same_ignoring_case(s, "force push"@) ==> s.len() > 0 && s[0] != '/',
        same_ignoring_case(s, "push force"@) ==> s.len() > 0 && s[0] != '/',
        same_ignoring_case(s, "push --force"@) ==> s.len() > 0 && s[0] != '/',
        same_ignoring_case(s, "push -f"@) ==> s.len() > 0 && s[0] != '/',
        same_ignoring_case(s, "git push --force"@) ==> s.len() > 0 && s[0] != '/',
        same_ignoring_case(s, "git push -f"@) ==> s.len() > 0 && s[0] != '/',
        same_ignoring_case(s, "git push origin --force"@) ==> s.len() > 0 && s[0] != '/',
        same_ignoring_case(s, "git push origin -f"@) ==> s.len() > 0 && s[0] != '/',
        same_ignoring_case(s, "push"@) ==> s.len() > 0 && s[0] != '/',
        same_ignoring_case(s, "git push"@) ==> s.len() > 0 && s[0] != '/',
        same_ignoring_case(s, "git push origin"@) ==> s.len() > 0 && s[0] != '/',
        same_ignoring_case(s, "init"@) ==> s.len() > 0 && s[0] != '/',
        same_ignoring_case(s, "init repo"@) ==> s.len() > 0 && s[0] != '/',
        same_ignoring_case(s, "git init"@) ==> s.len() > 0 && s[0] != '/',
        same_ignoring_case(s, "delete"@) ==> s.len() > 0 && s[0] != '/',
        same_ignoring_case(s, "delete branch"@) ==> s.len() > 0 && s[0] != '/',
        same_ignoring_case(s, "clear"@) ==> s.len() > 0 && s[0] != '/',
        same_ignoring_case(s, "clear conversation"@) ==> s.len() > 0 && s[0] != '/',
        same_ignoring_case(s, "reset conversation"@) ==> s.len() > 0 && s[0] != '/',
        same_ignoring_case(s, "quit"@) ==> s.len() > 0 && s[0] != '/',
        same_ignoring_case(s, "exit"@) ==> s.len() > 0 && s[0] != '/',
{
    lemma_letters_information();
    lemma_letters_branch();
    lemma_letters_worktree();
    lemma_letters_commit();
    lemma_letters_repository();
    lemma_letters_closing();
    assert(s.len() > 0 ==> ascii_lower(s[0]) == ascii_lower(s[0]));
}

/// A line of plain words, in any case and with white space around it, stands for
/// its command.
pub proof fn law_words_stand_for_commands(line: Seq<char>)
    ensures
        same_ignoring_case(trimmed(line), "help"@) ==> local_command(line) == Some(
            LocalCommand::<Seq<char>>::Help,
        ),
        same_ignoring_case(trimmed(line), "show help"@) ==> local_command(line) == Some(
            LocalCommand::<Seq<char>>::Help,
        ),
        same_ignoring_case(trimmed(line), "show commands"@) ==> local_command(line) == Some(
            LocalCommand::<Seq<char>>::Help,
        ),
        same_ignoring_case(trimmed(line), "show available commands"@)
            ==> local_command(line) == Some(
                LocalCommand::<Seq<char>>::Help,
            ),
        same_ignoring_case(trimmed(line), "connect"@) ==> local_command(line) == Some(
            LocalCommand::<Seq<char>>::ConnectDefault,
        ),
        same_ignoring_case(trimmed(line), "reconnect"@) ==> local_command(line) == Some(
            LocalCommand::<Seq<char>>::ConnectDefault,
        ),
        same_ignoring_case(trimmed(line), "disconnect"@) ==> local_command(line) == Some(
            LocalCommand::<Seq<char>>::Disconnect,
        ),
        same_ignoring_case(trimmed(line), "reload"@) ==> local_command(line) == Some(
            LocalCommand::<Seq<char>>::Reload,
        ),
        same_ignoring_case(trimmed(line), "reload configuration"@) ==> local_command(line) == Some(
            LocalCommand::<Seq<char>>::Reload,
        ),
        same_ignoring_case(trimmed(line), "reset session"@) ==> local_command(line) == Some(
            LocalCommand::<Seq<char>>::Reload,
        ),
        same_ignoring_case(trimmed(line), "list models"@) ==> local_command(line) == Some(
            LocalCommand::<Seq<char>>::ListModels,
        ),
        same_ignoring_case(trimmed(line), "show models"@) ==> local_command(line) == Some(
            LocalCommand::<Seq<char>>::ListModels,
        ),
        same_ignoring_case(trimmed(line), "show available models"@) ==> local_command(line) == Some(
            LocalCommand::<Seq<char>>::ListModels,
        ),
        same_ignoring_case(trimmed(line), "models"@) ==> local_command(line) == Some(
            LocalCommand::<Seq<char>>::ListModels,
        ),
        same_ignoring_case(trimmed(line), "list files"@) ==> local_command(line) == Some(
            LocalCommand::<Seq<char>>::ListFiles,
        ),
        same_ignoring_case(trimmed(line), "show files"@) ==> local_command(line) == Some(
            LocalCommand::<Seq<char>>::ListFiles,
        ),
        same_ignoring_case(trimmed(line), "show workspace files"@) ==> local_command(line) == Some(
            LocalCommand::<Seq<char>>::ListFiles,
        ),
        same_ignoring_case(trimmed(line), "list workspace files"@) ==> local_command(line) == Some(
            LocalCommand::<Seq<char>>::ListFiles,
        ),
        same_ignoring_case(trimmed(line), "show tools"@) ==> local_command(line) == Some(
            LocalCommand::<Seq<char>>::Tools,
        ),
        same_ignoring_case(trimmed(line), "list tools"@) ==> local_command(line) == Some(
            LocalCommand::<Seq<char>>::Tools,
        ),
        same_ignoring_case(trimmed(line), "show local tools"@) ==> local_command(line) == Some(
            LocalCommand::<Seq<char>>::Tools,
        ),
        same_ignoring_case(trimmed(line), "tools"@) ==> local_command(line) == Some(
            LocalCommand::<Seq<char>>::Tools,
        ),
        same_ignoring_case(trimmed(line), "show model"@) ==> local_command(line) == Some(
            LocalCommand::<Seq<char>>::ModelInfo,
        ),
        same_ignoring_case(trimmed(line), "current model"@) ==> local_command(line) == Some(
            LocalCommand::<Seq<char>>::ModelInfo,
        ),
        same_ignoring_case(trimmed(line), "what model am i using"@) ==> local_command(line) == Some(
            LocalCommand::<Seq<char>>::ModelInfo,
        ),
        same_ignoring_case(trimmed(line), "model"@) ==> local_command(line) == Some(
            LocalCommand::<Seq<char>>::ModelInfo,
        ),
        same_ignoring_case(trimmed(line), "diff"@) ==> local_command(line) == Some(
            LocalCommand::<Seq<char>>::Diff,
        ),
        same_ignoring_case(trimmed(line), "show diff"@) ==> local_command(line) == Some(
            LocalCommand::<Seq<char>>::Diff,
        ),
        same_ignoring_case(trimmed(line), "git diff"@) ==> local_command(line) == Some(
            LocalCommand::<Seq<char>>::Diff,
        ),
        same_ignoring_case(trimmed(line), "status"@) ==> local_command(line) == Some(
            LocalCommand::<Seq<char>>::Status,
        ),
        same_ignoring_case(trimmed(line), "show status"@) ==> local_command(line) == Some(
            LocalCommand::<Seq<char>>::Status,
        ),
        same_ignoring_case(trimmed(line), "git status"@) ==> local_command(line) == Some(
            LocalCommand::<Seq<char>>::Status,
        ),
        same_ignoring_case(trimmed(line), "log"@) ==> local_command(line) == Some(
            LocalCommand::<Seq<char>>::Log,
        ),
        same_ignoring_case(trimmed(line), "show log"@) ==> local_command(line) == Some(
            LocalCommand::<Seq<char>>::Log,
        ),
        same_ignoring_case(trimmed(line), "git log"@) ==> local_command(line) == Some(
            LocalCommand::<Seq<char>>::Log,
        ),
        same_ignoring_case(trimmed(line), "git lg"@) ==> local_command(line) == Some(
            LocalCommand::<Seq<char>>::Log,
        ),
        same_ignoring_case(trimmed(line), "usage"@) ==> local_command(line) == Some(
            LocalCommand::<Seq<char>>::Usage,
        ),
        same_ignoring_case(trimmed(line), "show usage"@) ==> local_command(line) == Some(
            LocalCommand::<Seq<char>>::Usage,
        ),
        same_ignoring_case(trimmed(line), "rebase"@) ==> local_command(line) == Some(
            LocalCommand::<Seq<char>>::Rebase,
        ),
        same_ignoring_case(trimmed(line), "git rebase"@) ==> local_command(line) == Some(
            LocalCommand::<Seq<char>>::Rebase,
        ),
        same_ignoring_case(trimmed(line), "merge"@) ==> local_command(line) == Some(
            LocalCommand::<Seq<char>>::Merge(None),
        ),
        same_ignoring_case(trimmed(line), "checkout"@) ==> local_command(line) == Some(
            LocalCommand::<Seq<char>>::Checkout(None),
        ),
        same_ignoring_case(trimmed(line), "switch to"@) ==> local_command(line) == Some(
            LocalCommand::<Seq<char>>::Checkout(None),
        ),
        same_ignoring_case(trimmed(line), "add"@) ==> local_command(line) == Some(
            LocalCommand::<Seq<char>>::AddFile(None),
        ),
        same_ignoring_case(trimmed(line), "remove"@) ==> local_command(line) == Some(
            LocalCommand::<Seq<char>>::RemoveFile(None),
        ),
        same_ignoring_case(trimmed(line), "move"@) ==> local_command(line) == Some(
            LocalCommand::<Seq<char>>::MoveFile(None),
        ),
        same_ignoring_case(trimmed(line), "cherry pick"@) ==> local_command(line) == Some(
            LocalCommand::<Seq<char>>::CherryPick(None),
        ),
        same_ignoring_case(trimmed(line), "cherry-pick"@) ==> local_command(line) == Some(
            LocalCommand::<Seq<char>>::CherryPick(None),
        ),
        same_ignoring_case(trimmed(line), "commit"@) ==> local_command(line) == Some(
            LocalCommand::<Seq<char>>::Commit(None),
        ),
        same_ignoring_case(trimmed(line), "force push"@) ==> local_command(line) == Some(
            LocalCommand::<Seq<char>>::Push(true),
        ),
        same_ignoring_case(trimmed(line), "push force"@) ==> local_command(line) == Some(
            LocalCommand::<Seq<char>>::Push(true),
        ),
        same_ignoring_case(trimmed(line), "push --force"@) ==> local_command(line) == Some(
            LocalCommand::<Seq<char>>::Push(true),
        ),
        same_ignoring_case(trimmed(line), "push -f"@) ==> local_command(line) == Some(
            LocalCommand::<Seq<char>>::Push(true),
        ),
        same_ignoring_case(trimmed(line), "git push --force"@) ==> local_command(line) == Some(
            LocalCommand::<Seq<char>>::Push(true),
        ),
        same_ignoring_case(trimmed(line), "git push -f"@) ==> local_command(line) == Some(
            LocalCommand::<Seq<char>>::Push(true),
        ),
        same_ignoring_case(trimmed(line), "git push origin --force"@)
            ==> local_command(line) == Some(
                LocalCommand::<Seq<char>>::Push(true),
            ),
        same_ignoring_case(trimmed(line), "git push origin -f"@) ==> local_command(line) == Some(
            LocalCommand::<Seq<char>>::Push(true),
        ),
        same_ignoring_case(trimmed(line), "push"@) ==> local_command(line) == Some(
            LocalCommand::<Seq<char>>::Push(false),
        ),
        same_ignoring_case(trimmed(line), "git push"@) ==> local_command(line) == Some(
            LocalCommand::<Seq<char>>::Push(false),
        ),
        same_ignoring_case(trimmed(line), "git push origin"@) ==> local_command(line) == Some(
            LocalCommand::<Seq<char>>::Push(false),
        ),
        same_ignoring_case(trimmed(line), "init"@) ==> local_command(line) == Some(
            LocalCommand::<Seq<char>>::InitRepo,
        ),
        same_ignoring_case(trimmed(line), "init repo"@) ==> local_command(line) == Some(
            LocalCommand::<Seq<char>>::InitRepo,
        ),
        same_ignoring_case(trimmed(line), "git init"@) ==> local_command(line) == Some(
            LocalCommand::<Seq<char>>::InitRepo,
        ),
        same_ignoring_case(trimmed(line), "delete"@) ==> local_command(line) == Some(
            LocalCommand::<Seq<char>>::DeleteBranch(None),
        ),
        same_ignoring_case(trimmed(line), "delete branch"@) ==> local_command(line) == Some(
            LocalCommand::<Seq<char>>::DeleteBranch(None),
        ),
        same_ignoring_case(trimmed(line), "clear"@) ==> local_command(line) == Some(
            LocalCommand::<Seq<char>>::Clear,
        ),
        same_ignoring_case(trimmed(line), "clear conversation"@) ==> local_command(line) == Some(
            LocalCommand::<Seq<char>>::Clear,
        ),
        same_ignoring_case(trimmed(line), "reset conversation"@) ==> local_command(line) == Some(
            LocalCommand::<Seq<char>>::Clear,
        ),
        same_ignoring_case(trimmed(line), "quit"@) ==> local_command(line) == Some(
            LocalCommand::<Seq<char>>::Quit,
        ),
        same_ignoring_case(trimmed(line), "exit"@) ==> local_command(line) == Some(
            LocalCommand::<Seq<char>>::Quit,
        ),
{
    let s = trimmed(line);
    lemma_word_is_plain(s);
    if s.len() > 0 && s[0] != '/' {
        lemma_no_slash(s);
    }
    lemma_later_words_information(s);
    lemma_words_information(s);
    lemma_later_words_file(s);
    lemma_later_words_branch(s);
    lemma_words_branch(s);
    lemma_later_words_worktree(s);
    lemma_words_worktree(s);
    lemma_later_words_commit(s);
    lemma_words_commit(s);
    lemma_later_words_repository(s);
    lemma_words_repository(s);
    lemma_words_closing(s);
}

/// A slash command of one word, with white space around it, is that command.
pub proof fn law_slash_words_stand_for_commands(line: Seq<char>)
    ensures
        trimmed(line) == "/help"@ ==> local_command(line) == Some(LocalCommand::<Seq<char>>::Help),
        trimmed(line) == "/connect"@ ==> local_command(line) == Some(
            LocalCommand::<Seq<char>>::ConnectDefault,
        ),
        trimmed(line) == "/disconnect"@ ==> local_command(line) == Some(
            LocalCommand::<Seq<char>>::Disconnect,
        ),
        trimmed(line) == "/reload"@ ==> local_command(line) == Some(
            LocalCommand::<Seq<char>>::Reload,
        ),
        trimmed(line) == "/list_models"@ ==> local_command(line) == Some(
            LocalCommand::<Seq<char>>::ListModels,
        ),
        trimmed(line) == "/list_files"@ ==> local_command(line) == Some(
            LocalCommand::<Seq<char>>::ListFiles,
        ),
        trimmed(line) == "/show_file"@ ==> local_command(line) == Some(
            LocalCommand::<Seq<char>>::ShowFile(Seq::empty()),
        ),
        trimmed(line) == "/open_file"@ ==> local_command(line) == Some(
            LocalCommand::<Seq<char>>::OpenFile(Seq::empty()),
        ),
        trimmed(line) == "/tools"@ ==> local_command(line) == Some(
            LocalCommand::<Seq<char>>::Tools,
        ),
        trimmed(line) == "/model"@ ==> local_command(line) == Some(
            LocalCommand::<Seq<char>>::ModelInfo,
        ),
        trimmed(line) == "/diff"@ ==> local_command(line) == Some(LocalCommand::<Seq<char>>::Diff),
        trimmed(line) == "/status"@ ==> local_command(line) == Some(
            LocalCommand::<Seq<char>>::Status,
        ),
        trimmed(line) == "/log"@ ==> local_command(line) == Some(LocalCommand::<Seq<char>>::Log),
        trimmed(line) == "/pull"@ ==> local_command(line) == Some(
            LocalCommand::<Seq<char>>::Pull(None),
        ),
        trimmed(line) == "/rebase"@ ==> local_command(line) == Some(
            LocalCommand::<Seq<char>>::Rebase,
        ),
        trimmed(line) == "/merge"@ ==> local_command(line) == Some(
            LocalCommand::<Seq<char>>::Merge(None),
        ),
        trimmed(line) == "/checkout"@ ==> local_command(line) == Some(
            LocalCommand::<Seq<char>>::Checkout(None),
        ),
        trimmed(line) == "/add_file"@ ==> local_command(line) == Some(
            LocalCommand::<Seq<char>>::AddFile(None),
        ),
        trimmed(line) == "/remove_file"@ ==> local_command(line) == Some(
            LocalCommand::<Seq<char>>::RemoveFile(None),
        ),
        trimmed(line) == "/move_file"@ ==> local_command(line) == Some(
            LocalCommand::<Seq<char>>::MoveFile(None),
        ),
        trimmed(line) == "/cherry_pick"@ ==> local_command(line) == Some(
            LocalCommand::<Seq<char>>::CherryPick(None),
        ),
        trimmed(line) == "/commit"@ ==> local_command(line) == Some(
            LocalCommand::<Seq<char>>::Commit(None),
        ),
        trimmed(line) == "/push"@ ==> local_command(line) == Some(
            LocalCommand::<Seq<char>>::Push(false),
        ),
        trimmed(line) == "/init_repo"@ ==> local_command(line) == Some(
            LocalCommand::<Seq<char>>::InitRepo,
        ),
        trimmed(line) == "/delete"@ ==> local_command(line) == Some(
            LocalCommand::<Seq<char>>::DeleteBranch(None),
        ),
        trimmed(line) == "/usage"@ ==> local_command(line) == Some(
            LocalCommand::<Seq<char>>::Usage,
        ),
        trimmed(line) == "/clear"@ ==> local_command(line) == Some(
            LocalCommand::<Seq<char>>::Clear,
        ),
        trimmed(line) == "/quit"@ ==> local_command(line) == Some(LocalCommand::<Seq<char>>::Quit),
{
    lemma_letters_slash();
    let s = trimmed(line);
    if s == "/help"@ {
        assert(s[1] == 'h' && s[2] == 'e' && s[3] == 'l' && s[4] == 'p');
    }
    if s == "/connect"@ {
        assert(s[1] == 'c' && s[2] == 'o' && s[3] == 'n' && s[4] == 'n' && s[5] == 'e'
            && s[6] == 'c' && s[7] == 't');
    }
    if s == "/disconnect"@ {
        assert(s[1] == 'd' && s[2] == 'i' && s[3] == 's' && s[4] == 'c' && s[5] == 'o'
            && s[6] == 'n' && s[7] == 'n' && s[8] == 'e' && s[9] == 'c' && s[10] == 't');
    }
    if s == "/reload"@ {
        assert(s[1] == 'r' && s[2] == 'e' && s[3] == 'l' && s[4] == 'o' && s[5] == 'a'
            && s[6] == 'd');
    }
    if s == "/list_models"@ {
        assert(s[1] == 'l' && s[2] == 'i' && s[3] == 's' && s[4] == 't' && s[5] == '_'
            && s[6] == 'm' && s[7] == 'o' && s[8] == 'd' && s[9] == 'e' && s[10] == 'l'
            && s[11] == 's');
    }
    if s == "/list_files"@ {
        assert(s[1] == 'l' && s[2] == 'i' && s[3] == 's' && s[4] == 't' && s[5] == '_'
            && s[6] == 'f' && s[7] == 'i' && s[8] == 'l' && s[9] == 'e' && s[10] == 's');
    }
    if s == "/show_file"@ {
        assert(s[1] == 's' && s[2] == 'h' && s[3] == 'o' && s[4] == 'w' && s[5] == '_'
            && s[6] == 'f' && s[7] == 'i' && s[8] == 'l' && s[9] == 'e');
    }
    if s == "/open_file"@ {
        assert(s[1] == 'o' && s[2] == 'p' && s[3] == 'e' && s[4] == 'n' && s[5] == '_'
            && s[6] == 'f' && s[7] == 'i' && s[8] == 'l' && s[9] == 'e');
    }
    if s == "/tools"@ {
        assert(s[1] == 't' && s[2] == 'o' && s[3] == 'o' && s[4] == 'l' && s[5] == 's');
    }
    if s == "/model"@ {
        assert(s[1] == 'm' && s[2] == 'o' && s[3] == 'd' && s[4] == 'e' && s[5] == 'l');
    }
    if s == "/diff"@ {
        assert(s[1] == 'd' && s[2] == 'i' && s[3] == 'f' && s[4] == 'f');
    }
    if s == "/status"@ {
        assert(s[1] == 's' && s[2] == 't' && s[3] == 'a' && s[4] == 't' && s[5] == 'u'
            && s[6] == 's');
    }
    if s == "/log"@ {
        assert(s[1] == 'l' && s[2] == 'o' && s[3] == 'g');
    }
    if s == "/pull"@ {
        assert(s[1] == 'p' && s[2] == 'u' && s[3] == 'l' && s[4] == 'l');
    }
    if s == "/rebase"@ {
        assert(s[1] == 'r' && s[2] == 'e' && s[3] == 'b' && s[4] == 'a' && s[5] == 's'
            && s[6] == 'e');
    }
    if s == "/merge"@ {
        assert(s[1] == 'm' && s[2] == 'e' && s[3] == 'r' && s[4] == 'g' && s[5] == 'e');
    }
    if s == "/checkout"@ {
        assert(s[1] == 'c' && s[2] == 'h' && s[3] == 'e' && s[4] == 'c' && s[5] == 'k'
            && s[6] == 'o' && s[7] == 'u' && s[8] == 't');
    }
    if s == "/add_file"@ {
        assert(s[1] == 'a' && s[2] == 'd' && s[3] == 'd' && s[4] == '_' && s[5] == 'f'
            && s[6] == 'i' && s[7] == 'l' && s[8] == 'e');
    }
    if s == "/remove_file"@ {
        assert(s[1] == 'r' && s[2] == 'e' && s[3] == 'm' && s[4] == 'o' && s[5] == 'v'
            && s[6] == 'e' && s[7] == '_' && s[8] == 'f' && s[9] == 'i' && s[10] == 'l'
            && s[11] == 'e');
    }
    if s == "/move_file"@ {
        assert(s[1] == 'm' && s[2] == 'o' && s[3] == 'v' && s[4] == 'e' && s[5] == '_'
            && s[6] == 'f' && s[7] == 'i' && s[8] == 'l' && s[9] == 'e');
    }
    if s == "/cherry_pick"@ {
        assert(s[1] == 'c' && s[2] == 'h' && s[3] == 'e' && s[4] == 'r' && s[5] == 'r'
            && s[6] == 'y' && s[7] == '_' && s[8] == 'p' && s[9] == 'i' && s[10] == 'c'
            && s[11] == 'k');
    }
    if s == "/commit"@ {
        assert(s[1] == 'c' && s[2] == 'o' && s[3] == 'm' && s[4] == 'm' && s[5] == 'i'
            && s[6] == 't');
    }
    if s == "/push"@ {
        assert(s[1] == 'p' && s[2] == 'u' && s[3] == 's' && s[4] == 'h');
    }
    if s == "/init_repo"@ {
        assert(s[1] == 'i' && s[2] == 'n' && s[3] == 'i' && s[4] == 't' && s[5] == '_'
            && s[6] == 'r' && s[7] == 'e' && s[8] == 'p' && s[9] == 'o');
    }
    if s == "/delete"@ {
        assert(s[1] == 'd' && s[2] == 'e' && s[3] == 'l' && s[4] == 'e' && s[5] == 't'
            && s[6] == 'e');
    }
    if s == "/usage"@ {
        assert(s[1] == 'u' && s[2] == 's' && s[3] == 'a' && s[4] == 'g' && s[5] == 'e');
    }
    if s == "/clear"@ {
        assert(s[1] == 'c' && s[2] == 'l' && s[3] == 'e' && s[4] == 'a' && s[5] == 'r');
    }
    if s == "/quit"@ {
        assert(s[1] == 'q' && s[2] == 'u' && s[3] == 'i' && s[4] == 't');
    }
}

/// A forced push is asked for with a flag behind the slash command, and with no
/// other one.
pub proof fn law_push_flags(a: Seq<char>)
    requires
        is_argument(a),
    ensures
        a == "--force"@ || a == "-f"@ || same_ignoring_case(a, "force"@) ==> local_command(
            "/push "@ + a,
        ) == Some(LocalCommand::<Seq<char>>::Push(true)),
        !(a == "--force"@ || a == "-f"@ || same_ignoring_case(a, "force"@)) ==> local_command(
            "/push "@ + a,
        ) is None,
{
    let s = "/push "@ + a;
    lemma_letters_slash();
    lemma_phrase("/push "@, a);
    lemma_slash_apart(s);
    lemma_differ(s);
    lemma_no_slash_word(s, 5);
    lemma_strange_words(s);
}

/// Whether a line begins with a letter, or a sign, with which no phrase begins.
pub open spec fn begins_strangely(s: Seq<char>) -> bool {
    let c = ascii_lower(s[0]);
    &&& c != 'h' && c != 's' && c != 'c' && c != 'r' && c != 'd' && c != 'l' && c != 't'
    &&& c != 'm' && c != 'w' && c != 'g' && c != 'u' && c != 'o' && c != 'e' && c != 'p'
    &&& c != 'a' && c != 'f' && c != 'i' && c != 'q'
}

proof fn lemma_strange_information(s: Seq<char>)
    requires
        s.len() > 0,
        begins_strangely(s),
    ensures
        information_phrase(s) is None,
{
    lemma_letters_information();
    lemma_differ(s);
}

proof fn lemma_strange_file(s: Seq<char>)
    requires
        s.len() > 0,
        begins_strangely(s),
        !begins_ci(s, "/open_file "@),
    ensures
        file_phrase(s) is None,
{
    lemma_letters_slash();
    lemma_letters_file();
    lemma_differ(s);
}

proof fn lemma_strange_branch(s: Seq<char>)
    requires
        s.len() > 0,
        begins_strangely(s),
    ensures
        branch_phrase(s) is None,
{
    lemma_letters_branch();
    lemma_differ(s);
}

proof fn lemma_strange_worktree(s: Seq<char>)
    requires
        s.len() > 0,
        begins_strangely(s),
    ensures
        worktree_phrase(s) is None,
{
    lemma_letters_worktree();
    lemma_differ(s);
}

proof fn lemma_strange_commit(s: Seq<char>)
    requires
        s.len() > 0,
        begins_strangely(s),
    ensures
        commit_phrase(s) is None,
{
    lemma_letters_commit();
    lemma_differ(s);
}

proof fn lemma_strange_repository(s: Seq<char>)
    requires
        s.len() > 0,
        begins_strangely(s),
    ensures
        repository_phrase(s) is None,
{
    lemma_letters_repository();
    lemma_differ(s);
}

proof fn lemma_strange_closing(s: Seq<char>)
    requires
        s.len() > 0,
        begins_strangely(s),
    ensures
        closing_phrase(s) is None,
{
    lemma_letters_closing();
    lemma_differ(s);
}

proof fn lemma_strange_words(s: Seq<char>)
    requires
        s.len() > 0,
        begins_strangely(s),
        !begins_ci(s, "/open_file "@),
    ensures
        natural_command(s) is None,
{
    lemma_strange_information(s);
    lemma_strange_file(s);
    lemma_strange_branch(s);
    lemma_strange_worktree(s);
    lemma_strange_commit(s);
    lemma_strange_repository(s);
    lemma_strange_closing(s);
}

/// A line that begins with no letter of a command is a prompt, or empty.
pub proof fn law_other_lines_are_prompts(line: Seq<char>)
    requires
        trimmed(line).len() > 0 ==> begins_strangely(trimmed(line)) && trimmed(line)[0] != '/',
    ensures
        local_command(line) is None,
{
    let s = trimmed(line);
    if s.len() > 0 {
        lemma_no_slash(s);
        lemma_differ(s);
        lemma_letters_slash();
        lemma_strange_words(s);
    }
}

proof fn lemma_suffix_differs(s: Seq<char>, q: Seq<char>, k: int)
    requires
        0 <= k < q.len(),
        q.len() <= s.len() ==> ascii_lower(s[s.len() - q.len() + k]) != ascii_lower(q[k]),
    ensures
        before_suffix_ci(s, q) is None,
{
    if q.len() <= s.len() {
        let tail = s.skip(s.len() - q.len());
        assert(tail[k] == s[s.len() - q.len() + k]);
        if same_ignoring_case(tail, q) {
            assert(ascii_lower(tail[k]) == ascii_lower(q[k]));
        }
    }
}

proof fn lemma_suffix_fits(p: Seq<char>, q: Seq<char>)
    ensures
        before_suffix_ci(p + q, q) == Some(p),
{
    let s = p + q;
    assert(s.skip(s.len() - q.len()) =~= q);
    assert(s.take(s.len() - q.len()) =~= p);
}

/// What a phrase that lists a file says of the columns beside it.
spec fn columns_words(hash: bool, author: bool, hash_first: bool) -> Seq<char> {
    if hash && author {
        if hash_first {
            " with hash and author"@
        } else {
            " with author and hash"@
        }
    } else if hash {
        " with hash"@
    } else {
        " with author"@
    }
}

proof fn lemma_columns(p: Seq<char>, hash: bool, author: bool, hash_first: bool, single: bool)
    requires
        is_argument(p),
        hash || author,
        unquoted(p) == p,
        single ==> no_whitespace(p),
    ensures
        is_argument(p + columns_words(hash, author, hash_first)),
        show_file_request(p + columns_words(hash, author, hash_first), single) == Some(
            (p, ShowFileOptions { show_hash: hash, show_author: author }),
        ),
{
    reveal_strlit(" with hash and author");
    reveal_strlit(" with author and hash");
    reveal_strlit(" with hash");
    reveal_strlit(" with author");
    let words = columns_words(hash, author, hash_first);
    let raw = p + words;
    assert(raw[0] == p[0] && raw.last() == words.last());
    lemma_trimmed_is(p);
    lemma_suffix_fits(p, words);
    if hash && author {
        if !hash_first {
            lemma_suffix_differs(raw, " with hash and author"@, 20);
        }
    } else if hash {
        lemma_suffix_differs(raw, " with hash and author"@, 20);
        lemma_suffix_differs(raw, " with author and hash"@, 12);
    } else {
        lemma_suffix_differs(raw, " with hash and author"@, 10);
        lemma_suffix_differs(raw, " with author and hash"@, 20);
        lemma_suffix_differs(raw, " with hash"@, 9);
    }
}

/// The phrases that list a file are no others.
proof fn lemma_no_other_show(s: Seq<char>, long: bool)
    requires
        begins(s, if long { "show file "@ } else { "show "@ }),
        !long ==> information_phrase(s) is None,
    ensures
        slash_command(s) is None,
        information_phrase(s) is None,
        model_name(s) is None,
        file_to_open(s) is None,
        !long ==> begins(s, "show "@),
{
    lemma_letters_information();
    lemma_letters_file();
    lemma_letters_slash();
    lemma_differ(s);
    lemma_begins_at(s, if long { "show file "@ } else { "show "@ });
    lemma_no_slash(s);
}

/// Listing a file in plain words with the hash, the author or both beside its
/// lines asks for exactly this file and these columns.
pub proof fn law_show_phrases_with_columns(
    p: Seq<char>,
    hash: bool,
    author: bool,
    hash_first: bool,
)
    requires
        is_argument(p),
        p[0] != '-',
        unquoted(p) == p,
        hash || author,
    ensures
        ({
            let words = if hash && author && hash_first {
                " with hash and author"@
            } else if hash && author {
                " with author and hash"@
            } else if hash {
                " with hash"@
            } else {
                " with author"@
            };
            let columns = ShowFileOptions { show_hash: hash, show_author: author };
            local_command("show file "@ + (p + words)) matches Some(LocalCommand::ShowFile(args))
                && show_request(args) == Ok::<(Seq<char>, ShowFileOptions), Seq<char>>(
                (p, columns),
            )
        }),
{
    let words = columns_words(hash, author, hash_first);
    let columns = ShowFileOptions { show_hash: hash, show_author: author };
    let s = "show file "@ + (p + words);
    lemma_columns(p, hash, author, hash_first, false);
    lemma_letters_file();
    lemma_phrase("show file "@, p + words);
    lemma_no_other_show(s, true);
    law_phrases_are_read_back(p, columns);
}

/// Listing a file in plain words names the file. Without the word `file` the
/// name is a single word, and none that asks for something else.
pub proof fn law_show_phrases(p: Seq<char>)
    requires
        is_argument(p),
        unquoted(p) == p,
        before_suffix_ci(p, " with hash and author"@) is None,
        before_suffix_ci(p, " with author and hash"@) is None,
        before_suffix_ci(p, " with hash"@) is None,
        before_suffix_ci(p, " with author"@) is None,
    ensures
        local_command("show file "@ + p) == Some(LocalCommand::ShowFile(p)),
        no_whitespace(p) && p[0] != '"' && p[0] != '\'' && !asks_for_something(p) ==> local_command(
            "show "@ + p,
        ) == Some(LocalCommand::ShowFile(p)),
        !no_whitespace(p) && p[0] != '"' && p[0] != '\'' && !begins_ci(p, "file "@)
            && !asks_for_something(p) ==> local_command("show "@ + p) is None,
{
    lemma_letters_file();
    lemma_phrase("show file "@, p);
    lemma_no_other_show("show file "@ + p, true);
    lemma_phrase("show "@, p);
    reveal_strlit("file ");
    assert("show "@ + "file "@ =~= "show file "@);
    lemma_longer_phrase("show "@, "file "@, p);
    if !asks_for_something(p) {
        lemma_not_information(p);
        lemma_no_other_show("show "@ + p, false);
        if no_whitespace(p) {
            if begins_ci(p, "file "@) {
                assert(p.take(5)[4] == p[4]);
                assert(ascii_lower(p.take(5)[4]) == ascii_lower("file "@[4]));
                assert(whitespace(p[4]));
            }
        } else if !begins_ci(p, "file "@) {
            lemma_nothing_behind_show("show "@ + p);
        }
    }
}

/// Whether a word behind `show` asks for something else than a file.
pub open spec fn asks_for_something(p: Seq<char>) -> bool {
    ||| same_ignoring_case(p, "help"@)
    ||| same_ignoring_case(p, "commands"@)
    ||| same_ignoring_case(p, "available commands"@)
    ||| same_ignoring_case(p, "models"@)
    ||| same_ignoring_case(p, "available models"@)
    ||| same_ignoring_case(p, "files"@)
    ||| same_ignoring_case(p, "workspace files"@)
    ||| same_ignoring_case(p, "tools"@)
    ||| same_ignoring_case(p, "local tools"@)
    ||| same_ignoring_case(p, "model"@)
    ||| same_ignoring_case(p, "diff"@)
    ||| same_ignoring_case(p, "status"@)
    ||| same_ignoring_case(p, "log"@)
    ||| same_ignoring_case(p, "usage"@)
}

proof fn lemma_not_information(p: Seq<char>)
    requires
        !asks_for_something(p),
    ensures
        information_phrase("show "@ + p) is None,
{
    lemma_letters_information();
    lemma_letters_file();
    lemma_differ("show "@ + p);
    assert("show "@ + "help"@ =~= "show help"@);
    lemma_longer_phrase("show "@, "help"@, p);
    reveal_strlit("commands");
    assert("show "@ + "commands"@ =~= "show commands"@);
    lemma_longer_phrase("show "@, "commands"@, p);
    reveal_strlit("available commands");
    assert("show "@ + "available commands"@ =~= "show available commands"@);
    lemma_longer_phrase("show "@, "available commands"@, p);
    assert("show "@ + "models"@ =~= "show models"@);
    lemma_longer_phrase("show "@, "models"@, p);
    reveal_strlit("available models");
    assert("show "@ + "available models"@ =~= "show available models"@);
    lemma_longer_phrase("show "@, "available models"@, p);
    reveal_strlit("files");
    assert("show "@ + "files"@ =~= "show files"@);
    lemma_longer_phrase("show "@, "files"@, p);
    reveal_strlit("workspace files");
    assert("show "@ + "workspace files"@ =~= "show workspace files"@);
    lemma_longer_phrase("show "@, "workspace files"@, p);
    assert("show "@ + "tools"@ =~= "show tools"@);
    lemma_longer_phrase("show "@, "tools"@, p);
    reveal_strlit("local tools");
    assert("show "@ + "local tools"@ =~= "show local tools"@);
    lemma_longer_phrase("show "@, "local tools"@, p);
    assert("show "@ + "model"@ =~= "show model"@);
    lemma_longer_phrase("show "@, "model"@, p);
    assert("show "@ + "diff"@ =~= "show diff"@);
    lemma_longer_phrase("show "@, "diff"@, p);
    assert("show "@ + "status"@ =~= "show status"@);
    lemma_longer_phrase("show "@, "status"@, p);
    assert("show "@ + "log"@ =~= "show log"@);
    lemma_longer_phrase("show "@, "log"@, p);
    assert("show "@ + "usage"@ =~= "show usage"@);
    lemma_longer_phrase("show "@, "usage"@, p);
}

proof fn lemma_nothing_behind_show(s: Seq<char>)
    requires
        begins(s, "show "@),
    ensures
        branch_phrase(s) is None,
        worktree_phrase(s) is None,
        commit_phrase(s) is None,
        repository_phrase(s) is None,
        closing_phrase(s) is None,
        pull_number(s) is None,
{
    lemma_letters_file();
    lemma_letters_branch();
    lemma_letters_worktree();
    lemma_letters_commit();
    lemma_letters_repository();
    lemma_letters_closing();
    lemma_differ(s);
    lemma_begins_at(s, "show "@);
}

} // verus!
