//! What a completion asks for: which phrase is completed by what.
use vstd::prelude::*;
use vstd::string::*;

use crate::command::{begins, begins_ci};
use crate::completion::{
    command_names, completion_goal, earlier_words, last_gap, CompletionGoal, CompletionQuery,
};
use crate::lists::starting_with;
use crate::phrases::{
    begins_strangely, lemma_begins_at, lemma_differ, lemma_longer_phrase, lemma_slash_apart,
};
use crate::shell::{last_word_start, nonempty, shell_pieces};
use crate::text::{trimmed_start, whitespace};

verus! {

/// The letters of the words that the lemmas below compare.
proof fn lemma_letters()
    ensures
        "/"@.len() == 1,
        "/"@[0] == '/',
        "/add_file "@.len() == 10,
        "/add_file "@[0] == '/' && "/add_file "@[1] == 'a' && "/add_file "@[2] == 'd'
            && "/add_file "@[3] == 'd' && "/add_file "@[4] == '_' && "/add_file "@[5] == 'f'
            && "/add_file "@[6] == 'i' && "/add_file "@[7] == 'l' && "/add_file "@[8] == 'e'
            && "/add_file "@[9] == ' ',
        "/checkout "@.len() == 10,
        "/checkout "@[0] == '/' && "/checkout "@[1] == 'c' && "/checkout "@[2] == 'h'
            && "/checkout "@[3] == 'e' && "/checkout "@[4] == 'c' && "/checkout "@[5] == 'k'
            && "/checkout "@[6] == 'o' && "/checkout "@[7] == 'u' && "/checkout "@[8] == 't'
            && "/checkout "@[9] == ' ',
        "/cherry_pick "@.len() == 13,
        "/cherry_pick "@[0] == '/' && "/cherry_pick "@[1] == 'c' && "/cherry_pick "@[2] == 'h'
            && "/cherry_pick "@[3] == 'e' && "/cherry_pick "@[4] == 'r'
            && "/cherry_pick "@[5] == 'r' && "/cherry_pick "@[6] == 'y'
            && "/cherry_pick "@[7] == '_' && "/cherry_pick "@[8] == 'p'
            && "/cherry_pick "@[9] == 'i' && "/cherry_pick "@[10] == 'c'
            && "/cherry_pick "@[11] == 'k' && "/cherry_pick "@[12] == ' ',
        "/delete "@.len() == 8,
        "/delete "@[0] == '/' && "/delete "@[1] == 'd' && "/delete "@[2] == 'e'
            && "/delete "@[3] == 'l' && "/delete "@[4] == 'e' && "/delete "@[5] == 't'
            && "/delete "@[6] == 'e' && "/delete "@[7] == ' ',
        "/merge "@.len() == 7,
        "/merge "@[0] == '/' && "/merge "@[1] == 'm' && "/merge "@[2] == 'e' && "/merge "@[3] == 'r'
            && "/merge "@[4] == 'g' && "/merge "@[5] == 'e' && "/merge "@[6] == ' ',
        "/model "@.len() == 7,
        "/model "@[0] == '/' && "/model "@[1] == 'm' && "/model "@[2] == 'o' && "/model "@[3] == 'd'
            && "/model "@[4] == 'e' && "/model "@[5] == 'l' && "/model "@[6] == ' ',
        "/move_file "@.len() == 11,
        "/move_file "@[0] == '/' && "/move_file "@[1] == 'm' && "/move_file "@[2] == 'o'
            && "/move_file "@[3] == 'v' && "/move_file "@[4] == 'e' && "/move_file "@[5] == '_'
            && "/move_file "@[6] == 'f' && "/move_file "@[7] == 'i' && "/move_file "@[8] == 'l'
            && "/move_file "@[9] == 'e' && "/move_file "@[10] == ' ',
        "/open_file "@.len() == 11,
        "/open_file "@[0] == '/' && "/open_file "@[1] == 'o' && "/open_file "@[2] == 'p'
            && "/open_file "@[3] == 'e' && "/open_file "@[4] == 'n' && "/open_file "@[5] == '_'
            && "/open_file "@[6] == 'f' && "/open_file "@[7] == 'i' && "/open_file "@[8] == 'l'
            && "/open_file "@[9] == 'e' && "/open_file "@[10] == ' ',
        "/remove_file "@.len() == 13,
        "/remove_file "@[0] == '/' && "/remove_file "@[1] == 'r' && "/remove_file "@[2] == 'e'
            && "/remove_file "@[3] == 'm' && "/remove_file "@[4] == 'o'
            && "/remove_file "@[5] == 'v' && "/remove_file "@[6] == 'e'
            && "/remove_file "@[7] == '_' && "/remove_file "@[8] == 'f'
            && "/remove_file "@[9] == 'i' && "/remove_file "@[10] == 'l'
            && "/remove_file "@[11] == 'e' && "/remove_file "@[12] == ' ',
        "/show_file "@.len() == 11,
        "/show_file "@[0] == '/' && "/show_file "@[1] == 's' && "/show_file "@[2] == 'h'
            && "/show_file "@[3] == 'o' && "/show_file "@[4] == 'w' && "/show_file "@[5] == '_'
            && "/show_file "@[6] == 'f' && "/show_file "@[7] == 'i' && "/show_file "@[8] == 'l'
            && "/show_file "@[9] == 'e' && "/show_file "@[10] == ' ',
        "add "@.len() == 4,
        "add "@[0] == 'a' && "add "@[1] == 'd' && "add "@[2] == 'd' && "add "@[3] == ' ',
        "add file "@.len() == 9,
        "add file "@[0] == 'a' && "add file "@[1] == 'd' && "add file "@[2] == 'd'
            && "add file "@[3] == ' ' && "add file "@[4] == 'f' && "add file "@[5] == 'i'
            && "add file "@[6] == 'l' && "add file "@[7] == 'e' && "add file "@[8] == ' ',
        "checkout "@.len() == 9,
        "checkout "@[0] == 'c' && "checkout "@[1] == 'h' && "checkout "@[2] == 'e'
            && "checkout "@[3] == 'c' && "checkout "@[4] == 'k' && "checkout "@[5] == 'o'
            && "checkout "@[6] == 'u' && "checkout "@[7] == 't' && "checkout "@[8] == ' ',
        "cherry pick "@.len() == 12,
        "cherry pick "@[0] == 'c' && "cherry pick "@[1] == 'h' && "cherry pick "@[2] == 'e'
            && "cherry pick "@[3] == 'r' && "cherry pick "@[4] == 'r' && "cherry pick "@[5] == 'y'
            && "cherry pick "@[6] == ' ' && "cherry pick "@[7] == 'p' && "cherry pick "@[8] == 'i'
            && "cherry pick "@[9] == 'c' && "cherry pick "@[10] == 'k'
            && "cherry pick "@[11] == ' ',
        "cherry-pick "@.len() == 12,
        "cherry-pick "@[0] == 'c' && "cherry-pick "@[1] == 'h' && "cherry-pick "@[2] == 'e'
            && "cherry-pick "@[3] == 'r' && "cherry-pick "@[4] == 'r' && "cherry-pick "@[5] == 'y'
            && "cherry-pick "@[6] == '-' && "cherry-pick "@[7] == 'p' && "cherry-pick "@[8] == 'i'
            && "cherry-pick "@[9] == 'c' && "cherry-pick "@[10] == 'k'
            && "cherry-pick "@[11] == ' ',
        "delete "@.len() == 7,
        "delete "@[0] == 'd' && "delete "@[1] == 'e' && "delete "@[2] == 'l' && "delete "@[3] == 'e'
            && "delete "@[4] == 't' && "delete "@[5] == 'e' && "delete "@[6] == ' ',
        "delete branch "@.len() == 14,
        "delete branch "@[0] == 'd' && "delete branch "@[1] == 'e' && "delete branch "@[2] == 'l'
            && "delete branch "@[3] == 'e' && "delete branch "@[4] == 't'
            && "delete branch "@[5] == 'e' && "delete branch "@[6] == ' '
            && "delete branch "@[7] == 'b' && "delete branch "@[8] == 'r'
            && "delete branch "@[9] == 'a' && "delete branch "@[10] == 'n'
            && "delete branch "@[11] == 'c' && "delete branch "@[12] == 'h'
            && "delete branch "@[13] == ' ',
        "edit "@.len() == 5,
        "edit "@[0] == 'e' && "edit "@[1] == 'd' && "edit "@[2] == 'i' && "edit "@[3] == 't'
            && "edit "@[4] == ' ',
        "edit file "@.len() == 10,
        "edit file "@[0] == 'e' && "edit file "@[1] == 'd' && "edit file "@[2] == 'i'
            && "edit file "@[3] == 't' && "edit file "@[4] == ' ' && "edit file "@[5] == 'f'
            && "edit file "@[6] == 'i' && "edit file "@[7] == 'l' && "edit file "@[8] == 'e'
            && "edit file "@[9] == ' ',
        "git add "@.len() == 8,
        "git add "@[0] == 'g' && "git add "@[1] == 'i' && "git add "@[2] == 't'
            && "git add "@[3] == ' ' && "git add "@[4] == 'a' && "git add "@[5] == 'd'
            && "git add "@[6] == 'd' && "git add "@[7] == ' ',
        "git branch -D "@.len() == 14,
        "git branch -D "@[0] == 'g' && "git branch -D "@[1] == 'i' && "git branch -D "@[2] == 't'
            && "git branch -D "@[3] == ' ' && "git branch -D "@[4] == 'b'
            && "git branch -D "@[5] == 'r' && "git branch -D "@[6] == 'a'
            && "git branch -D "@[7] == 'n' && "git branch -D "@[8] == 'c'
            && "git branch -D "@[9] == 'h' && "git branch -D "@[10] == ' '
            && "git branch -D "@[11] == '-' && "git branch -D "@[12] == 'D'
            && "git branch -D "@[13] == ' ',
        "git checkout "@.len() == 13,
        "git checkout "@[0] == 'g' && "git checkout "@[1] == 'i' && "git checkout "@[2] == 't'
            && "git checkout "@[3] == ' ' && "git checkout "@[4] == 'c'
            && "git checkout "@[5] == 'h' && "git checkout "@[6] == 'e'
            && "git checkout "@[7] == 'c' && "git checkout "@[8] == 'k'
            && "git checkout "@[9] == 'o' && "git checkout "@[10] == 'u'
            && "git checkout "@[11] == 't' && "git checkout "@[12] == ' ',
        "git cherry-pick "@.len() == 16,
        "git cherry-pick "@[0] == 'g' && "git cherry-pick "@[1] == 'i'
            && "git cherry-pick "@[2] == 't' && "git cherry-pick "@[3] == ' '
            && "git cherry-pick "@[4] == 'c' && "git cherry-pick "@[5] == 'h'
            && "git cherry-pick "@[6] == 'e' && "git cherry-pick "@[7] == 'r'
            && "git cherry-pick "@[8] == 'r' && "git cherry-pick "@[9] == 'y'
            && "git cherry-pick "@[10] == '-' && "git cherry-pick "@[11] == 'p'
            && "git cherry-pick "@[12] == 'i' && "git cherry-pick "@[13] == 'c'
            && "git cherry-pick "@[14] == 'k' && "git cherry-pick "@[15] == ' ',
        "git merge "@.len() == 10,
        "git merge "@[0] == 'g' && "git merge "@[1] == 'i' && "git merge "@[2] == 't'
            && "git merge "@[3] == ' ' && "git merge "@[4] == 'm' && "git merge "@[5] == 'e'
            && "git merge "@[6] == 'r' && "git merge "@[7] == 'g' && "git merge "@[8] == 'e'
            && "git merge "@[9] == ' ',
        "git mv "@.len() == 7,
        "git mv "@[0] == 'g' && "git mv "@[1] == 'i' && "git mv "@[2] == 't' && "git mv "@[3] == ' '
            && "git mv "@[4] == 'm' && "git mv "@[5] == 'v' && "git mv "@[6] == ' ',
        "git rm "@.len() == 7,
        "git rm "@[0] == 'g' && "git rm "@[1] == 'i' && "git rm "@[2] == 't' && "git rm "@[3] == ' '
            && "git rm "@[4] == 'r' && "git rm "@[5] == 'm' && "git rm "@[6] == ' ',
        "merge "@.len() == 6,
        "merge "@[0] == 'm' && "merge "@[1] == 'e' && "merge "@[2] == 'r' && "merge "@[3] == 'g'
            && "merge "@[4] == 'e' && "merge "@[5] == ' ',
        "move "@.len() == 5,
        "move "@[0] == 'm' && "move "@[1] == 'o' && "move "@[2] == 'v' && "move "@[3] == 'e'
            && "move "@[4] == ' ',
        "move file "@.len() == 10,
        "move file "@[0] == 'm' && "move file "@[1] == 'o' && "move file "@[2] == 'v'
            && "move file "@[3] == 'e' && "move file "@[4] == ' ' && "move file "@[5] == 'f'
            && "move file "@[6] == 'i' && "move file "@[7] == 'l' && "move file "@[8] == 'e'
            && "move file "@[9] == ' ',
        "open "@.len() == 5,
        "open "@[0] == 'o' && "open "@[1] == 'p' && "open "@[2] == 'e' && "open "@[3] == 'n'
            && "open "@[4] == ' ',
        "open file "@.len() == 10,
        "open file "@[0] == 'o' && "open file "@[1] == 'p' && "open file "@[2] == 'e'
            && "open file "@[3] == 'n' && "open file "@[4] == ' ' && "open file "@[5] == 'f'
            && "open file "@[6] == 'i' && "open file "@[7] == 'l' && "open file "@[8] == 'e'
            && "open file "@[9] == ' ',
        "remove "@.len() == 7,
        "remove "@[0] == 'r' && "remove "@[1] == 'e' && "remove "@[2] == 'm' && "remove "@[3] == 'o'
            && "remove "@[4] == 'v' && "remove "@[5] == 'e' && "remove "@[6] == ' ',
        "remove file "@.len() == 12,
        "remove file "@[0] == 'r' && "remove file "@[1] == 'e' && "remove file "@[2] == 'm'
            && "remove file "@[3] == 'o' && "remove file "@[4] == 'v' && "remove file "@[5] == 'e'
            && "remove file "@[6] == ' ' && "remove file "@[7] == 'f' && "remove file "@[8] == 'i'
            && "remove file "@[9] == 'l' && "remove file "@[10] == 'e'
            && "remove file "@[11] == ' ',
        "show "@.len() == 5,
        "show "@[0] == 's' && "show "@[1] == 'h' && "show "@[2] == 'o' && "show "@[3] == 'w'
            && "show "@[4] == ' ',
        "show file "@.len() == 10,
        "show file "@[0] == 's' && "show file "@[1] == 'h' && "show file "@[2] == 'o'
            && "show file "@[3] == 'w' && "show file "@[4] == ' ' && "show file "@[5] == 'f'
            && "show file "@[6] == 'i' && "show file "@[7] == 'l' && "show file "@[8] == 'e'
            && "show file "@[9] == ' ',
        "switch to "@.len() == 10,
        "switch to "@[0] == 's' && "switch to "@[1] == 'w' && "switch to "@[2] == 'i'
            && "switch to "@[3] == 't' && "switch to "@[4] == 'c' && "switch to "@[5] == 'h'
            && "switch to "@[6] == ' ' && "switch to "@[7] == 't' && "switch to "@[8] == 'o'
            && "switch to "@[9] == ' ',
{
    reveal_strlit("/");
    reveal_strlit("/add_file ");
    reveal_strlit("/checkout ");
    reveal_strlit("/cherry_pick ");
    reveal_strlit("/delete ");
    reveal_strlit("/merge ");
    reveal_strlit("/model ");
    reveal_strlit("/move_file ");
    reveal_strlit("/open_file ");
    reveal_strlit("/remove_file ");
    reveal_strlit("/show_file ");
    reveal_strlit("add ");
    reveal_strlit("add file ");
    reveal_strlit("checkout ");
    reveal_strlit("cherry pick ");
    reveal_strlit("cherry-pick ");
    reveal_strlit("delete ");
    reveal_strlit("delete branch ");
    reveal_strlit("edit ");
    reveal_strlit("edit file ");
    reveal_strlit("git add ");
    reveal_strlit("git branch -D ");
    reveal_strlit("git checkout ");
    reveal_strlit("git cherry-pick ");
    reveal_strlit("git merge ");
    reveal_strlit("git mv ");
    reveal_strlit("git rm ");
    reveal_strlit("merge ");
    reveal_strlit("move ");
    reveal_strlit("move file ");
    reveal_strlit("open ");
    reveal_strlit("open file ");
    reveal_strlit("remove ");
    reveal_strlit("remove file ");
    reveal_strlit("show ");
    reveal_strlit("show file ");
    reveal_strlit("switch to ");
}

proof fn lemma_behind(p: Seq<char>, t: Seq<char>)
    ensures
        begins(p + t, p),
        begins_ci(p + t, p),
        (p + t).skip(p.len() as int) == t,
{
    let s = p + t;
    assert(p =~= s.subrange(0, p.len() as int));
    assert(s.take(p.len() as int) =~= p);
    assert(s.skip(p.len() as int) =~= t);
}

proof fn lemma_no_earlier_words(t: Seq<char>)
    requires
        last_word_start(t) == 0,
    ensures
        earlier_words(t).len() == 0,
        t.skip(0) == t,
{
    let none = Seq::<char>::empty();
    assert(t.take(0) =~= none);
    assert(t.skip(0) =~= t);
    assert(shell_pieces(none) == seq![none]);
    assert(seq![none].drop_last() =~= seq![]);
    assert(nonempty(seq![none].drop_last()).len() == 0);
    assert(nonempty(seq![none]).len() == 0);
}

proof fn lemma_goal_slash_open_file(t: Seq<char>, models: Seq<Seq<char>>)
    ensures
        completion_goal("/open_file "@ + t, models) == (CompletionGoal {
            start: 11,
            query: CompletionQuery::Files(t),
        }),
{
    lemma_letters();
    lemma_behind("/open_file "@, t);
    lemma_differ("/open_file "@ + t);
    lemma_slash_apart("/open_file "@ + t);
}

proof fn lemma_goal_open_file(t: Seq<char>, models: Seq<Seq<char>>)
    ensures
        completion_goal("open file "@ + t, models) == (CompletionGoal {
            start: 10,
            query: CompletionQuery::Files(t),
        }),
{
    lemma_letters();
    lemma_behind("open file "@, t);
    lemma_differ("open file "@ + t);
    lemma_slash_apart("open file "@ + t);
}

proof fn lemma_goal_open(t: Seq<char>, models: Seq<Seq<char>>)
    requires
        !begins_ci(t, "file "@),
    ensures
        completion_goal("open "@ + t, models) == (CompletionGoal {
            start: 5,
            query: CompletionQuery::Files(t),
        }),
{
    lemma_letters();
    lemma_behind("open "@, t);
    reveal_strlit("file ");
    assert("open "@ + "file "@ =~= "open file "@);
    lemma_longer_phrase("open "@, "file "@, t);
    lemma_differ("open "@ + t);
    lemma_slash_apart("open "@ + t);
}

proof fn lemma_goal_edit_file(t: Seq<char>, models: Seq<Seq<char>>)
    ensures
        completion_goal("edit file "@ + t, models) == (CompletionGoal {
            start: 10,
            query: CompletionQuery::Files(t),
        }),
{
    lemma_letters();
    lemma_behind("edit file "@, t);
    lemma_differ("edit file "@ + t);
    lemma_slash_apart("edit file "@ + t);
}

proof fn lemma_goal_edit(t: Seq<char>, models: Seq<Seq<char>>)
    requires
        !begins_ci(t, "file "@),
    ensures
        completion_goal("edit "@ + t, models) == (CompletionGoal {
            start: 5,
            query: CompletionQuery::Files(t),
        }),
{
    lemma_letters();
    lemma_behind("edit "@, t);
    reveal_strlit("file ");
    assert("edit "@ + "file "@ =~= "edit file "@);
    lemma_longer_phrase("edit "@, "file "@, t);
    lemma_differ("edit "@ + t);
    lemma_slash_apart("edit "@ + t);
}

proof fn lemma_goal_show_file(t: Seq<char>, models: Seq<Seq<char>>)
    ensures
        completion_goal("show file "@ + t, models) == (CompletionGoal {
            start: 10,
            query: CompletionQuery::Files(t),
        }),
{
    lemma_letters();
    lemma_behind("show file "@, t);
    lemma_differ("show file "@ + t);
    lemma_slash_apart("show file "@ + t);
}

proof fn lemma_goal_slash_checkout(t: Seq<char>, models: Seq<Seq<char>>)
    ensures
        completion_goal("/checkout "@ + t, models) == (CompletionGoal {
            start: 10,
            query: CompletionQuery::Checkout(t),
        }),
{
    lemma_letters();
    lemma_behind("/checkout "@, t);
    lemma_differ("/checkout "@ + t);
    lemma_slash_apart("/checkout "@ + t);
}

proof fn lemma_goal_git_checkout(t: Seq<char>, models: Seq<Seq<char>>)
    ensures
        completion_goal("git checkout "@ + t, models) == (CompletionGoal {
            start: 13,
            query: CompletionQuery::Checkout(t),
        }),
{
    lemma_letters();
    lemma_behind("git checkout "@, t);
    lemma_differ("git checkout "@ + t);
    lemma_slash_apart("git checkout "@ + t);
}

proof fn lemma_goal_checkout(t: Seq<char>, models: Seq<Seq<char>>)
    ensures
        completion_goal("checkout "@ + t, models) == (CompletionGoal {
            start: 9,
            query: CompletionQuery::Checkout(t),
        }),
{
    lemma_letters();
    lemma_behind("checkout "@, t);
    lemma_differ("checkout "@ + t);
    lemma_slash_apart("checkout "@ + t);
}

proof fn lemma_goal_switch_to(t: Seq<char>, models: Seq<Seq<char>>)
    ensures
        completion_goal("switch to "@ + t, models) == (CompletionGoal {
            start: 10,
            query: CompletionQuery::Switch(t),
        }),
{
    lemma_letters();
    lemma_behind("switch to "@, t);
    lemma_differ("switch to "@ + t);
    lemma_slash_apart("switch to "@ + t);
}

proof fn lemma_goal_slash_add_file(t: Seq<char>, models: Seq<Seq<char>>)
    ensures
        completion_goal("/add_file "@ + t, models) == (CompletionGoal {
            start: 10,
            query: CompletionQuery::UntrackedFiles(t),
        }),
{
    lemma_letters();
    lemma_behind("/add_file "@, t);
    lemma_differ("/add_file "@ + t);
    lemma_slash_apart("/add_file "@ + t);
}

proof fn lemma_goal_git_add(t: Seq<char>, models: Seq<Seq<char>>)
    ensures
        completion_goal("git add "@ + t, models) == (CompletionGoal {
            start: 8,
            query: CompletionQuery::UntrackedFiles(t),
        }),
{
    lemma_letters();
    lemma_behind("git add "@, t);
    lemma_differ("git add "@ + t);
    lemma_slash_apart("git add "@ + t);
}

proof fn lemma_goal_add_file(t: Seq<char>, models: Seq<Seq<char>>)
    ensures
        completion_goal("add file "@ + t, models) == (CompletionGoal {
            start: 9,
            query: CompletionQuery::UntrackedFiles(t),
        }),
{
    lemma_letters();
    lemma_behind("add file "@, t);
    lemma_differ("add file "@ + t);
    lemma_slash_apart("add file "@ + t);
}

proof fn lemma_goal_add(t: Seq<char>, models: Seq<Seq<char>>)
    requires
        !begins_ci(t, "file "@),
    ensures
        completion_goal("add "@ + t, models) == (CompletionGoal {
            start: 4,
            query: CompletionQuery::UntrackedFiles(t),
        }),
{
    lemma_letters();
    lemma_behind("add "@, t);
    reveal_strlit("file ");
    assert("add "@ + "file "@ =~= "add file "@);
    lemma_longer_phrase("add "@, "file "@, t);
    lemma_differ("add "@ + t);
    lemma_slash_apart("add "@ + t);
}

proof fn lemma_goal_slash_remove_file(t: Seq<char>, models: Seq<Seq<char>>)
    ensures
        completion_goal("/remove_file "@ + t, models) == (CompletionGoal {
            start: 13,
            query: CompletionQuery::TrackedFiles(t),
        }),
{
    lemma_letters();
    lemma_behind("/remove_file "@, t);
    lemma_differ("/remove_file "@ + t);
    lemma_slash_apart("/remove_file "@ + t);
}

proof fn lemma_goal_git_rm(t: Seq<char>, models: Seq<Seq<char>>)
    ensures
        completion_goal("git rm "@ + t, models) == (CompletionGoal {
            start: 7,
            query: CompletionQuery::TrackedFiles(t),
        }),
{
    lemma_letters();
    lemma_behind("git rm "@, t);
    lemma_differ("git rm "@ + t);
    lemma_slash_apart("git rm "@ + t);
}

proof fn lemma_goal_remove_file(t: Seq<char>, models: Seq<Seq<char>>)
    ensures
        completion_goal("remove file "@ + t, models) == (CompletionGoal {
            start: 12,
            query: CompletionQuery::TrackedFiles(t),
        }),
{
    lemma_letters();
    lemma_behind("remove file "@, t);
    lemma_differ("remove file "@ + t);
    lemma_slash_apart("remove file "@ + t);
}

proof fn lemma_goal_remove(t: Seq<char>, models: Seq<Seq<char>>)
    requires
        !begins_ci(t, "file "@),
    ensures
        completion_goal("remove "@ + t, models) == (CompletionGoal {
            start: 7,
            query: CompletionQuery::TrackedFiles(t),
        }),
{
    lemma_letters();
    lemma_behind("remove "@, t);
    reveal_strlit("file ");
    assert("remove "@ + "file "@ =~= "remove file "@);
    lemma_longer_phrase("remove "@, "file "@, t);
    lemma_differ("remove "@ + t);
    lemma_slash_apart("remove "@ + t);
}

proof fn lemma_goal_slash_cherry_pick(t: Seq<char>, models: Seq<Seq<char>>)
    ensures
        completion_goal("/cherry_pick "@ + t, models) == (CompletionGoal {
            start: 13,
            query: CompletionQuery::Commits(trimmed_start(t)),
        }),
{
    lemma_letters();
    lemma_behind("/cherry_pick "@, t);
    lemma_differ("/cherry_pick "@ + t);
    lemma_slash_apart("/cherry_pick "@ + t);
}

proof fn lemma_goal_git_cherry_dash_pick(t: Seq<char>, models: Seq<Seq<char>>)
    ensures
        completion_goal("git cherry-pick "@ + t, models) == (CompletionGoal {
            start: 16,
            query: CompletionQuery::Commits(trimmed_start(t)),
        }),
{
    lemma_letters();
    lemma_behind("git cherry-pick "@, t);
    lemma_differ("git cherry-pick "@ + t);
    lemma_slash_apart("git cherry-pick "@ + t);
}

proof fn lemma_goal_cherry_dash_pick(t: Seq<char>, models: Seq<Seq<char>>)
    ensures
        completion_goal("cherry-pick "@ + t, models) == (CompletionGoal {
            start: 12,
            query: CompletionQuery::Commits(trimmed_start(t)),
        }),
{
    lemma_letters();
    lemma_behind("cherry-pick "@, t);
    lemma_differ("cherry-pick "@ + t);
    lemma_slash_apart("cherry-pick "@ + t);
}

proof fn lemma_goal_cherry_pick(t: Seq<char>, models: Seq<Seq<char>>)
    ensures
        completion_goal("cherry pick "@ + t, models) == (CompletionGoal {
            start: 12,
            query: CompletionQuery::Commits(trimmed_start(t)),
        }),
{
    lemma_letters();
    lemma_behind("cherry pick "@, t);
    lemma_differ("cherry pick "@ + t);
    lemma_slash_apart("cherry pick "@ + t);
}

proof fn lemma_goal_slash_merge(t: Seq<char>, models: Seq<Seq<char>>)
    ensures
        completion_goal("/merge "@ + t, models) == (CompletionGoal {
            start: 7,
            query: CompletionQuery::Branches(t),
        }),
{
    lemma_letters();
    lemma_behind("/merge "@, t);
    lemma_differ("/merge "@ + t);
    lemma_slash_apart("/merge "@ + t);
}

proof fn lemma_goal_git_merge(t: Seq<char>, models: Seq<Seq<char>>)
    ensures
        completion_goal("git merge "@ + t, models) == (CompletionGoal {
            start: 10,
            query: CompletionQuery::Branches(t),
        }),
{
    lemma_letters();
    lemma_behind("git merge "@, t);
    lemma_differ("git merge "@ + t);
    lemma_slash_apart("git merge "@ + t);
}

proof fn lemma_goal_merge(t: Seq<char>, models: Seq<Seq<char>>)
    ensures
        completion_goal("merge "@ + t, models) == (CompletionGoal {
            start: 6,
            query: CompletionQuery::Branches(t),
        }),
{
    lemma_letters();
    lemma_behind("merge "@, t);
    lemma_differ("merge "@ + t);
    lemma_slash_apart("merge "@ + t);
}

proof fn lemma_goal_slash_delete(t: Seq<char>, models: Seq<Seq<char>>)
    ensures
        completion_goal("/delete "@ + t, models) == (CompletionGoal {
            start: 8,
            query: CompletionQuery::Deletable(t),
        }),
{
    lemma_letters();
    lemma_behind("/delete "@, t);
    lemma_differ("/delete "@ + t);
    lemma_slash_apart("/delete "@ + t);
}

proof fn lemma_goal_git_branch_d(t: Seq<char>, models: Seq<Seq<char>>)
    ensures
        completion_goal("git branch -D "@ + t, models) == (CompletionGoal {
            start: 14,
            query: CompletionQuery::Deletable(t),
        }),
{
    lemma_letters();
    lemma_behind("git branch -D "@, t);
    lemma_differ("git branch -D "@ + t);
    lemma_slash_apart("git branch -D "@ + t);
}

proof fn lemma_goal_delete_branch(t: Seq<char>, models: Seq<Seq<char>>)
    ensures
        completion_goal("delete branch "@ + t, models) == (CompletionGoal {
            start: 14,
            query: CompletionQuery::Deletable(t),
        }),
{
    lemma_letters();
    lemma_behind("delete branch "@, t);
    lemma_differ("delete branch "@ + t);
    lemma_slash_apart("delete branch "@ + t);
}

proof fn lemma_goal_delete(t: Seq<char>, models: Seq<Seq<char>>)
    requires
        !begins_ci(t, "branch "@),
    ensures
        completion_goal("delete "@ + t, models) == (CompletionGoal {
            start: 7,
            query: CompletionQuery::Deletable(t),
        }),
{
    lemma_letters();
    lemma_behind("delete "@, t);
    reveal_strlit("branch ");
    assert("delete "@ + "branch "@ =~= "delete branch "@);
    lemma_longer_phrase("delete "@, "branch "@, t);
    lemma_differ("delete "@ + t);
    lemma_slash_apart("delete "@ + t);
}

proof fn lemma_goal_slash_move_file(t: Seq<char>, models: Seq<Seq<char>>)
    ensures
        ({
            let goal = completion_goal("/move_file "@ + t, models);
            let word = t.skip(last_word_start(t));
            &&& goal.start == 11 + last_word_start(t)
            &&& goal.query == CompletionQuery::<Seq<char>, Seq<Seq<char>>>::TrackedFiles(word)
                || goal.query == CompletionQuery::<Seq<char>, Seq<Seq<char>>>::Directory(word)
            &&& last_word_start(t) == 0 ==> goal.query == CompletionQuery::<
                Seq<char>,
                Seq<Seq<char>>,
            >::TrackedFiles(t)
        }),
{
    lemma_letters();
    if last_word_start(t) == 0 {
        lemma_no_earlier_words(t);
    }
    lemma_behind("/move_file "@, t);
    lemma_differ("/move_file "@ + t);
    lemma_slash_apart("/move_file "@ + t);
}

proof fn lemma_goal_git_mv(t: Seq<char>, models: Seq<Seq<char>>)
    ensures
        ({
            let goal = completion_goal("git mv "@ + t, models);
            let word = t.skip(last_word_start(t));
            &&& goal.start == 7 + last_word_start(t)
            &&& goal.query == CompletionQuery::<Seq<char>, Seq<Seq<char>>>::TrackedFiles(word)
                || goal.query == CompletionQuery::<Seq<char>, Seq<Seq<char>>>::Directory(word)
            &&& last_word_start(t) == 0 ==> goal.query == CompletionQuery::<
                Seq<char>,
                Seq<Seq<char>>,
            >::TrackedFiles(t)
        }),
{
    lemma_letters();
    if last_word_start(t) == 0 {
        lemma_no_earlier_words(t);
    }
    lemma_behind("git mv "@, t);
    lemma_differ("git mv "@ + t);
    lemma_slash_apart("git mv "@ + t);
}

proof fn lemma_goal_move_file(t: Seq<char>, models: Seq<Seq<char>>)
    ensures
        ({
            let goal = completion_goal("move file "@ + t, models);
            let word = t.skip(last_word_start(t));
            &&& goal.start == 10 + last_word_start(t)
            &&& goal.query == CompletionQuery::<Seq<char>, Seq<Seq<char>>>::TrackedFiles(word)
                || goal.query == CompletionQuery::<Seq<char>, Seq<Seq<char>>>::Directory(word)
            &&& last_word_start(t) == 0 ==> goal.query == CompletionQuery::<
                Seq<char>,
                Seq<Seq<char>>,
            >::TrackedFiles(t)
        }),
{
    lemma_letters();
    if last_word_start(t) == 0 {
        lemma_no_earlier_words(t);
    }
    lemma_behind("move file "@, t);
    lemma_differ("move file "@ + t);
    lemma_slash_apart("move file "@ + t);
}

proof fn lemma_goal_move(t: Seq<char>, models: Seq<Seq<char>>)
    requires
        !begins_ci(t, "file "@),
    ensures
        ({
            let goal = completion_goal("move "@ + t, models);
            let word = t.skip(last_word_start(t));
            &&& goal.start == 5 + last_word_start(t)
            &&& goal.query == CompletionQuery::<Seq<char>, Seq<Seq<char>>>::TrackedFiles(word)
                || goal.query == CompletionQuery::<Seq<char>, Seq<Seq<char>>>::Directory(word)
            &&& last_word_start(t) == 0 ==> goal.query == CompletionQuery::<
                Seq<char>,
                Seq<Seq<char>>,
            >::TrackedFiles(t)
        }),
{
    lemma_letters();
    if last_word_start(t) == 0 {
        lemma_no_earlier_words(t);
    }
    lemma_behind("move "@, t);
    reveal_strlit("file ");
    assert("move "@ + "file "@ =~= "move file "@);
    lemma_longer_phrase("move "@, "file "@, t);
    lemma_differ("move "@ + t);
    lemma_slash_apart("move "@ + t);
}

/// Behind the phrases that open or show a file, whatever stands behind them is
/// completed to a file of the workspace.
pub proof fn law_files_to_open_are_completed(t: Seq<char>, models: Seq<Seq<char>>)
    ensures
        completion_goal("/open_file "@ + t, models) == (CompletionGoal {
            start: "/open_file "@.len() as int,
            query: CompletionQuery::Files(t),
        }),
        completion_goal("open file "@ + t, models) == (CompletionGoal {
            start: "open file "@.len() as int,
            query: CompletionQuery::Files(t),
        }),
        !begins_ci(t, "file "@) ==> completion_goal("open "@ + t, models) == (CompletionGoal {
            start: "open "@.len() as int,
            query: CompletionQuery::Files(t),
        }),
        completion_goal("edit file "@ + t, models) == (CompletionGoal {
            start: "edit file "@.len() as int,
            query: CompletionQuery::Files(t),
        }),
        !begins_ci(t, "file "@) ==> completion_goal("edit "@ + t, models) == (CompletionGoal {
            start: "edit "@.len() as int,
            query: CompletionQuery::Files(t),
        }),
        completion_goal("show file "@ + t, models) == (CompletionGoal {
            start: "show file "@.len() as int,
            query: CompletionQuery::Files(t),
        }),
{
    lemma_letters();
    lemma_goal_slash_open_file(t, models);
    lemma_goal_open_file(t, models);
    if !begins_ci(t, "file "@) {
        lemma_goal_open(t, models);
    }
    lemma_goal_edit_file(t, models);
    if !begins_ci(t, "file "@) {
        lemma_goal_edit(t, models);
    }
    lemma_goal_show_file(t, models);
}

/// Behind the phrases that check something out, whatever stands behind them is
/// completed to a branch or a file; behind `switch to`, to a branch or a tag.
pub proof fn law_checkouts_are_completed(t: Seq<char>, models: Seq<Seq<char>>)
    ensures
        completion_goal("/checkout "@ + t, models) == (CompletionGoal {
            start: "/checkout "@.len() as int,
            query: CompletionQuery::Checkout(t),
        }),
        completion_goal("git checkout "@ + t, models) == (CompletionGoal {
            start: "git checkout "@.len() as int,
            query: CompletionQuery::Checkout(t),
        }),
        completion_goal("checkout "@ + t, models) == (CompletionGoal {
            start: "checkout "@.len() as int,
            query: CompletionQuery::Checkout(t),
        }),
        completion_goal("switch to "@ + t, models) == (CompletionGoal {
            start: "switch to "@.len() as int,
            query: CompletionQuery::Switch(t),
        }),
{
    lemma_letters();
    lemma_goal_slash_checkout(t, models);
    lemma_goal_git_checkout(t, models);
    lemma_goal_checkout(t, models);
    lemma_goal_switch_to(t, models);
}

/// Behind the phrases that add a file, whatever stands behind them is completed
/// to a file that is not tracked.
pub proof fn law_files_to_add_are_completed(t: Seq<char>, models: Seq<Seq<char>>)
    ensures
        completion_goal("/add_file "@ + t, models) == (CompletionGoal {
            start: "/add_file "@.len() as int,
            query: CompletionQuery::UntrackedFiles(t),
        }),
        completion_goal("git add "@ + t, models) == (CompletionGoal {
            start: "git add "@.len() as int,
            query: CompletionQuery::UntrackedFiles(t),
        }),
        completion_goal("add file "@ + t, models) == (CompletionGoal {
            start: "add file "@.len() as int,
            query: CompletionQuery::UntrackedFiles(t),
        }),
        !begins_ci(t, "file "@) ==> completion_goal("add "@ + t, models) == (CompletionGoal {
            start: "add "@.len() as int,
            query: CompletionQuery::UntrackedFiles(t),
        }),
{
    lemma_letters();
    lemma_goal_slash_add_file(t, models);
    lemma_goal_git_add(t, models);
    lemma_goal_add_file(t, models);
    if !begins_ci(t, "file "@) {
        lemma_goal_add(t, models);
    }
}

/// Behind the phrases that remove a file, whatever stands behind them is
/// completed to a file that is tracked.
pub proof fn law_files_to_remove_are_completed(t: Seq<char>, models: Seq<Seq<char>>)
    ensures
        completion_goal("/remove_file "@ + t, models) == (CompletionGoal {
            start: "/remove_file "@.len() as int,
            query: CompletionQuery::TrackedFiles(t),
        }),
        completion_goal("git rm "@ + t, models) == (CompletionGoal {
            start: "git rm "@.len() as int,
            query: CompletionQuery::TrackedFiles(t),
        }),
        completion_goal("remove file "@ + t, models) == (CompletionGoal {
            start: "remove file "@.len() as int,
            query: CompletionQuery::TrackedFiles(t),
        }),
        !begins_ci(t, "file "@) ==> completion_goal("remove "@ + t, models) == (CompletionGoal {
            start: "remove "@.len() as int,
            query: CompletionQuery::TrackedFiles(t),
        }),
{
    lemma_letters();
    lemma_goal_slash_remove_file(t, models);
    lemma_goal_git_rm(t, models);
    lemma_goal_remove_file(t, models);
    if !begins_ci(t, "file "@) {
        lemma_goal_remove(t, models);
    }
}

/// Behind the phrases that pick a commit, whatever stands behind them is
/// completed to a commit.
pub proof fn law_commits_are_completed(t: Seq<char>, models: Seq<Seq<char>>)
    ensures
        completion_goal("/cherry_pick "@ + t, models) == (CompletionGoal {
            start: "/cherry_pick "@.len() as int,
            query: CompletionQuery::Commits(trimmed_start(t)),
        }),
        completion_goal("git cherry-pick "@ + t, models) == (CompletionGoal {
            start: "git cherry-pick "@.len() as int,
            query: CompletionQuery::Commits(trimmed_start(t)),
        }),
        completion_goal("cherry-pick "@ + t, models) == (CompletionGoal {
            start: "cherry-pick "@.len() as int,
            query: CompletionQuery::Commits(trimmed_start(t)),
        }),
        completion_goal("cherry pick "@ + t, models) == (CompletionGoal {
            start: "cherry pick "@.len() as int,
            query: CompletionQuery::Commits(trimmed_start(t)),
        }),
{
    lemma_letters();
    lemma_goal_slash_cherry_pick(t, models);
    lemma_goal_git_cherry_dash_pick(t, models);
    lemma_goal_cherry_dash_pick(t, models);
    lemma_goal_cherry_pick(t, models);
}

/// Behind the phrases that merge a branch, whatever stands behind them is
/// completed to a branch.
pub proof fn law_branches_to_merge_are_completed(t: Seq<char>, models: Seq<Seq<char>>)
    ensures
        completion_goal("/merge "@ + t, models) == (CompletionGoal {
            start: "/merge "@.len() as int,
            query: CompletionQuery::Branches(t),
        }),
        completion_goal("git merge "@ + t, models) == (CompletionGoal {
            start: "git merge "@.len() as int,
            query: CompletionQuery::Branches(t),
        }),
        completion_goal("merge "@ + t, models) == (CompletionGoal {
            start: "merge "@.len() as int,
            query: CompletionQuery::Branches(t),
        }),
{
    lemma_letters();
    lemma_goal_slash_merge(t, models);
    lemma_goal_git_merge(t, models);
    lemma_goal_merge(t, models);
}

/// Behind the phrases that delete a branch, whatever stands behind them is
/// completed to a local branch that may be deleted.
pub proof fn law_branches_to_delete_are_completed(t: Seq<char>, models: Seq<Seq<char>>)
    ensures
        completion_goal("/delete "@ + t, models) == (CompletionGoal {
            start: "/delete "@.len() as int,
            query: CompletionQuery::Deletable(t),
        }),
        completion_goal("git branch -D "@ + t, models) == (CompletionGoal {
            start: "git branch -D "@.len() as int,
            query: CompletionQuery::Deletable(t),
        }),
        completion_goal("delete branch "@ + t, models) == (CompletionGoal {
            start: "delete branch "@.len() as int,
            query: CompletionQuery::Deletable(t),
        }),
        !begins_ci(t, "branch "@) ==> completion_goal("delete "@ + t, models) == (CompletionGoal {
            start: "delete "@.len() as int,
            query: CompletionQuery::Deletable(t),
        }),
{
    lemma_letters();
    lemma_goal_slash_delete(t, models);
    lemma_goal_git_branch_d(t, models);
    lemma_goal_delete_branch(t, models);
    if !begins_ci(t, "branch "@) {
        lemma_goal_delete(t, models);
    }
}

/// Behind the phrases that move a file, the last word is completed: the first one
/// to a file that is tracked.
pub proof fn law_files_to_move_are_completed(t: Seq<char>, models: Seq<Seq<char>>)
    requires
        last_word_start(t) == 0,
    ensures
        completion_goal("/move_file "@ + t, models) == (CompletionGoal {
            start: "/move_file "@.len() as int,
            query: CompletionQuery::TrackedFiles(t),
        }),
        completion_goal("git mv "@ + t, models) == (CompletionGoal {
            start: "git mv "@.len() as int,
            query: CompletionQuery::TrackedFiles(t),
        }),
        completion_goal("move file "@ + t, models) == (CompletionGoal {
            start: "move file "@.len() as int,
            query: CompletionQuery::TrackedFiles(t),
        }),
        !begins_ci(t, "file "@) ==> completion_goal("move "@ + t, models) == (CompletionGoal {
            start: "move "@.len() as int,
            query: CompletionQuery::TrackedFiles(t),
        }),
{
    lemma_letters();
    assert(t.skip(0) =~= t);
    lemma_goal_slash_move_file(t, models);
    lemma_goal_git_mv(t, models);
    lemma_goal_move_file(t, models);
    if !begins_ci(t, "file "@) {
        lemma_goal_move(t, models);
    }
}

/// Behind `/model` the names of the models are offered that begin with what
/// stands there.
pub proof fn law_models_are_completed(t: Seq<char>, models: Seq<Seq<char>>)
    ensures
        completion_goal("/model "@ + t, models) == (CompletionGoal {
            start: "/model "@.len() as int,
            query: CompletionQuery::Listed(starting_with(models, t)),
        }),
{
    lemma_letters();
    lemma_behind("/model "@, t);
    lemma_differ("/model "@ + t);
    lemma_slash_apart("/model "@ + t);
}

/// A word that begins with a slash is completed to a command, as a whole.
pub proof fn law_slash_words_are_completed(t: Seq<char>, models: Seq<Seq<char>>)
    requires
        !t.contains(' '),
    ensures
        completion_goal("/"@ + t, models) == (CompletionGoal {
            start: 0,
            query: CompletionQuery::Listed(starting_with(command_names(), "/"@ + t)),
        }),
{
    lemma_letters();
    let p = "/"@ + t;
    lemma_behind("/"@, t);
    lemma_differ(p);
    assert(!p.contains(' ')) by {
        if p.contains(' ') {
            let i = choose|i: int| 0 <= i < p.len() && p[i] == ' ';
            assert(t[i - 1] == ' ');
        }
    }
    assert forall|q: Seq<char>| q.contains(' ') implies !#[trigger] begins(p, q) by {
        if begins(p, q) {
            let i = choose|i: int| 0 <= i < q.len() && q[i] == ' ';
            lemma_begins_at(p, q);
            assert(p[i] == ' ');
        }
    }
    assert("/add_file "@[9] == ' ' && "/add_file "@.contains(' '));
    assert("/checkout "@[9] == ' ' && "/checkout "@.contains(' '));
    assert("/cherry_pick "@[12] == ' ' && "/cherry_pick "@.contains(' '));
    assert("/delete "@[7] == ' ' && "/delete "@.contains(' '));
    assert("/merge "@[6] == ' ' && "/merge "@.contains(' '));
    assert("/model "@[6] == ' ' && "/model "@.contains(' '));
    assert("/move_file "@[10] == ' ' && "/move_file "@.contains(' '));
    assert("/open_file "@[10] == ' ' && "/open_file "@.contains(' '));
    assert("/remove_file "@[12] == ' ' && "/remove_file "@.contains(' '));
    assert("/show_file "@[10] == ' ' && "/show_file "@.contains(' '));
}

/// In a line that is no command, the last word is completed to a path.
pub proof fn law_other_words_are_completed_to_paths(p: Seq<char>, models: Seq<Seq<char>>)
    requires
        p.len() > 0,
        begins_strangely(p),
        p[0] != '/',
    ensures
        ({
            let goal = completion_goal(p, models);
            &&& 0 <= goal.start <= p.len()
            &&& goal.query == CompletionQuery::<Seq<char>, Seq<Seq<char>>>::Directory(
                p.skip(goal.start),
            )
            &&& goal.start > 0 ==> whitespace(p[goal.start - 1])
            &&& forall|i: int| goal.start <= i < p.len() ==> !whitespace(#[trigger] p[i])
        }),
{
    lemma_letters();
    lemma_differ(p);
    lemma_slash_apart(p);
    lemma_last_gap(p);
    assert(!"/"@.is_prefix_of(p)) by {
        if "/"@.is_prefix_of(p) {
            assert(p.subrange(0, 1)[0] == p[0]);
        }
    }
}

proof fn lemma_last_gap(s: Seq<char>)
    ensures
        0 <= last_gap(s) <= s.len(),
        last_gap(s) > 0 ==> whitespace(s[last_gap(s) - 1]),
        forall|i: int| last_gap(s) <= i < s.len() ==> !whitespace(#[trigger] s[i]),
    decreases s.len(),
{
    if s.len() > 0 && !whitespace(s.last()) {
        lemma_last_gap(s.drop_last());
        assert forall|i: int| last_gap(s) <= i < s.len() implies !whitespace(#[trigger] s[i]) by {
            if i < s.len() - 1 {
                assert(s.drop_last()[i] == s[i]);
            }
        }
    }
}

} // verus!
