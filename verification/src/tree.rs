//! The files of a workspace as a tree.
use vstd::prelude::*;
use vstd::string::*;

use crate::order::{lemma_order_of, order_of, sort_order, within};
use crate::text::{ascii_lower, concat3, join, joined, lemma_texts_push, str_eq, texts};

verus! {

/// The text in lower case.
pub uninterp spec fn lowercase(s: Seq<char>) -> Seq<char>;

/// `str::to_lowercase` maps a text to lower case by the properties of its
/// characters, and has the name `lowercase`. In a text of ASCII characters each
/// letter is mapped by itself.
#[verifier::external_body]
fn to_lowercase(s: &str) -> (r: String)
    ensures
        r@ == lowercase(s@),
        (forall|i: int| 0 <= i < s@.len() ==> #[trigger] s@[i] <= '\u{7f}') ==> r@
            == s@.map_values(|c: char| ascii_lower(c)),
{
    s.to_lowercase()
}

/// An entry of a directory, with the entries below it.
pub struct TreeEntry {
    pub name: String,
    pub is_dir: bool,
    pub is_file: bool,
    pub children: Vec<TreeEntry>,
}

/// Whether an entry is listed: all are but the directories of git and of
/// builds.
pub open spec fn is_listed(name: Seq<char>, is_dir: bool) -> bool {
    !(is_dir && (name == ".git"@ || name == "build"@ || name == "target"@))
}

/// Tells whether an entry is listed.
pub fn should_include_listed_path(file_name: &str, is_dir: bool) -> (r: bool)
    ensures
        r == is_listed(file_name@, is_dir),
{
    !(is_dir && (str_eq(file_name, ".git") || str_eq(file_name, "build") || str_eq(
        file_name,
        "target",
    )))
}

/// What entries are ordered by: files come last, and then the names decide,
/// whatever their case.
pub open spec fn tree_key(entry: TreeEntry) -> Seq<char> {
    seq![if entry.is_file { '1' } else { '0' }] + lowercase(entry.name@)
}

/// The keys of entries.
pub open spec fn tree_keys(entries: Seq<TreeEntry>) -> Seq<Seq<char>> {
    entries.map_values(|e: TreeEntry| tree_key(e))
}

/// The positions of an order whose entries are listed.
pub open spec fn listed_only(order: Seq<int>, entries: Seq<TreeEntry>) -> Seq<int>
    decreases order.len(),
{
    if order.len() == 0 {
        seq![]
    } else {
        let rest = listed_only(order.drop_last(), entries);
        let entry = entries[order.last()];
        if is_listed(entry.name@, entry.is_dir) {
            rest.push(order.last())
        } else {
            rest
        }
    }
}

/// The positions of the entries that are listed, in the order in which they
/// are. Entries with equal keys keep their order.
pub open spec fn listing_order(entries: Seq<TreeEntry>) -> Seq<int> {
    listed_only(order_of(tree_keys(entries)), entries)
}

proof fn lemma_listed_only(order: Seq<int>, entries: Seq<TreeEntry>)
    requires
        within(order, entries.len() as int),
    ensures
        within(listed_only(order, entries), entries.len() as int),
    decreases order.len(),
{
    if order.len() > 0 {
        let init = order.drop_last();
        assert(within(init, entries.len() as int)) by {
            assert forall|i: int| 0 <= i < init.len() implies 0 <= #[trigger] init[i]
                < entries.len() by {
                assert(init[i] == order[i]);
            }
        }
        lemma_listed_only(init, entries);
        assert(0 <= order[order.len() - 1] < entries.len());
    }
}

pub proof fn lemma_listing_order(entries: Seq<TreeEntry>)
    ensures
        within(listing_order(entries), entries.len() as int),
{
    lemma_order_of(tree_keys(entries));
    lemma_listed_only(order_of(tree_keys(entries)), entries);
}

/// What stands before the name of an entry.
pub open spec fn branch_mark(last: bool) -> Seq<char> {
    if last {
        "└── "@
    } else {
        "├── "@
    }
}

/// What stands before the entries below an entry.
pub open spec fn trunk_mark(last: bool) -> Seq<char> {
    if last {
        "    "@
    } else {
        "│   "@
    }
}

/// The lines of the first `k` entries that are listed, each with the lines of
/// what is below it.
pub open spec fn tree_lines(entries: Seq<TreeEntry>, prefix: Seq<char>, k: int) -> Seq<Seq<char>>
    decreases entries, k,
{
    let order = listing_order(entries);
    if k <= 0 || k > order.len() {
        seq![]
    } else {
        proof {
            lemma_listing_order(entries);
            assert(0 <= order[k - 1] < entries.len());
        }
        let entry = entries[order[k - 1]];
        let last = k == order.len();
        let line = prefix + branch_mark(last) + entry.name@;
        let below = if entry.is_dir {
            tree_lines(
                entry.children@,
                prefix + trunk_mark(last),
                listing_order(entry.children@).len() as int,
            )
        } else {
            seq![]
        };
        tree_lines(entries, prefix, k - 1).push(line) + below
    }
}

fn find_listing_order(entries: &Vec<TreeEntry>) -> (r: Vec<usize>)
    ensures
        r@.map_values(|i: usize| i as int) == listing_order(entries@),
        forall|i: int| 0 <= i < r@.len() ==> (#[trigger] r@[i]) < entries@.len(),
{
    let mut keys: Vec<String> = Vec::new();
    let mut i: usize = 0;
    while i < entries.len()
        invariant
            i <= entries@.len(),
            texts(keys@) == tree_keys(entries@).take(i as int),
        decreases entries.len() - i,
    {
        let mut key = String::new();
        key.push(
            if entries[i].is_file {
                '1'
            } else {
                '0'
            },
        );
        let lower = to_lowercase(entries[i].name.as_str());
        key.append(lower.as_str());
        let ghost before = keys@;
        keys.push(key);
        proof {
            lemma_texts_push(before, key);
            assert(key@ =~= tree_keys(entries@)[i as int]);
            assert(texts(keys@) =~= tree_keys(entries@).take(i + 1));
        }
        i += 1;
    }
    assert(tree_keys(entries@).take(entries@.len() as int) =~= tree_keys(entries@));
    let order = sort_order(&keys);
    let ghost all = order@.map_values(|i: usize| i as int);
    let mut r: Vec<usize> = Vec::new();
    let mut j: usize = 0;
    assert(texts(keys@).len() == keys@.len());
    assert(r@.map_values(|i: usize| i as int) =~= listed_only(all.take(0), entries@));
    while j < order.len()
        invariant
            j <= order@.len(),
            all == order@.map_values(|i: usize| i as int),
            forall|i: int| 0 <= i < order@.len() ==> (#[trigger] order@[i]) < entries@.len(),
            r@.map_values(|i: usize| i as int) == listed_only(all.take(j as int), entries@),
            forall|i: int| 0 <= i < r@.len() ==> (#[trigger] r@[i]) < entries@.len(),
        decreases order.len() - j,
    {
        assert(all.take(j + 1).drop_last() =~= all.take(j as int));
        let at = order[j];
        assert(all.take(j + 1).last() == at as int);
        if should_include_listed_path(entries[at].name.as_str(), entries[at].is_dir) {
            let ghost before = r@;
            r.push(at);
            assert(r@.map_values(|i: usize| i as int) =~= before.map_values(
                |i: usize| i as int,
            ).push(at as int));
        }
        j += 1;
    }
    assert(all.take(order@.len() as int) =~= all);
    r
}

/// The lines of the entries of a directory.
pub fn append_workspace_tree(entries: &Vec<TreeEntry>, prefix: &str) -> (r: Vec<String>)
    ensures
        texts(r@) == tree_lines(entries@, prefix@, listing_order(entries@).len() as int),
    decreases entries,
{
    let order = find_listing_order(entries);
    let ghost ids = order@.map_values(|i: usize| i as int);
    let mut r: Vec<String> = Vec::new();
    let mut k: usize = 0;
    assert(texts(r@) =~= tree_lines(entries@, prefix@, 0));
    while k < order.len()
        invariant
            k <= order@.len(),
            ids == order@.map_values(|i: usize| i as int),
            ids == listing_order(entries@),
            forall|i: int| 0 <= i < order@.len() ==> (#[trigger] order@[i]) < entries@.len(),
            texts(r@) == tree_lines(entries@, prefix@, k as int),
        decreases order.len() - k,
    {
        let at = order[k];
        assert(ids[k as int] == at as int);
        let last = k + 1 == order.len();
        let mark = if last {
            "└── "
        } else {
            "├── "
        };
        let line = concat3(prefix, mark, entries[at].name.as_str());
        let ghost before = r@;
        r.push(line);
        proof {
            lemma_texts_push(before, line);
        }
        if entries[at].is_dir {
            let trunk = if last {
                "    "
            } else {
                "│   "
            };
            let deeper = concat3(prefix, trunk, "");
            proof {
                reveal_strlit("");
                assert(deeper@ =~= prefix@ + trunk_mark(last));
            }
            let mut below = append_workspace_tree(&entries[at].children, deeper.as_str());
            let ghost first = texts(r@);
            let ghost second = texts(below@);
            r.append(&mut below);
            assert(texts(r@) =~= first + second);
        } else {
            assert(texts(r@) + Seq::<Seq<char>>::empty() =~= texts(r@));
        }
        k += 1;
    }
    r
}

/// The tree of a workspace: its name, and its entries below it.
pub fn list_workspace_files_tree(workspace: &str, entries: &Vec<TreeEntry>) -> (r: String)
    ensures
        r@ == joined(
            seq![workspace@] + tree_lines(
                entries@,
                Seq::empty(),
                listing_order(entries@).len() as int,
            ),
            "\n"@,
        ),
{
    let mut lines: Vec<String> = Vec::new();
    lines.push(workspace.to_string());
    proof {
        reveal_strlit("");
        assert(""@ =~= Seq::<char>::empty());
    }
    let mut rest = append_workspace_tree(entries, "");
    let ghost second = texts(rest@);
    lines.append(&mut rest);
    assert(texts(lines@) =~= seq![workspace@] + second);
    join(&lines, "\n")
}

} // verus!
