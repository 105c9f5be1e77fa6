//! Where a repository is, what is checked out in it, and plain paths.
use vstd::prelude::*;
use vstd::string::*;

use crate::text::{after_prefix, opt_text, strip_prefix, trim, trimmed};

verus! {

/// What stands at the place of a repository's own directory.
#[derive(Debug, PartialEq, Eq)]
pub enum GitEntry<T> {
    /// Nothing.
    Missing,
    /// The directory itself.
    Directory,
    /// A file that names the directory; it may be unreadable.
    File(Option<T>),
}

impl View for GitEntry<String> {
    type V = GitEntry<Seq<char>>;

    open spec fn view(&self) -> GitEntry<Seq<char>> {
        match *self {
            GitEntry::Missing => GitEntry::Missing,
            GitEntry::Directory => GitEntry::Directory,
            GitEntry::File(o) => GitEntry::File(opt_text(o)),
        }
    }
}

/// The views of what stands at several places.
pub open spec fn entry_views(v: Seq<GitEntry<String>>) -> Seq<GitEntry<Seq<char>>> {
    v.map_values(|e: GitEntry<String>| e@)
}

/// The directory that a file names.
pub open spec fn gitdir_in(content: Seq<char>) -> Option<Seq<char>> {
    match after_prefix(trimmed(content), "gitdir: "@) {
        Some(rest) => Some(trimmed(rest)),
        None => None,
    }
}

/// Reads the directory that a file names.
pub fn parse_gitdir(content: &str) -> (r: Option<String>)
    ensures
        opt_text(r) == gitdir_in(content@),
{
    match strip_prefix(trim(content), "gitdir: ") {
        Some(rest) => Some(trim(rest).to_string()),
        None => None,
    }
}

/// A repository: at which of the places looked at, and the directory that a file
/// there names, if it is not the usual one.
#[derive(Debug, PartialEq, Eq)]
pub struct FoundRepository<T> {
    pub place: usize,
    pub directory: Option<T>,
}

/// The repository that the first place with any entry leads to.
pub open spec fn repository_at(entries: Seq<GitEntry<Seq<char>>>, from: int) -> Option<
    FoundRepository<Seq<char>>,
>
    decreases entries.len() - from,
{
    if from < 0 || from >= entries.len() {
        None
    } else {
        match entries[from] {
            GitEntry::Missing => repository_at(entries, from + 1),
            GitEntry::Directory => Some(FoundRepository { place: from as usize, directory: None }),
            GitEntry::File(Some(content)) => match gitdir_in(content) {
                Some(directory) => Some(
                    FoundRepository { place: from as usize, directory: Some(directory) },
                ),
                None => None,
            },
            GitEntry::File(None) => None,
        }
    }
}

/// Looks for the repository of a workspace, given what stands in the workspace
/// and then in each directory above it.
pub fn discover_git_repository(entries: &Vec<GitEntry<String>>) -> (r: Option<
    FoundRepository<String>,
>)
    ensures
        match r {
            Some(found) => found.place < entries@.len() && repository_at(
                entry_views(entries@),
                0,
            ) == Some(
                FoundRepository { place: found.place, directory: opt_text(found.directory) },
            ),
            None => repository_at(entry_views(entries@), 0) is None,
        },
{
    let mut i: usize = 0;
    let ghost all = entry_views(entries@);
    while i < entries.len()
        invariant
            i <= entries@.len(),
            all == entry_views(entries@),
            repository_at(all, 0) == repository_at(all, i as int),
        decreases entries.len() - i,
    {
        assert(all[i as int] == entries@[i as int]@);
        match &entries[i] {
            GitEntry::Missing => {},
            GitEntry::Directory => {
                return Some(FoundRepository { place: i, directory: None });
            },
            GitEntry::File(content) => {
                return match content {
                    Some(text) => match parse_gitdir(text.as_str()) {
                        Some(directory) => Some(
                            FoundRepository { place: i, directory: Some(directory) },
                        ),
                        None => None,
                    },
                    None => None,
                };
            },
        }
        i += 1;
    }
    None
}

/// The branch that the head of a repository points to.
pub open spec fn branch_in(head: Seq<char>) -> Option<Seq<char>> {
    match after_prefix(trimmed(head), "ref: "@) {
        Some(reference) => after_prefix(reference, "refs/heads/"@),
        None => None,
    }
}

/// Reads the branch that the head of a repository points to.
pub fn workspace_branch_name(head: &str) -> (r: Option<String>)
    ensures
        opt_text(r) == branch_in(head@),
{
    match strip_prefix(trim(head), "ref: ") {
        Some(reference) => match strip_prefix(reference, "refs/heads/") {
            Some(branch) => Some(branch.to_string()),
            None => None,
        },
        None => None,
    }
}

/// A part of a path; its text is of the type `T`.
#[derive(Debug, PartialEq, Eq)]
pub enum PathComponent<T> {
    Prefix(T),
    Root,
    Current,
    Parent,
    Normal(T),
}

impl View for PathComponent<String> {
    type V = PathComponent<Seq<char>>;

    open spec fn view(&self) -> PathComponent<Seq<char>> {
        match *self {
            PathComponent::Prefix(t) => PathComponent::Prefix(t@),
            PathComponent::Root => PathComponent::Root,
            PathComponent::Current => PathComponent::Current,
            PathComponent::Parent => PathComponent::Parent,
            PathComponent::Normal(t) => PathComponent::Normal(t@),
        }
    }
}

/// The views of the parts of a path.
pub open spec fn component_views(v: Seq<PathComponent<String>>) -> Seq<PathComponent<Seq<char>>> {
    v.map_values(|c: PathComponent<String>| c@)
}

/// A path without parts that lead back. A step to the parent takes the part
/// before it away; above the root there is nothing to take.
pub open spec fn normalized(parts: Seq<PathComponent<Seq<char>>>) -> Seq<PathComponent<Seq<char>>>
    decreases parts.len(),
{
    if parts.len() == 0 {
        seq![]
    } else {
        let done = normalized(parts.drop_last());
        match parts.last() {
            PathComponent::Current => done,
            PathComponent::Parent => if done.len() > 0 && done.last() is Normal {
                done.drop_last()
            } else {
                done
            },
            PathComponent::Prefix(_) => seq![parts.last()],
            PathComponent::Root => if done.len() > 0 && done.last() is Prefix {
                done.push(PathComponent::Root)
            } else {
                seq![PathComponent::Root]
            },
            PathComponent::Normal(_) => done.push(parts.last()),
        }
    }
}

/// Takes the parts of a path that lead back away.
pub fn normalize_path(parts: Vec<PathComponent<String>>) -> (r: Vec<PathComponent<String>>)
    ensures
        component_views(r@) == normalized(component_views(parts@)),
{
    let mut done: Vec<PathComponent<String>> = Vec::new();
    let mut rest = parts;
    let ghost all = component_views(parts@);
    let mut queue: Vec<PathComponent<String>> = Vec::new();
    // The parts are taken from the back of a reversed list.
    while rest.len() > 0
        invariant
            component_views(rest@) + component_views(queue@).reverse() == all,
        decreases rest.len(),
    {
        let ghost before_rest = rest@;
        let ghost before_queue = queue@;
        match rest.pop() {
            Some(part) => {
                queue.push(part);
                assert(component_views(rest@) + component_views(queue@).reverse()
                    =~= component_views(before_rest) + component_views(before_queue).reverse());
            },
            None => {},
        }
    }
    assert(component_views(queue@).reverse() =~= all);
    let ghost total = queue@.len() as int;
    assert(component_views(done@) =~= normalized(all.take(0)));
    while queue.len() > 0
        invariant
            queue@.len() <= total,
            total == all.len(),
            forall|j: int|
                0 <= j < queue@.len() ==> (#[trigger] queue@[j])@ == all[total - 1 - j],
            component_views(done@) == normalized(all.take(total - queue@.len())),
        decreases queue.len(),
    {
        let ghost k = total - queue@.len();
        assert(all.take(k + 1).drop_last() =~= all.take(k));
        assert(queue@[queue@.len() - 1]@ == all[k]);
        assert(all.take(k + 1).last() == all[k]);
        let ghost before = done@;
        proof {
            if before.len() > 0 {
                assert(component_views(before).last() == before.last()@);
            }
        }
        match queue.pop() {
            Some(part) => {
                match part {
                    PathComponent::Current => {},
                    PathComponent::Parent => {
                        let n = done.len();
                        let normal = n > 0 && match &done[n - 1] {
                            PathComponent::Normal(_) => true,
                            _ => false,
                        };
                        if normal {
                            let _ = done.pop();
                            assert(component_views(done@) =~= component_views(before).drop_last());
                        }
                    },
                    PathComponent::Prefix(text) => {
                        done = Vec::new();
                        done.push(PathComponent::Prefix(text));
                        assert(component_views(done@) =~= seq![PathComponent::Prefix(text@)]);
                    },
                    PathComponent::Root => {
                        let n = done.len();
                        let prefixed = n > 0 && match &done[n - 1] {
                            PathComponent::Prefix(_) => true,
                            _ => false,
                        };
                        if !prefixed {
                            done = Vec::new();
                        }
                        done.push(PathComponent::Root);
                        if prefixed {
                            assert(component_views(done@) =~= component_views(before).push(
                                PathComponent::Root,
                            ));
                        } else {
                            assert(component_views(done@) =~= seq![PathComponent::Root]);
                        }
                    },
                    PathComponent::Normal(text) => {
                        done.push(PathComponent::Normal(text));
                        assert(component_views(done@) =~= component_views(before).push(
                            PathComponent::Normal(text@),
                        ));
                    },
                }
            },
            None => {},
        }
    }
    assert(all.take(total) =~= all);
    done
}

/// What is left of a path has no parts that lead back.
pub proof fn law_normal_paths_never_lead_back(parts: Seq<PathComponent<Seq<char>>>, i: int)
    requires
        0 <= i < normalized(parts).len(),
    ensures
        !(normalized(parts)[i] is Parent),
        !(normalized(parts)[i] is Current),
    decreases parts.len(),
{
    if parts.len() > 0 {
        let done = normalized(parts.drop_last());
        if i < done.len() {
            law_normal_paths_never_lead_back(parts.drop_last(), i);
        }
    }
}

} // verus!
