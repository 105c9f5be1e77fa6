//! Model profiles: looking them up, and telling them to the user.
use vstd::prelude::*;
use vstd::string::*;

use crate::order::{order_of, sort_order, sort_texts, sorted_texts};
use crate::text::{join, joined, lemma_texts_push, str_eq, texts};

verus! {

/// How a model is reached; the texts are of the type `T`. The endpoint comes
/// twice: as it is configured, and in the form in which it is called.
#[derive(Debug, PartialEq, Eq)]
pub struct Profile<T> {
    pub name: T,
    pub provider: T,
    pub model: T,
    pub endpoint: T,
    pub normalized_endpoint: T,
    pub system_prompt: T,
}

impl View for Profile<String> {
    type V = Profile<Seq<char>>;

    open spec fn view(&self) -> Profile<Seq<char>> {
        Profile {
            name: self.name@,
            provider: self.provider@,
            model: self.model@,
            endpoint: self.endpoint@,
            normalized_endpoint: self.normalized_endpoint@,
            system_prompt: self.system_prompt@,
        }
    }
}

/// The position of the profile with a name, from a position on.
pub open spec fn position_of(list: Seq<Profile<Seq<char>>>, name: Seq<char>, from: int) -> Option<int>
    decreases list.len() - from,
{
    if from < 0 || from >= list.len() {
        None
    } else if list[from].name == name {
        Some(from)
    } else {
        position_of(list, name, from + 1)
    }
}

/// The profile with a name.
pub open spec fn profile_named(list: Seq<Profile<Seq<char>>>, name: Seq<char>) -> Option<
    Profile<Seq<char>>,
> {
    match position_of(list, name, 0) {
        Some(i) => Some(list[i]),
        None => None,
    }
}

/// The names of profiles.
pub open spec fn profile_names(list: Seq<Profile<Seq<char>>>) -> Seq<Seq<char>> {
    list.map_values(|p: Profile<Seq<char>>| p.name)
}

/// Profiles with another one among them: it takes the place of one with its
/// name.
pub open spec fn with_profile(list: Seq<Profile<Seq<char>>>, profile: Profile<Seq<char>>) -> Seq<
    Profile<Seq<char>>,
> {
    match position_of(list, profile.name, 0) {
        Some(i) => list.update(i, profile),
        None => list.push(profile),
    }
}

/// Whether no name occurs twice.
pub open spec fn distinct_names(list: Seq<Profile<Seq<char>>>) -> bool {
    forall|i: int, j: int|
        0 <= i < j < list.len() ==> (#[trigger] list[i]).name != (#[trigger] list[j]).name
}

proof fn lemma_position(list: Seq<Profile<Seq<char>>>, name: Seq<char>, from: int)
    requires
        0 <= from <= list.len(),
    ensures
        match position_of(list, name, from) {
            Some(i) => from <= i < list.len() && list[i].name == name && forall|j: int|
                from <= j < i ==> (#[trigger] list[j]).name != name,
            None => forall|j: int| from <= j < list.len() ==> (#[trigger] list[j]).name != name,
        },
    decreases list.len() - from,
{
    if from < list.len() && list[from].name != name {
        lemma_position(list, name, from + 1);
    }
}

proof fn lemma_position_is(list: Seq<Profile<Seq<char>>>, name: Seq<char>, from: int, i: int)
    requires
        0 <= from <= i < list.len(),
        list[i].name == name,
        forall|j: int| from <= j < i ==> (#[trigger] list[j]).name != name,
    ensures
        position_of(list, name, from) == Some(i),
    decreases i - from,
{
    if from < i {
        lemma_position_is(list, name, from + 1, i);
    }
}

/// The configured profiles.
pub struct Profiles {
    list: Vec<Profile<String>>,
}

impl View for Profiles {
    type V = Seq<Profile<Seq<char>>>;

    closed spec fn view(&self) -> Seq<Profile<Seq<char>>> {
        self.list@.map_values(|p: Profile<String>| p@)
    }
}

impl Profiles {
    /// No name occurs twice.
    pub open spec fn wf(&self) -> bool {
        distinct_names(self@)
    }

    /// No profiles.
    pub fn new() -> (r: Self)
        ensures
            r.wf(),
            r@ == Seq::<Profile<Seq<char>>>::empty(),
    {
        let r = Profiles { list: Vec::new() };
        assert(r@ =~= Seq::<Profile<Seq<char>>>::empty());
        r
    }

    fn find(&self, name: &str) -> (r: Option<usize>)
        ensures
            match r {
                Some(i) => i < self.list@.len() && position_of(self@, name@, 0) == Some(i as int),
                None => position_of(self@, name@, 0) is None,
            },
    {
        let mut i: usize = 0;
        while i < self.list.len()
            invariant
                i <= self.list@.len(),
                position_of(self@, name@, 0) == position_of(self@, name@, i as int),
            decreases self.list.len() - i,
        {
            if str_eq(self.list[i].name.as_str(), name) {
                return Some(i);
            }
            i += 1;
        }
        None
    }

    /// Adds a profile, in the place of one with its name.
    pub fn insert(&mut self, profile: Profile<String>)
        requires
            old(self).wf(),
        ensures
            final(self).wf(),
            final(self)@ == with_profile(old(self)@, profile@),
    {
        proof {
            lemma_position(self@, profile@.name, 0);
        }
        match self.find(profile.name.as_str()) {
            Some(i) => {
                self.list.set(i, profile);
                assert(self@ =~= old(self)@.update(i as int, profile@));
            },
            None => {
                self.list.push(profile);
                assert(self@ =~= old(self)@.push(profile@));
            },
        }
    }

    /// The profile with a name.
    pub fn get(&self, name: &str) -> (r: Option<&Profile<String>>)
        ensures
            (match r {
                Some(p) => Some(p@),
                None => None,
            }) == profile_named(self@, name@),
    {
        match self.find(name) {
            Some(i) => Some(&self.list[i]),
            None => None,
        }
    }

    fn names(&self) -> (r: Vec<String>)
        ensures
            texts(r@) == profile_names(self@),
            r@.len() == self.list@.len(),
    {
        let mut r: Vec<String> = Vec::new();
        let mut i: usize = 0;
        while i < self.list.len()
            invariant
                i <= self.list@.len(),
                r@.len() == i,
                texts(r@) == profile_names(self@).take(i as int),
            decreases self.list.len() - i,
        {
            let ghost before = r@;
            let s = self.list[i].name.clone();
            r.push(s);
            proof {
                lemma_texts_push(before, s);
                assert(profile_names(self@)[i as int] == s@);
                assert(texts(r@) =~= profile_names(self@).take(i + 1));
            }
            i += 1;
        }
        assert(profile_names(self@).take(self.list@.len() as int) =~= profile_names(self@));
        r
    }
}

/// The names of the profiles, sorted.
pub fn sorted_model_names(profiles: &Profiles) -> (r: Vec<String>)
    ensures
        texts(r@) == sorted_texts(profile_names(profiles@)),
{
    let names = profiles.names();
    sort_texts(&names)
}

/// A profile as it is listed.
pub open spec fn profile_line(p: Profile<Seq<char>>) -> Seq<char> {
    "- "@ + p.name + ": "@ + p.model + " ("@ + p.provider + ")"@
}

/// The lines of the profiles, in the order of their names.
pub open spec fn profile_lines(list: Seq<Profile<Seq<char>>>) -> Seq<Seq<char>> {
    order_of(profile_names(list)).map_values(|i: int| profile_line(list[i]))
}

/// Lists the profiles.
pub fn format_models(profiles: &Profiles) -> (r: String)
    ensures
        r@ == joined(profile_lines(profiles@), "\n"@),
{
    let names = profiles.names();
    let order = sort_order(&names);
    let ghost ids = order@.map_values(|i: usize| i as int);
    let mut lines: Vec<String> = Vec::new();
    let mut k: usize = 0;
    assert(texts(names@).len() == names@.len());
    assert(texts(lines@) =~= profile_lines(profiles@).take(0));
    while k < order.len()
        invariant
            k <= order@.len(),
            ids == order@.map_values(|i: usize| i as int),
            ids == order_of(profile_names(profiles@)),
            forall|i: int| 0 <= i < order@.len() ==> (#[trigger] order@[i])
                < profiles.list@.len(),
            texts(lines@) == profile_lines(profiles@).take(k as int),
        decreases order.len() - k,
    {
        let at = order[k];
        assert(ids[k as int] == at as int);
        let p = &profiles.list[at];
        let mut line = "- ".to_string();
        line.append(p.name.as_str());
        line.append(": ");
        line.append(p.model.as_str());
        line.append(" (");
        line.append(p.provider.as_str());
        line.append(")");
        let ghost before = lines@;
        lines.push(line);
        proof {
            lemma_texts_push(before, line);
            assert(line@ =~= profile_lines(profiles@)[k as int]);
            assert(texts(lines@) =~= profile_lines(profiles@).take(k + 1));
        }
        k += 1;
    }
    assert(profile_lines(profiles@).take(order@.len() as int) =~= profile_lines(profiles@));
    join(&lines, "\n")
}

/// What a model is told where its profile has nothing to tell.
pub open spec fn default_prompt() -> Seq<char> {
    "You are Orangu, a coding environment assistant connected to a local workspace. Use the available local tools to inspect files, edit files on disk, fetch external URLs for knowledge, and run shell commands when needed. Be precise, explain what you changed, and surface tool failures explicitly."@
}

/// What a model is told first.
pub open spec fn prompt_of(p: Profile<Seq<char>>) -> Seq<char> {
    if p.system_prompt.len() == 0 {
        default_prompt()
    } else {
        p.system_prompt
    }
}

/// What a model is told first.
pub fn system_prompt(profile: &Profile<String>) -> (r: &str)
    ensures
        r@ == prompt_of(profile@),
{
    if profile.system_prompt.as_str().is_empty() {
        "You are Orangu, a coding environment assistant connected to a local workspace. Use the available local tools to inspect files, edit files on disk, fetch external URLs for knowledge, and run shell commands when needed. Be precise, explain what you changed, and surface tool failures explicitly."
    } else {
        profile.system_prompt.as_str()
    }
}

/// A tool that the model may use; the texts are of the type `T`.
#[derive(Debug, PartialEq, Eq)]
pub struct ToolInfo<T> {
    pub name: T,
    pub description: T,
}

impl View for ToolInfo<String> {
    type V = ToolInfo<Seq<char>>;

    open spec fn view(&self) -> ToolInfo<Seq<char>> {
        ToolInfo { name: self.name@, description: self.description@ }
    }
}

/// The views of tools.
pub open spec fn tool_views(v: Seq<ToolInfo<String>>) -> Seq<ToolInfo<Seq<char>>> {
    v.map_values(|t: ToolInfo<String>| t@)
}

/// The lines of the tools.
pub open spec fn tool_lines(tools: Seq<ToolInfo<Seq<char>>>) -> Seq<Seq<char>> {
    tools.map_values(|t: ToolInfo<Seq<char>>| "- "@ + t.name + ": "@ + t.description)
}

/// Lists the tools.
pub fn format_tools(tools: &Vec<ToolInfo<String>>) -> (r: String)
    ensures
        r@ == joined(tool_lines(tool_views(tools@)), "\n"@),
{
    let ghost want = tool_lines(tool_views(tools@));
    let mut lines: Vec<String> = Vec::new();
    let mut i: usize = 0;
    assert(texts(lines@) =~= want.take(0));
    while i < tools.len()
        invariant
            i <= tools@.len(),
            want == tool_lines(tool_views(tools@)),
            texts(lines@) == want.take(i as int),
        decreases tools.len() - i,
    {
        let mut line = "- ".to_string();
        line.append(tools[i].name.as_str());
        line.append(": ");
        line.append(tools[i].description.as_str());
        let ghost before = lines@;
        lines.push(line);
        proof {
            lemma_texts_push(before, line);
            assert(line@ =~= want[i as int]);
            assert(texts(lines@) =~= want.take(i + 1));
        }
        i += 1;
    }
    assert(want.take(tools@.len() as int) =~= want);
    join(&lines, "\n")
}

/// A profile that was added is found under its name, and no other name is
/// affected.
pub proof fn law_added_profiles_are_found(
    list: Seq<Profile<Seq<char>>>,
    profile: Profile<Seq<char>>,
    name: Seq<char>,
)
    ensures
        profile_named(with_profile(list, profile), profile.name) == Some(profile),
        name != profile.name ==> profile_named(with_profile(list, profile), name)
            == profile_named(list, name),
{
    let after = with_profile(list, profile);
    lemma_position(list, profile.name, 0);
    match position_of(list, profile.name, 0) {
        Some(i) => {
            lemma_position_is(after, profile.name, 0, i);
        },
        None => {
            lemma_position_is(after, profile.name, 0, list.len() as int);
        },
    }
    if name != profile.name {
        lemma_position(list, name, 0);
        match position_of(list, name, 0) {
            Some(i) => {
                assert(forall|j: int| 0 <= j < i ==> (#[trigger] after[j]).name != name) by {
                    assert forall|j: int| 0 <= j < i implies (#[trigger] after[j]).name != name by {
                        assert(list[j].name != name);
                    }
                }
                lemma_position_is(after, name, 0, i);
            },
            None => {
                lemma_position(after, name, 0);
                if let Some(k) = position_of(after, name, 0) {
                    if k < list.len() {
                        assert(list[k].name != name);
                    }
                }
            },
        }
    }
}

} // verus!
