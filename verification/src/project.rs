//! The project in the workspace: how it is built, and how its files are shown.
use vstd::prelude::*;
use vstd::string::*;

use crate::building::{
    first_step, in_build_dir, law_builds_end, needs_install, newer, shell_result, step_after,
    step_command, step_label, step_result, steps_left, BuildStep, FileStamp, ProjectFacts,
    StreamedRun,
};
use crate::order::{ascending, lemma_order_of, order_of, text_le, within};
use crate::text::joined;
use crate::tree::{
    branch_mark, lemma_listing_order, listed_only, listing_order, lowercase, tree_key, tree_keys,
    tree_lines, trunk_mark, TreeEntry,
};

verus! {

/// The command lines of a build from a step on, where every one succeeds and
/// what is found stays the same. Creating the build directory takes none.
pub open spec fn command_lines(step: Option<BuildStep>, facts: ProjectFacts) -> Seq<Seq<char>>
    decreases (match step { Some(s) => steps_left(s), None => 0 }),
{
    match step {
        Some(s) => {
            proof {
                law_builds_end(s, facts);
            }
            let rest = command_lines(step_after(s, facts), facts);
            if step_command(s).len() == 0 {
                rest
            } else {
                seq![joined(step_command(s), seq![' '])] + rest
            }
        },
        None => seq![],
    }
}

/// A Rust project is formatted, checked, built and tested, in this order,
/// whatever else lies in the workspace.
pub proof fn law_rust_projects_are_built_with_cargo(facts: ProjectFacts)
    requires
        facts.has_cargo_toml,
    ensures
        command_lines(first_step(facts), facts) == seq![
            "cargo fmt"@,
            "cargo clippy"@,
            "cargo build"@,
            "cargo test"@,
        ],
{
    lemma_command_lines();
    reveal_with_fuel(command_lines, 5);
    assert(command_lines(first_step(facts), facts) =~= seq![
        "cargo fmt"@,
        "cargo clippy"@,
        "cargo build"@,
        "cargo test"@,
    ]);
}

/// A C project is formatted where it has a script for that; its build is
/// configured unless it has been, and then made.
pub proof fn law_c_projects_are_built_with_make(facts: ProjectFacts)
    requires
        !facts.has_cargo_toml,
        facts.has_cmake_lists,
    ensures
        command_lines(first_step(facts), facts) == (if facts.has_clang_format {
            seq!["bash clang-format.sh"@]
        } else {
            seq![]
        }) + (if facts.has_cmake_cache {
            seq![]
        } else {
            seq!["cmake .."@]
        }) + seq!["make"@],
{
    lemma_command_lines();
    reveal_with_fuel(command_lines, 5);
    let all = command_lines(first_step(facts), facts);
    assert(all =~= (if facts.has_clang_format {
        seq!["bash clang-format.sh"@]
    } else {
        seq![]
    }) + (if facts.has_cmake_cache {
        seq![]
    } else {
        seq!["cmake .."@]
    }) + seq!["make"@]);
}

/// The build directory is created where it is missing, before the build is
/// configured; both that and the build happen in it, everything else happens in
/// the workspace.
pub proof fn law_the_build_directory_comes_first(facts: ProjectFacts, later: ProjectFacts)
    requires
        !facts.has_cargo_toml,
        facts.has_cmake_lists,
        !facts.has_build_dir,
    ensures
        !facts.has_clang_format ==> first_step(facts) == Some(BuildStep::CreateBuildDir),
        facts.has_clang_format ==> step_after(BuildStep::ClangFormat, facts) == Some(
            BuildStep::CreateBuildDir,
        ),
        !later.has_cmake_cache ==> step_after(BuildStep::CreateBuildDir, later) == Some(
            BuildStep::Cmake,
        ),
        step_command(BuildStep::CreateBuildDir).len() == 0,
        forall|step: BuildStep| #[trigger]
            in_build_dir(step) <==> step_command(step).len() > 0 && (step_command(step)[0]
                == "cmake"@ || step_command(step)[0] == "make"@),
{
    reveal_strlit("cmake");
    reveal_strlit("make");
    reveal_strlit("cargo");
    reveal_strlit("bash");
    reveal_strlit("npm");
    reveal_strlit("mvn");
    assert("cmake"@[0] == 'c' && "cmake"@[1] == 'm');
    assert("cargo"@[1] == 'a');
    assert("make"@[1] == 'a');
    assert("mvn"@.len() == 3 && "npm"@.len() == 3 && "bash"@[0] == 'b' && "make"@[0] == 'm');
}

/// A Java project is packaged. Where it has a frontend, that one is fixed and
/// checked before, with its packages installed anew where they are missing or
/// older than what they are listed in.
pub proof fn law_java_projects_are_packaged(facts: ProjectFacts)
    requires
        !facts.has_cargo_toml,
        !facts.has_cmake_lists,
        facts.has_pom,
    ensures
        !facts.has_frontend ==> command_lines(first_step(facts), facts) == seq!["mvn package"@],
        facts.has_frontend && needs_install(facts) ==> command_lines(first_step(facts), facts)
            == seq![
            "npm --prefix src/frontend ci"@,
            "npm --prefix src/frontend run fix"@,
            "npm --prefix src/frontend run check"@,
            "mvn package"@,
        ],
        facts.has_frontend && !needs_install(facts) ==> command_lines(first_step(facts), facts)
            == seq![
            "npm --prefix src/frontend run fix"@,
            "npm --prefix src/frontend run check"@,
            "mvn package"@,
        ],
{
    lemma_command_lines();
    reveal_with_fuel(command_lines, 5);
    let all = command_lines(first_step(facts), facts);
    if !facts.has_frontend {
        assert(all =~= seq!["mvn package"@]);
    } else if needs_install(facts) {
        assert(all =~= seq![
            "npm --prefix src/frontend ci"@,
            "npm --prefix src/frontend run fix"@,
            "npm --prefix src/frontend run check"@,
            "mvn package"@,
        ]);
    } else {
        assert(all =~= seq![
            "npm --prefix src/frontend run fix"@,
            "npm --prefix src/frontend run check"@,
            "mvn package"@,
        ]);
    }
}

/// Packages are installed where there are none, and where one of the files that
/// list them was changed later than they were installed.
pub proof fn law_packages_are_installed_when_they_are_old(
    facts: ProjectFacts,
    installed: i128,
    package: i128,
    lock: i128,
)
    requires
        facts.installed == FileStamp::At(installed),
        facts.package == FileStamp::At(package),
    ensures
        facts.package_lock == FileStamp::At(lock) ==> (needs_install(facts) <==> package > installed
            || lock > installed),
        facts.package_lock == FileStamp::Missing ==> (needs_install(facts) <==> package
            > installed),
        needs_install(ProjectFacts { installed: FileStamp::Missing, ..facts }),
        !newer(FileStamp::Missing, facts.installed),
        newer(facts.package, FileStamp::Missing),
        !newer(FileStamp::Unknown, facts.installed),
        newer(facts.package, FileStamp::Unknown),
        !newer(FileStamp::Unknown, FileStamp::Unknown),
        newer(FileStamp::Unknown, FileStamp::Missing),
        !newer(FileStamp::Missing, FileStamp::Missing),
{
}

/// A workspace with none of the files that tell of a project has nothing to
/// build.
pub proof fn law_other_workspaces_are_not_built(facts: ProjectFacts)
    ensures
        first_step(facts) is None <==> !facts.has_cargo_toml && !facts.has_cmake_lists
            && !facts.has_pom,
{
}

proof fn lemma_line2(a: Seq<char>, b: Seq<char>)
    ensures
        joined(seq![a, b], seq![' ']) == a + seq![' '] + b,
{
    reveal_with_fuel(joined, 3);
    assert(seq![a, b].drop_last() =~= seq![a]);
    assert(joined(seq![a], seq![' ']) =~= a);
}

proof fn lemma_line1(a: Seq<char>)
    ensures
        joined(seq![a], seq![' ']) == a,
{
    reveal_with_fuel(joined, 2);
}

proof fn lemma_line_more(list: Seq<Seq<char>>, b: Seq<char>)
    requires
        list.len() > 0,
    ensures
        joined(list.push(b), seq![' ']) == joined(list, seq![' ']) + seq![' '] + b,
{
    assert(list.push(b).drop_last() =~= list);
}

proof fn lemma_command_lines()
    ensures
        joined(step_command(BuildStep::CargoFmt), seq![' ']) == "cargo fmt"@,
        joined(step_command(BuildStep::CargoClippy), seq![' ']) == "cargo clippy"@,
        joined(step_command(BuildStep::CargoBuild), seq![' ']) == "cargo build"@,
        joined(step_command(BuildStep::CargoTest), seq![' ']) == "cargo test"@,
        joined(step_command(BuildStep::ClangFormat), seq![' ']) == "bash clang-format.sh"@,
        joined(step_command(BuildStep::Cmake), seq![' ']) == "cmake .."@,
        joined(step_command(BuildStep::Make), seq![' ']) == "make"@,
        joined(step_command(BuildStep::NpmInstall), seq![' '])
            == "npm --prefix src/frontend ci"@,
        joined(step_command(BuildStep::NpmFix), seq![' '])
            == "npm --prefix src/frontend run fix"@,
        joined(step_command(BuildStep::NpmCheck), seq![' '])
            == "npm --prefix src/frontend run check"@,
        joined(step_command(BuildStep::MavenPackage), seq![' ']) == "mvn package"@,
{
    lemma_cargo_lines();
    lemma_cmake_lines();
    lemma_npm_lines();
}

proof fn lemma_cargo_lines()
    ensures
        joined(step_command(BuildStep::CargoFmt), seq![' ']) == "cargo fmt"@,
        joined(step_command(BuildStep::CargoClippy), seq![' ']) == "cargo clippy"@,
        joined(step_command(BuildStep::CargoBuild), seq![' ']) == "cargo build"@,
        joined(step_command(BuildStep::CargoTest), seq![' ']) == "cargo test"@,
{
    reveal_strlit("cargo");
    reveal_strlit("fmt");
    reveal_strlit("clippy");
    reveal_strlit("build");
    reveal_strlit("test");
    reveal_strlit("cargo fmt");
    reveal_strlit("cargo clippy");
    reveal_strlit("cargo build");
    reveal_strlit("cargo test");
    lemma_line2("cargo"@, "fmt"@);
    lemma_line2("cargo"@, "clippy"@);
    lemma_line2("cargo"@, "build"@);
    lemma_line2("cargo"@, "test"@);
    assert("cargo"@ + seq![' '] + "fmt"@ =~= "cargo fmt"@);
    assert("cargo"@ + seq![' '] + "clippy"@ =~= "cargo clippy"@);
    assert("cargo"@ + seq![' '] + "build"@ =~= "cargo build"@);
    assert("cargo"@ + seq![' '] + "test"@ =~= "cargo test"@);
}

proof fn lemma_cmake_lines()
    ensures
        joined(step_command(BuildStep::ClangFormat), seq![' ']) == "bash clang-format.sh"@,
        joined(step_command(BuildStep::Cmake), seq![' ']) == "cmake .."@,
        joined(step_command(BuildStep::Make), seq![' ']) == "make"@,
        joined(step_command(BuildStep::MavenPackage), seq![' ']) == "mvn package"@,
{
    reveal_strlit("bash");
    reveal_strlit("clang-format.sh");
    reveal_strlit("cmake");
    reveal_strlit("..");
    reveal_strlit("mvn");
    reveal_strlit("package");
    reveal_strlit("bash clang-format.sh");
    reveal_strlit("cmake ..");
    reveal_strlit("mvn package");
    lemma_line2("bash"@, "clang-format.sh"@);
    lemma_line2("cmake"@, ".."@);
    lemma_line2("mvn"@, "package"@);
    lemma_line1("make"@);
    assert("bash"@ + seq![' '] + "clang-format.sh"@ =~= "bash clang-format.sh"@);
    assert("cmake"@ + seq![' '] + ".."@ =~= "cmake .."@);
    assert("mvn"@ + seq![' '] + "package"@ =~= "mvn package"@);
}

proof fn lemma_npm_lines()
    ensures
        joined(step_command(BuildStep::NpmInstall), seq![' '])
            == "npm --prefix src/frontend ci"@,
        joined(step_command(BuildStep::NpmFix), seq![' '])
            == "npm --prefix src/frontend run fix"@,
        joined(step_command(BuildStep::NpmCheck), seq![' '])
            == "npm --prefix src/frontend run check"@,
{
    reveal_strlit("npm");
    reveal_strlit("--prefix");
    reveal_strlit("src/frontend");
    reveal_strlit("ci");
    reveal_strlit("run");
    reveal_strlit("fix");
    reveal_strlit("check");
    reveal_strlit("npm --prefix src/frontend ci");
    reveal_strlit("npm --prefix src/frontend run fix");
    reveal_strlit("npm --prefix src/frontend run check");
    let two = seq!["npm"@, "--prefix"@];
    let three = two.push("src/frontend"@);
    lemma_line2("npm"@, "--prefix"@);
    lemma_line_more(two, "src/frontend"@);
    lemma_line_more(three, "ci"@);
    lemma_line_more(three, "run"@);
    lemma_line_more(three.push("run"@), "fix"@);
    lemma_line_more(three.push("run"@), "check"@);
    assert(three.push("ci"@) =~= step_command(BuildStep::NpmInstall));
    assert(three.push("run"@).push("fix"@) =~= step_command(BuildStep::NpmFix));
    assert(three.push("run"@).push("check"@) =~= step_command(BuildStep::NpmCheck));
    let begin = "npm"@ + seq![' '] + "--prefix"@ + seq![' '] + "src/frontend"@;
    assert(begin + seq![' '] + "ci"@ =~= "npm --prefix src/frontend ci"@);
    assert(begin + seq![' '] + "run"@ + seq![' '] + "fix"@
        =~= "npm --prefix src/frontend run fix"@);
    assert(begin + seq![' '] + "run"@ + seq![' '] + "check"@
        =~= "npm --prefix src/frontend run check"@);
}

/// The names under which the steps of cargo are announced are their command
/// lines; the others have short names.
pub proof fn law_steps_are_announced(facts: ProjectFacts)
    ensures
        step_label(BuildStep::CargoFmt) == Some("cargo fmt"@),
        step_label(BuildStep::CargoClippy) == Some("cargo clippy"@),
        step_label(BuildStep::CargoBuild) == Some("cargo build"@),
        step_label(BuildStep::CargoTest) == Some("cargo test"@),
        step_label(BuildStep::ClangFormat) == Some("clang-format.sh"@),
        step_label(BuildStep::Cmake) == Some("cmake"@),
        step_label(BuildStep::Make) == Some("make"@),
        step_label(BuildStep::NpmInstall) == Some("npm ci"@),
        step_label(BuildStep::NpmFix) == Some("npm run fix"@),
        step_label(BuildStep::NpmCheck) == Some("npm run check"@),
        step_label(BuildStep::MavenPackage) == Some("mvn package"@),
        forall|step: BuildStep| #[trigger]
            step_label(step) is None <==> step == BuildStep::CreateBuildDir,
{
}

/// A step that fails is told by its name, and by the reason where the program
/// did not run at all; one that succeeds lets the build go on.
pub proof fn law_failed_steps_are_told(step: BuildStep, directory: Seq<char>, text: String)
    ensures
        step_result(step, directory, StreamedRun::Succeeded) == Ok::<(), Seq<char>>(()),
        step_label(step) matches Some(label) ==> {
            &&& step_result(step, directory, StreamedRun::Exited(text)) == Err::<(), Seq<char>>(
                label + " failed"@,
            )
            &&& step_result(step, directory, StreamedRun::SpawnFailed(text)) == Err::<
                (),
                Seq<char>,
            >("failed to run "@ + label + ": "@ + text@)
            &&& step_result(step, directory, StreamedRun::WaitFailed(text)) == Err::<
                (),
                Seq<char>,
            >("failed to wait for "@ + label + ": "@ + text@)
        },
        step == BuildStep::CreateBuildDir ==> {
            let told = Err::<(), Seq<char>>("failed to create "@ + directory + ": "@ + text@);
            &&& step_result(step, directory, StreamedRun::Exited(text)) == told
            &&& step_result(step, directory, StreamedRun::SpawnFailed(text)) == told
            &&& step_result(step, directory, StreamedRun::WaitFailed(text)) == told
        },
{
}

/// A command of the shell is told where it does not run or does not succeed.
pub proof fn law_failed_shell_commands_are_told(line: Seq<char>, text: String)
    ensures
        shell_result(line, StreamedRun::Succeeded) == Ok::<(), Seq<char>>(()),
        shell_result(line, StreamedRun::Exited(text)) == Err::<(), Seq<char>>(
            "command exited with "@ + text@,
        ),
        shell_result(line, StreamedRun::SpawnFailed(text)) == Err::<(), Seq<char>>(
            "failed to run: "@ + line + ": "@ + text@,
        ),
        shell_result(line, StreamedRun::WaitFailed(text)) == Err::<(), Seq<char>>(
            "failed to wait for: "@ + line + ": "@ + text@,
        ),
{
}

/// Whether an entry is one of the directories that a tree leaves out.
pub open spec fn left_out(entry: TreeEntry) -> bool {
    entry.is_dir && (entry.name@ == ".git"@ || entry.name@ == "build"@ || entry.name@ == "target"@)
}

proof fn lemma_listed(order: Seq<int>, entries: Seq<TreeEntry>, keys: Seq<Seq<char>>, x: int)
    requires
        order.no_duplicates(),
        ascending(order, keys),
    ensures
        listed_only(order, entries).contains(x) <==> order.contains(x) && !left_out(entries[x]),
        listed_only(order, entries).no_duplicates(),
        ascending(listed_only(order, entries), keys),
    decreases order.len(),
{
    if order.len() > 0 {
        let init = order.drop_last();
        let last = order.last();
        let rest = listed_only(init, entries);
        assert(init.no_duplicates());
        assert(ascending(init, keys)) by {
            assert forall|i: int, j: int| 0 <= i < j < init.len() implies #[trigger] text_le(
                keys[init[i]],
                keys[init[j]],
            ) by {
                assert(text_le(keys[order[i]], keys[order[j]]));
            }
        }
        lemma_listed(init, entries, keys, x);
        let all = listed_only(order, entries);
        assert forall|i: int| 0 <= i < rest.len() implies init.contains(#[trigger] rest[i]) by {
            lemma_listed(init, entries, keys, rest[i]);
            assert(rest.contains(rest[i]));
        }
        assert(order.contains(x) <==> init.contains(x) || x == last) by {
            if init.contains(x) {
                let i = choose|i: int| 0 <= i < init.len() && init[i] == x;
                assert(order[i] == x);
            }
            if order.contains(x) {
                let i = choose|i: int| 0 <= i < order.len() && order[i] == x;
                if i < init.len() {
                    assert(init[i] == x);
                }
            }
            assert(order[order.len() - 1] == last);
        }
        if !left_out(entries[last]) {
            assert(all == rest.push(last));
            assert(all.contains(x) <==> rest.contains(x) || x == last) by {
                if rest.contains(x) {
                    let i = choose|i: int| 0 <= i < rest.len() && rest[i] == x;
                    assert(all[i] == x);
                }
                if all.contains(x) {
                    let i = choose|i: int| 0 <= i < all.len() && all[i] == x;
                    if i < rest.len() {
                        assert(rest[i] == x);
                    }
                }
                assert(all[rest.len() as int] == last);
            }
            assert forall|i: int| 0 <= i < rest.len() implies #[trigger] rest[i] != last && text_le(
                keys[rest[i]],
                keys[last],
            ) by {
                assert(init.contains(rest[i]));
                let k = choose|k: int| 0 <= k < init.len() && init[k] == rest[i];
                assert(order[k] == init[k]);
                assert(text_le(keys[order[k]], keys[order[order.len() - 1]]));
            }
            assert(all.no_duplicates());
            assert forall|i: int, j: int| 0 <= i < j < all.len() implies #[trigger] text_le(
                keys[all[i]],
                keys[all[j]],
            ) by {
                if j < rest.len() {
                    assert(text_le(keys[rest[i]], keys[rest[j]]));
                } else {
                    assert(all[i] == rest[i]);
                }
            }
        }
    }
}

proof fn lemma_listing(entries: Seq<TreeEntry>, x: int)
    ensures
        listing_order(entries).contains(x) <==> 0 <= x < entries.len() && !left_out(entries[x]),
        listing_order(entries).no_duplicates(),
        ascending(listing_order(entries), tree_keys(entries)),
        forall|i: int|
            0 <= i < listing_order(entries).len() ==> 0 <= #[trigger] listing_order(entries)[i]
                < entries.len(),
{
    let keys = tree_keys(entries);
    let order = order_of(keys);
    lemma_order_of(keys);
    let ids = Seq::new(keys.len(), |i: int| i);
    assert(ids.no_duplicates());
    ids.lemma_multiset_has_no_duplicates();
    assert(order.to_multiset() == ids.to_multiset());
    order.lemma_multiset_has_no_duplicates_conv();
    vstd::seq_lib::to_multiset_contains(order, x);
    vstd::seq_lib::to_multiset_contains(ids, x);
    if 0 <= x < keys.len() {
        assert(ids[x] == x);
    }
    if ids.contains(x) {
        let i = choose|i: int| 0 <= i < ids.len() && ids[i] == x;
        assert(ids[i] == i);
    }
    lemma_listed(order, entries, keys, x);
    lemma_listing_order(entries);
}

/// A tree lists every entry once, but for the directories of git and of builds.
pub proof fn law_trees_list_every_entry_once(entries: Seq<TreeEntry>, x: int)
    ensures
        listing_order(entries).contains(x) <==> 0 <= x < entries.len() && !left_out(entries[x]),
        listing_order(entries).no_duplicates(),
{
    lemma_listing(entries, x);
}

/// Files come behind everything else, and entries of a kind follow each other by
/// their names, whatever the case of their letters.
pub proof fn law_trees_list_files_last(entries: Seq<TreeEntry>, i: int, j: int)
    requires
        0 <= i < j < listing_order(entries).len(),
    ensures
        ({
            let a = entries[listing_order(entries)[i]];
            let b = entries[listing_order(entries)[j]];
            &&& a.is_file ==> b.is_file
            &&& a.is_file == b.is_file ==> text_le(
                lowercase(a.name@),
                lowercase(b.name@),
            )
        }),
{
    lemma_listing(entries, 0);
    let order = listing_order(entries);
    let keys = tree_keys(entries);
    let a = entries[order[i]];
    let b = entries[order[j]];
    assert(text_le(keys[order[i]], keys[order[j]]));
    assert(keys[order[i]] == tree_key(a) && keys[order[j]] == tree_key(b));
    assert(tree_key(a).drop_first() =~= lowercase(a.name@));
    assert(tree_key(b).drop_first() =~= lowercase(b.name@));
    reveal_with_fuel(text_le, 2);
}

/// The line of an entry has a mark before its name, one of its own for the last
/// entry, and what is below a directory follows it, set in by four columns.
pub proof fn law_tree_lines_follow_the_entries(
    entries: Seq<TreeEntry>,
    prefix: Seq<char>,
    k: int,
)
    requires
        0 < k < listing_order(entries).len(),
    ensures
        ({
            let order = listing_order(entries);
            let n = order.len() as int;
            let one = entries[order[k - 1]];
            let end = entries[order[n - 1]];
            &&& tree_lines(entries, prefix, 0).len() == 0
            &&& tree_lines(entries, prefix, k) == tree_lines(entries, prefix, k - 1).push(
                prefix + "├── "@ + one.name@,
            ) + (if one.is_dir {
                tree_lines(
                    one.children@,
                    prefix + "│   "@,
                    listing_order(one.children@).len() as int,
                )
            } else {
                seq![]
            })
            &&& tree_lines(entries, prefix, n) == tree_lines(entries, prefix, n - 1).push(
                prefix + "└── "@ + end.name@,
            ) + (if end.is_dir {
                tree_lines(
                    end.children@,
                    prefix + "    "@,
                    listing_order(end.children@).len() as int,
                )
            } else {
                seq![]
            })
        }),
{
}

/// Every line of a tree stands behind what its lines begin with.
pub proof fn law_tree_lines_keep_their_beginning(
    entries: Seq<TreeEntry>,
    prefix: Seq<char>,
    k: int,
    i: int,
)
    requires
        0 <= i < tree_lines(entries, prefix, k).len(),
    ensures
        prefix.is_prefix_of(tree_lines(entries, prefix, k)[i]),
    decreases entries, k,
{
    let order = listing_order(entries);
    lemma_listing_order(entries);
    let last = k == order.len();
    let entry = entries[order[k - 1]];
    assert(0 <= order[k - 1] < entries.len());
    let before = tree_lines(entries, prefix, k - 1);
    let all = tree_lines(entries, prefix, k);
    let mark = branch_mark(last);
    let line = prefix + mark + entry.name@;
    let trunk = prefix + trunk_mark(last);
    let m = listing_order(entry.children@).len() as int;
    if i < before.len() {
        law_tree_lines_keep_their_beginning(entries, prefix, k - 1, i);
        assert(all[i] == before[i]);
    } else if i == before.len() {
        assert(all[i] == line);
        assert(line.subrange(0, prefix.len() as int) =~= prefix);
    } else {
        let below = tree_lines(entry.children@, trunk, m);
        let j = i - before.len() - 1;
        assert(entry.is_dir);
        assert(all[i] == below[j]);
        law_tree_lines_keep_their_beginning(entry.children@, trunk, m, j);
        assert(below[j].subrange(0, prefix.len() as int) =~= trunk.subrange(
            0,
            prefix.len() as int,
        ));
        assert(trunk.subrange(0, prefix.len() as int) =~= prefix);
    }
}

/// A directory that holds files alone is shown with one line for each of them.
pub proof fn law_flat_trees_have_a_line_for_each_file(
    entries: Seq<TreeEntry>,
    prefix: Seq<char>,
    k: int,
    i: int,
)
    requires
        forall|j: int| 0 <= j < entries.len() ==> !(#[trigger] entries[j]).is_dir,
        0 <= i < k <= listing_order(entries).len(),
    ensures
        listing_order(entries).len() == entries.len(),
        tree_lines(entries, prefix, k).len() == k,
        tree_lines(entries, prefix, k)[i] == prefix + (if i + 1 == entries.len() {
            "└── "@
        } else {
            "├── "@
        }) + entries[listing_order(entries)[i]].name@,
    decreases k,
{
    let keys = tree_keys(entries);
    let order = order_of(keys);
    lemma_order_of(keys);
    lemma_all_listed(order, entries);
    assert(0 <= order[k - 1] < entries.len());
    if k > 1 {
        if i < k - 1 {
            law_flat_trees_have_a_line_for_each_file(entries, prefix, k - 1, i);
        } else {
            law_flat_trees_have_a_line_for_each_file(entries, prefix, k - 1, 0);
        }
    } else {
        assert(tree_lines(entries, prefix, 0).len() == 0);
    }
}

proof fn lemma_all_listed(order: Seq<int>, entries: Seq<TreeEntry>)
    requires
        within(order, entries.len() as int),
        forall|j: int| 0 <= j < entries.len() ==> !(#[trigger] entries[j]).is_dir,
    ensures
        listed_only(order, entries) == order,
    decreases order.len(),
{
    if order.len() > 0 {
        let init = order.drop_last();
        assert(within(init, entries.len() as int)) by {
            assert forall|i: int| 0 <= i < init.len() implies 0 <= #[trigger] init[i]
                < entries.len() by {
                assert(init[i] == order[i]);
            }
        }
        lemma_all_listed(init, entries);
        assert(0 <= order[order.len() - 1] < entries.len());
        assert(!entries[order.last()].is_dir);
        assert(listed_only(order, entries) =~= order);
    } else {
        assert(listed_only(order, entries) =~= order);
    }
}

} // verus!
