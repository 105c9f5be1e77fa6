//! Building a project: which steps are taken, and what their outcome means.
use vstd::prelude::*;
use vstd::string::*;

use crate::completion::owned_list;
use crate::text::{concat3, texts};

verus! {

/// When a file was changed.
#[derive(Clone, Copy, Debug, PartialEq, Eq, Structural)]
pub enum FileStamp {
    /// There is no such file.
    Missing,
    /// The system does not tell.
    Unknown,
    /// At this time, in nanoseconds since 1970, or before it.
    At(i128),
}

/// Whether a file is newer than another. One that is missing is not; where the
/// other is missing, it is.
pub open spec fn newer(a: FileStamp, b: FileStamp) -> bool {
    match (a, b) {
        (FileStamp::Missing, _) => false,
        (_, FileStamp::Missing) => true,
        (FileStamp::Unknown, _) => false,
        (_, FileStamp::Unknown) => true,
        (FileStamp::At(x), FileStamp::At(y)) => x > y,
    }
}

/// Tells whether a file is newer than another.
pub fn is_newer(a: FileStamp, b: FileStamp) -> (r: bool)
    ensures
        r == newer(a, b),
{
    match (a, b) {
        (FileStamp::Missing, _) => false,
        (_, FileStamp::Missing) => true,
        (FileStamp::Unknown, _) => false,
        (_, FileStamp::Unknown) => true,
        (FileStamp::At(x), FileStamp::At(y)) => x > y,
    }
}

/// What is found in a project.
#[derive(Clone, Copy, Debug, PartialEq, Eq, Structural)]
pub struct ProjectFacts {
    pub has_cargo_toml: bool,
    pub has_cmake_lists: bool,
    pub has_pom: bool,
    pub has_clang_format: bool,
    pub has_build_dir: bool,
    pub has_cmake_cache: bool,
    pub has_frontend: bool,
    pub installed: FileStamp,
    pub package: FileStamp,
    pub package_lock: FileStamp,
}

/// A step of a build.
#[derive(Clone, Copy, Debug, PartialEq, Eq, Structural)]
pub enum BuildStep {
    CargoFmt,
    CargoClippy,
    CargoBuild,
    CargoTest,
    ClangFormat,
    CreateBuildDir,
    Cmake,
    Make,
    NpmInstall,
    NpmFix,
    NpmCheck,
    MavenPackage,
}

/// Whether the packages of the frontend are to be installed: they are not yet,
/// or what they are listed in is newer.
pub open spec fn needs_install(facts: ProjectFacts) -> bool {
    facts.installed == FileStamp::Missing || newer(facts.package, facts.installed) || newer(
        facts.package_lock,
        facts.installed,
    )
}

/// The step that makes the build directory ready.
pub open spec fn prepare_step(facts: ProjectFacts) -> BuildStep {
    if !facts.has_build_dir {
        BuildStep::CreateBuildDir
    } else if !facts.has_cmake_cache {
        BuildStep::Cmake
    } else {
        BuildStep::Make
    }
}

/// The first step of a build; the kind of the project is told by its files.
pub open spec fn first_step(facts: ProjectFacts) -> Option<BuildStep> {
    if facts.has_cargo_toml {
        Some(BuildStep::CargoFmt)
    } else if facts.has_cmake_lists {
        if facts.has_clang_format {
            Some(BuildStep::ClangFormat)
        } else {
            Some(prepare_step(facts))
        }
    } else if facts.has_pom {
        if !facts.has_frontend {
            Some(BuildStep::MavenPackage)
        } else if needs_install(facts) {
            Some(BuildStep::NpmInstall)
        } else {
            Some(BuildStep::NpmFix)
        }
    } else {
        None
    }
}

/// The step behind one that succeeded, given what is found by then.
pub open spec fn step_after(step: BuildStep, facts: ProjectFacts) -> Option<BuildStep> {
    match step {
        BuildStep::CargoFmt => Some(BuildStep::CargoClippy),
        BuildStep::CargoClippy => Some(BuildStep::CargoBuild),
        BuildStep::CargoBuild => Some(BuildStep::CargoTest),
        BuildStep::CargoTest => None,
        BuildStep::ClangFormat => Some(prepare_step(facts)),
        BuildStep::CreateBuildDir => if facts.has_cmake_cache {
            Some(BuildStep::Make)
        } else {
            Some(BuildStep::Cmake)
        },
        BuildStep::Cmake => Some(BuildStep::Make),
        BuildStep::Make => None,
        BuildStep::NpmInstall => Some(BuildStep::NpmFix),
        BuildStep::NpmFix => Some(BuildStep::NpmCheck),
        BuildStep::NpmCheck => Some(BuildStep::MavenPackage),
        BuildStep::MavenPackage => None,
    }
}

fn find_prepare_step(facts: &ProjectFacts) -> (r: BuildStep)
    ensures
        r == prepare_step(*facts),
{
    if !facts.has_build_dir {
        BuildStep::CreateBuildDir
    } else if !facts.has_cmake_cache {
        BuildStep::Cmake
    } else {
        BuildStep::Make
    }
}

/// Begins a build.
pub fn build_output(facts: &ProjectFacts) -> (r: Result<BuildStep, String>)
    ensures
        match r {
            Ok(step) => first_step(*facts) == Some(step),
            Err(e) => first_step(*facts) is None && e@
                == "no supported project found (expected Cargo.toml, CMakeLists.txt, or pom.xml)"@,
        },
{
    if facts.has_cargo_toml {
        Ok(BuildStep::CargoFmt)
    } else if facts.has_cmake_lists {
        if facts.has_clang_format {
            Ok(BuildStep::ClangFormat)
        } else {
            Ok(find_prepare_step(facts))
        }
    } else if facts.has_pom {
        let install = facts.installed == FileStamp::Missing || is_newer(
            facts.package,
            facts.installed,
        ) || is_newer(facts.package_lock, facts.installed);
        if !facts.has_frontend {
            Ok(BuildStep::MavenPackage)
        } else if install {
            Ok(BuildStep::NpmInstall)
        } else {
            Ok(BuildStep::NpmFix)
        }
    } else {
        Err(
            "no supported project found (expected Cargo.toml, CMakeLists.txt, or pom.xml)".to_string(),
        )
    }
}

/// Goes on behind a step that succeeded, given what is found by then.
pub fn next_build_step(step: BuildStep, facts: &ProjectFacts) -> (r: Option<BuildStep>)
    ensures
        r == step_after(step, *facts),
{
    match step {
        BuildStep::CargoFmt => Some(BuildStep::CargoClippy),
        BuildStep::CargoClippy => Some(BuildStep::CargoBuild),
        BuildStep::CargoBuild => Some(BuildStep::CargoTest),
        BuildStep::CargoTest => None,
        BuildStep::ClangFormat => Some(find_prepare_step(facts)),
        BuildStep::CreateBuildDir => if facts.has_cmake_cache {
            Some(BuildStep::Make)
        } else {
            Some(BuildStep::Cmake)
        },
        BuildStep::Cmake => Some(BuildStep::Make),
        BuildStep::Make => None,
        BuildStep::NpmInstall => Some(BuildStep::NpmFix),
        BuildStep::NpmFix => Some(BuildStep::NpmCheck),
        BuildStep::NpmCheck => Some(BuildStep::MavenPackage),
        BuildStep::MavenPackage => None,
    }
}

/// The name under which a step is announced; creating a directory is not.
pub open spec fn step_label(step: BuildStep) -> Option<Seq<char>> {
    match step {
        BuildStep::CargoFmt => Some("cargo fmt"@),
        BuildStep::CargoClippy => Some("cargo clippy"@),
        BuildStep::CargoBuild => Some("cargo build"@),
        BuildStep::CargoTest => Some("cargo test"@),
        BuildStep::ClangFormat => Some("clang-format.sh"@),
        BuildStep::CreateBuildDir => None,
        BuildStep::Cmake => Some("cmake"@),
        BuildStep::Make => Some("make"@),
        BuildStep::NpmInstall => Some("npm ci"@),
        BuildStep::NpmFix => Some("npm run fix"@),
        BuildStep::NpmCheck => Some("npm run check"@),
        BuildStep::MavenPackage => Some("mvn package"@),
    }
}

/// The command line of a step: a program and its arguments.
pub open spec fn step_command(step: BuildStep) -> Seq<Seq<char>> {
    match step {
        BuildStep::CargoFmt => seq!["cargo"@, "fmt"@],
        BuildStep::CargoClippy => seq!["cargo"@, "clippy"@],
        BuildStep::CargoBuild => seq!["cargo"@, "build"@],
        BuildStep::CargoTest => seq!["cargo"@, "test"@],
        BuildStep::ClangFormat => seq!["bash"@, "clang-format.sh"@],
        BuildStep::CreateBuildDir => seq![],
        BuildStep::Cmake => seq!["cmake"@, ".."@],
        BuildStep::Make => seq!["make"@],
        BuildStep::NpmInstall => seq!["npm"@, "--prefix"@, "src/frontend"@, "ci"@],
        BuildStep::NpmFix => seq!["npm"@, "--prefix"@, "src/frontend"@, "run"@, "fix"@],
        BuildStep::NpmCheck => seq!["npm"@, "--prefix"@, "src/frontend"@, "run"@, "check"@],
        BuildStep::MavenPackage => seq!["mvn"@, "package"@],
    }
}

/// The command line of a step.
pub fn build_command(step: BuildStep) -> (r: Vec<String>)
    ensures
        texts(r@) == step_command(step),
{
    let r = match step {
        BuildStep::CargoFmt => owned_list(&["cargo", "fmt"]),
        BuildStep::CargoClippy => owned_list(&["cargo", "clippy"]),
        BuildStep::CargoBuild => owned_list(&["cargo", "build"]),
        BuildStep::CargoTest => owned_list(&["cargo", "test"]),
        BuildStep::ClangFormat => owned_list(&["bash", "clang-format.sh"]),
        BuildStep::CreateBuildDir => owned_list(&[]),
        BuildStep::Cmake => owned_list(&["cmake", ".."]),
        BuildStep::Make => owned_list(&["make"]),
        BuildStep::NpmInstall => owned_list(&["npm", "--prefix", "src/frontend", "ci"]),
        BuildStep::NpmFix => owned_list(&["npm", "--prefix", "src/frontend", "run", "fix"]),
        BuildStep::NpmCheck => owned_list(&["npm", "--prefix", "src/frontend", "run", "check"]),
        BuildStep::MavenPackage => owned_list(&["mvn", "package"]),
    };
    assert(texts(r@) =~= step_command(step));
    r
}

/// Whether a step runs in the build directory, and not in the workspace.
pub open spec fn in_build_dir(step: BuildStep) -> bool {
    step == BuildStep::Cmake || step == BuildStep::Make
}

/// Tells whether a step runs in the build directory, and not in the workspace.
pub fn runs_in_build_dir(step: BuildStep) -> (r: bool)
    ensures
        r == in_build_dir(step),
{
    step == BuildStep::Cmake || step == BuildStep::Make
}

/// The name under which a step is announced.
pub fn build_label(step: BuildStep) -> (r: Option<&'static str>)
    ensures
        match r {
            Some(s) => step_label(step) == Some(s@),
            None => step_label(step) is None,
        },
{
    match step {
        BuildStep::CargoFmt => Some("cargo fmt"),
        BuildStep::CargoClippy => Some("cargo clippy"),
        BuildStep::CargoBuild => Some("cargo build"),
        BuildStep::CargoTest => Some("cargo test"),
        BuildStep::ClangFormat => Some("clang-format.sh"),
        BuildStep::CreateBuildDir => None,
        BuildStep::Cmake => Some("cmake"),
        BuildStep::Make => Some("make"),
        BuildStep::NpmInstall => Some("npm ci"),
        BuildStep::NpmFix => Some("npm run fix"),
        BuildStep::NpmCheck => Some("npm run check"),
        BuildStep::MavenPackage => Some("mvn package"),
    }
}

/// The steps of a build so far.
pub struct BuildSteps {
    pub first: bool,
}

impl BuildSteps {
    /// A build without any step yet.
    pub fn new() -> (r: Self)
        ensures
            r.first,
    {
        BuildSteps { first: true }
    }

    /// Announces a step: its name, with an empty line before all but the first.
    pub fn announce(&mut self, step: BuildStep) -> (r: Vec<String>)
        ensures
            texts(r@) == (match step_label(step) {
                Some(label) => if old(self).first {
                    seq![label + ":"@]
                } else {
                    seq![""@, label + ":"@]
                },
                None => seq![],
            }),
            final(self).first == (old(self).first && step_label(step) is None),
    {
        let mut r: Vec<String> = Vec::new();
        if let Some(label) = build_label(step) {
            if !self.first {
                r.push("".to_string());
            }
            self.first = false;
            let mut line = label.to_string();
            line.append(":");
            r.push(line);
        }
        assert(texts(r@) =~= (match step_label(step) {
            Some(label) => if old(self).first {
                seq![label + ":"@]
            } else {
                seq![""@, label + ":"@]
            },
            None => seq![],
        }));
        r
    }
}

/// How running a command with streamed output ended; the texts give the reason
/// of a failure.
pub enum StreamedRun {
    Succeeded,
    /// Holds how the command exited.
    Exited(String),
    SpawnFailed(String),
    WaitFailed(String),
}

/// What a run of a step means; the directory is the one to be created.
pub open spec fn step_result(step: BuildStep, directory: Seq<char>, run: StreamedRun) -> Result<
    (),
    Seq<char>,
> {
    match step_label(step) {
        Some(label) => match run {
            StreamedRun::Succeeded => Ok(()),
            StreamedRun::Exited(_) => Err(label + " failed"@),
            StreamedRun::SpawnFailed(reason) => Err("failed to run "@ + label + ": "@ + reason@),
            StreamedRun::WaitFailed(reason) => Err(
                "failed to wait for "@ + label + ": "@ + reason@,
            ),
        },
        None => match run {
            StreamedRun::Succeeded => Ok(()),
            StreamedRun::Exited(reason) => Err(
                "failed to create "@ + directory + ": "@ + reason@,
            ),
            StreamedRun::SpawnFailed(reason) => Err(
                "failed to create "@ + directory + ": "@ + reason@,
            ),
            StreamedRun::WaitFailed(reason) => Err(
                "failed to create "@ + directory + ": "@ + reason@,
            ),
        },
    }
}

fn failure(what: &str, name: &str, reason: &str) -> (r: String)
    ensures
        r@ == what@ + name@ + ": "@ + reason@,
{
    let mut r = concat3(what, name, ": ");
    r.append(reason);
    r
}

/// The view of a result without a value.
pub open spec fn unit_result(r: Result<(), String>) -> Result<(), Seq<char>> {
    match r {
        Ok(()) => Ok(()),
        Err(e) => Err(e@),
    }
}

/// Tells what a run of a step means.
pub fn judge_step(step: BuildStep, directory: &str, run: StreamedRun) -> (r: Result<(), String>)
    ensures
        unit_result(r) == step_result(step, directory@, run),
{
    match build_label(step) {
        Some(label) => match run {
            StreamedRun::Succeeded => Ok(()),
            StreamedRun::Exited(_) => {
                let mut message = label.to_string();
                message.append(" failed");
                Err(message)
            },
            StreamedRun::SpawnFailed(reason) => Err(
                failure("failed to run ", label, reason.as_str()),
            ),
            StreamedRun::WaitFailed(reason) => Err(
                failure("failed to wait for ", label, reason.as_str()),
            ),
        },
        None => match run {
            StreamedRun::Succeeded => Ok(()),
            StreamedRun::Exited(reason) => Err(
                failure("failed to create ", directory, reason.as_str()),
            ),
            StreamedRun::SpawnFailed(reason) => Err(
                failure("failed to create ", directory, reason.as_str()),
            ),
            StreamedRun::WaitFailed(reason) => Err(
                failure("failed to create ", directory, reason.as_str()),
            ),
        },
    }
}

/// The command line that runs what the user typed in a login shell.
pub fn shell_command(command_line: &str) -> (r: Vec<String>)
    ensures
        texts(r@) == seq!["bash"@, "-lc"@, command_line@],
{
    let r = owned_list(&["bash", "-lc", command_line]);
    assert(texts(r@) =~= seq!["bash"@, "-lc"@, command_line@]);
    r
}

/// What a run in a shell means.
pub open spec fn shell_result(command_line: Seq<char>, run: StreamedRun) -> Result<(), Seq<char>> {
    match run {
        StreamedRun::Succeeded => Ok(()),
        StreamedRun::Exited(status) => Err("command exited with "@ + status@),
        StreamedRun::SpawnFailed(reason) => Err(
            "failed to run: "@ + command_line + ": "@ + reason@,
        ),
        StreamedRun::WaitFailed(reason) => Err(
            "failed to wait for: "@ + command_line + ": "@ + reason@,
        ),
    }
}

/// Tells what a run in a shell means.
pub fn judge_shell(command_line: &str, run: StreamedRun) -> (r: Result<(), String>)
    ensures
        unit_result(r) == shell_result(command_line@, run),
{
    match run {
        StreamedRun::Succeeded => Ok(()),
        StreamedRun::Exited(status) => {
            let mut message = "command exited with ".to_string();
            message.append(status.as_str());
            Err(message)
        },
        StreamedRun::SpawnFailed(reason) => Err(
            failure("failed to run: ", command_line, reason.as_str()),
        ),
        StreamedRun::WaitFailed(reason) => Err(
            failure("failed to wait for: ", command_line, reason.as_str()),
        ),
    }
}

/// How many steps a build can still have, this one counted.
pub open spec fn steps_left(step: BuildStep) -> nat {
    match step {
        BuildStep::CargoFmt => 4,
        BuildStep::CargoClippy => 3,
        BuildStep::CargoBuild => 2,
        BuildStep::CargoTest => 1,
        BuildStep::ClangFormat => 4,
        BuildStep::CreateBuildDir => 3,
        BuildStep::Cmake => 2,
        BuildStep::Make => 1,
        BuildStep::NpmInstall => 4,
        BuildStep::NpmFix => 3,
        BuildStep::NpmCheck => 2,
        BuildStep::MavenPackage => 1,
    }
}

/// Every build ends, whatever is found on the way.
pub proof fn law_builds_end(step: BuildStep, facts: ProjectFacts)
    ensures
        step_after(step, facts) matches Some(next) ==> steps_left(next) < steps_left(step),
{
}

} // verus!
