//! Carrying commands out: what each one changes, answers, or asks for.
use vstd::prelude::*;
use vstd::string::*;

use crate::command::{local_command, parse_local_command, LocalCommand, ShowFileOptions};
use crate::completion::{is_protected_branch, protected_branch};
use crate::git::{spares_protected, GitNext, GitStage};
use crate::order::sorted_texts;
use crate::profiles::{
    format_models, format_tools, profile_lines, profile_named, profile_names, prompt_of,
    sorted_model_names, system_prompt, tool_lines, tool_views, Profiles, ToolInfo,
};
use crate::report::{usage_report, usage_text, UsageFigures};
use crate::shell::{shell_words, words_of};
use crate::show_file::{parse_show_file_arguments, show_request};
use crate::text::{
    chars_of, join, joined, opt_text, starts_with, texts, trim, trim_start, trimmed,
    trimmed_start,
};
use crate::usage::{
    add_file_usage_message, checkout_usage_message, cherry_pick_usage_message,
    commit_usage_message, connect_usage_message, delete_branch_usage_message, error_text,
    local_command_error, merge_usage_message, model_usage_message, move_file_usage_message,
    open_file_usage_message, pull_usage_message, remove_file_usage_message, LocalError,
};

verus! {

/// How a command ends; the text is of the type `T`.
#[derive(Debug, PartialEq, Eq)]
pub enum CommandOutcome<T> {
    /// It is no command.
    Unhandled,
    /// There is nothing to tell.
    Quiet,
    Output(T),
    /// The transcript is to be emptied.
    Cleared,
    Quit,
}

/// What happens to the conversation; the text is what the model is told first.
#[derive(Debug, PartialEq, Eq)]
pub enum SessionEffect<T> {
    Keep,
    /// The conversation begins anew.
    Clear(T),
    /// Only what the model is told first changes.
    SetSystemPrompt(T),
}

/// A command for git.
#[derive(Debug, PartialEq, Eq)]
pub enum GitCommand<T> {
    Diff,
    Status,
    Log,
    Pull(u64),
    Rebase,
    Merge(T),
    Checkout(T),
    AddFile(T),
    RemoveFile(T),
    MoveFile(T, T),
    CherryPick(T),
    Commit(T),
    Push(bool),
    InitRepo,
    DeleteBranch(T),
}

/// What a command does next.
#[derive(Debug, PartialEq, Eq)]
pub enum CommandStep<T> {
    /// It ends.
    Done(CommandOutcome<T>),
    /// It lists the files of the workspace.
    ListFiles,
    /// It lists a file.
    ShowFile(T, ShowFileOptions),
    /// It asks git.
    Git(GitCommand<T>),
    /// It opens a file in the editor.
    OpenFile(T),
}

impl View for CommandOutcome<String> {
    type V = CommandOutcome<Seq<char>>;

    open spec fn view(&self) -> CommandOutcome<Seq<char>> {
        match *self {
            CommandOutcome::Unhandled => CommandOutcome::Unhandled,
            CommandOutcome::Quiet => CommandOutcome::Quiet,
            CommandOutcome::Output(t) => CommandOutcome::Output(t@),
            CommandOutcome::Cleared => CommandOutcome::Cleared,
            CommandOutcome::Quit => CommandOutcome::Quit,
        }
    }
}

impl View for SessionEffect<String> {
    type V = SessionEffect<Seq<char>>;

    open spec fn view(&self) -> SessionEffect<Seq<char>> {
        match *self {
            SessionEffect::Keep => SessionEffect::Keep,
            SessionEffect::Clear(t) => SessionEffect::Clear(t@),
            SessionEffect::SetSystemPrompt(t) => SessionEffect::SetSystemPrompt(t@),
        }
    }
}

impl View for GitCommand<String> {
    type V = GitCommand<Seq<char>>;

    open spec fn view(&self) -> GitCommand<Seq<char>> {
        match *self {
            GitCommand::Diff => GitCommand::Diff,
            GitCommand::Status => GitCommand::Status,
            GitCommand::Log => GitCommand::Log,
            GitCommand::Pull(n) => GitCommand::Pull(n),
            GitCommand::Rebase => GitCommand::Rebase,
            GitCommand::Merge(t) => GitCommand::Merge(t@),
            GitCommand::Checkout(t) => GitCommand::Checkout(t@),
            GitCommand::AddFile(t) => GitCommand::AddFile(t@),
            GitCommand::RemoveFile(t) => GitCommand::RemoveFile(t@),
            GitCommand::MoveFile(s, t) => GitCommand::MoveFile(s@, t@),
            GitCommand::CherryPick(t) => GitCommand::CherryPick(t@),
            GitCommand::Commit(t) => GitCommand::Commit(t@),
            GitCommand::Push(b) => GitCommand::Push(b),
            GitCommand::InitRepo => GitCommand::InitRepo,
            GitCommand::DeleteBranch(t) => GitCommand::DeleteBranch(t@),
        }
    }
}

impl View for CommandStep<String> {
    type V = CommandStep<Seq<char>>;

    open spec fn view(&self) -> CommandStep<Seq<char>> {
        match *self {
            CommandStep::Done(o) => CommandStep::Done(o@),
            CommandStep::ListFiles => CommandStep::ListFiles,
            CommandStep::ShowFile(t, options) => CommandStep::ShowFile(t@, options),
            CommandStep::Git(c) => CommandStep::Git(c@),
            CommandStep::OpenFile(t) => CommandStep::OpenFile(t@),
        }
    }
}

/// What commands go by.
pub struct CommandContext {
    pub startup_model: String,
    pub startup_endpoint: String,
    pub profiles: Profiles,
    pub tools: Vec<ToolInfo<String>>,
    pub help_text: String,
    pub usage: UsageFigures,
}

/// The model in use and the server that it is reached at, if any.
#[verifier::ext_equal]
pub struct ConnectionView {
    pub model: Seq<char>,
    pub endpoint: Option<Seq<char>>,
}

/// What a command leads to: its next step, or the reason why the client cannot
/// go on; the connection; and what happens to the conversation.
#[verifier::ext_equal]
pub struct CommandEffect {
    pub step: Result<CommandStep<Seq<char>>, Seq<char>>,
    pub connection: ConnectionView,
    pub session: SessionEffect<Seq<char>>,
}

/// A command that ends without changing anything.
pub open spec fn ends(c: ConnectionView, outcome: CommandOutcome<Seq<char>>) -> CommandEffect {
    CommandEffect {
        step: Ok(CommandStep::Done(outcome)),
        connection: c,
        session: SessionEffect::Keep,
    }
}

/// A command that goes on.
pub open spec fn goes_on(c: ConnectionView, step: CommandStep<Seq<char>>) -> CommandEffect {
    CommandEffect { step: Ok(step), connection: c, session: SessionEffect::Keep }
}

/// The reason why a profile that is not configured cannot be used.
pub open spec fn unknown_profile(name: Seq<char>) -> Seq<char> {
    "unknown model profile '"@ + name + "'"@
}

/// A command for git with an argument; without it, the user is told how the
/// command is used.
pub open spec fn with_argument(
    c: ConnectionView,
    command: Option<GitCommand<Seq<char>>>,
    usage: Seq<char>,
) -> CommandEffect {
    match command {
        Some(g) => goes_on(c, CommandStep::Git(g)),
        None => ends(c, CommandOutcome::Output(usage)),
    }
}

/// The commands that concern the connection and the conversation.
pub open spec fn connection_effect(
    command: LocalCommand<Seq<char>>,
    c: ConnectionView,
    context: CommandContext,
) -> CommandEffect {
    let profiles = context.profiles@;
    match command {
        LocalCommand::ConnectDefault => match profile_named(profiles, c.model) {
            Some(p) => CommandEffect {
                connection: ConnectionView { endpoint: Some(p.endpoint), ..c },
                ..ends(c, CommandOutcome::Quiet)
            },
            None => CommandEffect {
                step: Err(unknown_profile(c.model)),
                ..ends(c, CommandOutcome::Quiet)
            },
        },
        LocalCommand::ConnectTo(endpoint) => if endpoint.len() == 0 {
            ends(
                c,
                CommandOutcome::Output(
                    "Usage: /connect <endpoint>. Use /help to see available commands."@,
                ),
            )
        } else {
            CommandEffect {
                connection: ConnectionView { endpoint: Some(endpoint), ..c },
                ..ends(c, CommandOutcome::Quiet)
            }
        },
        LocalCommand::Disconnect => CommandEffect {
            connection: ConnectionView { endpoint: None, ..c },
            ..ends(c, CommandOutcome::Quiet)
        },
        LocalCommand::Reload => {
            let fresh = ConnectionView {
                model: context.startup_model@,
                endpoint: Some(context.startup_endpoint@),
            };
            match profile_named(profiles, context.startup_model@) {
                Some(p) => CommandEffect {
                    session: SessionEffect::Clear(prompt_of(p)),
                    ..ends(fresh, CommandOutcome::Quiet)
                },
                None => CommandEffect {
                    step: Err(unknown_profile(context.startup_model@)),
                    ..ends(fresh, CommandOutcome::Quiet)
                },
            }
        },
        LocalCommand::SetModel(name) => if name.len() == 0 {
            ends(
                c,
                CommandOutcome::Output(
                    "Usage: /model <name>. Use /help to see available commands."@,
                ),
            )
        } else {
            match profile_named(profiles, name) {
                Some(p) => CommandEffect {
                    session: SessionEffect::SetSystemPrompt(prompt_of(p)),
                    ..ends(
                        ConnectionView { model: name, endpoint: Some(p.normalized_endpoint) },
                        CommandOutcome::Quiet,
                    )
                },
                None => ends(
                    c,
                    CommandOutcome::Output(
                        "Unknown model profile '"@ + name + "'. Available: "@ + joined(
                            sorted_texts(profile_names(profiles)),
                            ", "@,
                        ),
                    ),
                ),
            }
        },
        LocalCommand::Clear => match profile_named(profiles, c.model) {
            Some(p) => CommandEffect {
                session: SessionEffect::Clear(prompt_of(p)),
                ..ends(c, CommandOutcome::Cleared)
            },
            None => CommandEffect {
                step: Err(unknown_profile(c.model)),
                ..ends(c, CommandOutcome::Quiet)
            },
        },
        _ => ends(c, CommandOutcome::Quiet),
    }
}

/// The commands for git.
pub open spec fn git_effect(command: LocalCommand<Seq<char>>, c: ConnectionView) -> CommandEffect {
    match command {
        LocalCommand::Diff => goes_on(c, CommandStep::Git(GitCommand::Diff)),
        LocalCommand::Status => goes_on(c, CommandStep::Git(GitCommand::Status)),
        LocalCommand::Log => goes_on(c, CommandStep::Git(GitCommand::Log)),
        LocalCommand::Rebase => goes_on(c, CommandStep::Git(GitCommand::Rebase)),
        LocalCommand::Push(force) => goes_on(c, CommandStep::Git(GitCommand::Push(force))),
        LocalCommand::InitRepo => goes_on(c, CommandStep::Git(GitCommand::InitRepo)),
        LocalCommand::Pull(o) => with_argument(
            c,
            match o {
                Some(n) => Some(GitCommand::Pull(n)),
                None => None,
            },
            "Usage: /pull <number>. Use /help to see available commands."@,
        ),
        LocalCommand::Merge(o) => with_argument(
            c,
            match o {
                Some(t) => Some(GitCommand::Merge(t)),
                None => None,
            },
            "Usage: /merge <branch>. Use /help to see available commands."@,
        ),
        LocalCommand::Checkout(o) => with_argument(
            c,
            match o {
                Some(t) => Some(GitCommand::Checkout(t)),
                None => None,
            },
            "Usage: /checkout <branch|file>. Use /help to see available commands."@,
        ),
        LocalCommand::AddFile(o) => with_argument(
            c,
            match o {
                Some(t) => Some(GitCommand::AddFile(t)),
                None => None,
            },
            "Usage: /add_file <path>. Use /help to see available commands."@,
        ),
        LocalCommand::RemoveFile(o) => with_argument(
            c,
            match o {
                Some(t) => Some(GitCommand::RemoveFile(t)),
                None => None,
            },
            "Usage: /remove_file <path>. Use /help to see available commands."@,
        ),
        LocalCommand::MoveFile(o) => with_argument(
            c,
            match o {
                Some((s, t)) => Some(GitCommand::MoveFile(s, t)),
                None => None,
            },
            "Usage: /move_file <source> <destination>. Use /help to see available commands."@,
        ),
        LocalCommand::CherryPick(o) => with_argument(
            c,
            match o {
                Some(t) => Some(GitCommand::CherryPick(t)),
                None => None,
            },
            "Usage: /cherry_pick <commit>. Use /help to see available commands."@,
        ),
        LocalCommand::Commit(o) => with_argument(
            c,
            match o {
                Some(t) => Some(GitCommand::Commit(t)),
                None => None,
            },
            "Usage: /commit <message>. Use /help to see available commands."@,
        ),
        LocalCommand::DeleteBranch(o) => with_argument(
            c,
            match o {
                Some(t) => Some(GitCommand::DeleteBranch(t)),
                None => None,
            },
            "Usage: /delete <branch>"@,
        ),
        _ => ends(c, CommandOutcome::Quiet),
    }
}

/// Whether a command concerns the connection or the conversation.
pub open spec fn concerns_connection<T>(command: LocalCommand<T>) -> bool {
    match command {
        LocalCommand::ConnectDefault | LocalCommand::ConnectTo(_) | LocalCommand::Disconnect
        | LocalCommand::Reload | LocalCommand::SetModel(_) | LocalCommand::Clear => true,
        _ => false,
    }
}

/// What a command leads to.
pub open spec fn command_effect(
    command: LocalCommand<Seq<char>>,
    c: ConnectionView,
    context: CommandContext,
) -> CommandEffect {
    match command {
        LocalCommand::Help => ends(c, CommandOutcome::Output(context.help_text@)),
        LocalCommand::ListModels => ends(
            c,
            CommandOutcome::Output(joined(profile_lines(context.profiles@), "\n"@)),
        ),
        LocalCommand::ListFiles => goes_on(c, CommandStep::ListFiles),
        LocalCommand::ShowFile(args) => match show_request(args) {
            Ok((path, options)) => goes_on(c, CommandStep::ShowFile(path, options)),
            Err(message) => ends(c, CommandOutcome::Output(message)),
        },
        LocalCommand::Tools => ends(
            c,
            CommandOutcome::Output(joined(tool_lines(tool_views(context.tools@)), "\n"@)),
        ),
        LocalCommand::ModelInfo => ends(
            c,
            CommandOutcome::Output("Use /list_models to see configured profiles"@),
        ),
        LocalCommand::OpenFile(path) => if path.len() == 0 {
            ends(
                c,
                CommandOutcome::Output(
                    "Usage: /open_file <path>. Use /help to see available commands."@,
                ),
            )
        } else {
            goes_on(c, CommandStep::OpenFile(path))
        },
        LocalCommand::Usage => ends(c, CommandOutcome::Output(usage_text(context.usage))),
        LocalCommand::Quit => ends(c, CommandOutcome::Quit),
        _ => if concerns_connection(command) {
            connection_effect(command, c, context)
        } else {
            git_effect(command, c)
        },
    }
}

/// What a line leads to. A line that begins with a slash and is no command is
/// told to be unknown; any other line that is no command is a prompt.
pub open spec fn line_effect(line: Seq<char>, c: ConnectionView, context: CommandContext) -> CommandEffect {
    match local_command(line) {
        Some(command) => command_effect(command, c, context),
        None => if "/"@.is_prefix_of(trimmed_start(line)) {
            ends(
                c,
                CommandOutcome::Output(
                    "Unknown command '"@ + trimmed(line)
                        + "'. Use /help to see available commands."@,
                ),
            )
        } else {
            ends(c, CommandOutcome::Unhandled)
        },
    }
}

/// The connection as contracts speak of it.
pub open spec fn connection_view(model: String, endpoint: Option<String>) -> ConnectionView {
    ConnectionView { model: model@, endpoint: opt_text(endpoint) }
}

/// The view of a step or a reason.
pub open spec fn step_view(r: Result<CommandStep<String>, String>) -> Result<
    CommandStep<Seq<char>>,
    Seq<char>,
> {
    match r {
        Ok(s) => Ok(s@),
        Err(e) => Err(e@),
    }
}

fn output(text: &str) -> (r: Result<CommandStep<String>, String>)
    ensures
        step_view(r) == Ok::<CommandStep<Seq<char>>, Seq<char>>(
            CommandStep::Done(CommandOutcome::Output(text@)),
        ),
{
    Ok(CommandStep::Done(CommandOutcome::Output(text.to_string())))
}

fn quiet() -> (r: Result<CommandStep<String>, String>)
    ensures
        step_view(r) == Ok::<CommandStep<Seq<char>>, Seq<char>>(
            CommandStep::Done(CommandOutcome::Quiet),
        ),
{
    Ok(CommandStep::Done(CommandOutcome::Quiet))
}

fn no_such_profile(name: &str) -> (r: Result<CommandStep<String>, String>)
    ensures
        step_view(r) == Err::<CommandStep<Seq<char>>, Seq<char>>(unknown_profile(name@)),
{
    let mut message = "unknown model profile '".to_string();
    message.append(name);
    message.append("'");
    Err(message)
}

fn decide_connection(
    command: LocalCommand<String>,
    active_model: &mut String,
    current_endpoint: &mut Option<String>,
    context: &CommandContext,
) -> (r: (Result<CommandStep<String>, String>, SessionEffect<String>))
    requires
        concerns_connection(command),
    ensures
        (CommandEffect {
            step: step_view(r.0),
            connection: connection_view(*final(active_model), *final(current_endpoint)),
            session: r.1@,
        }) == connection_effect(
            command@,
            connection_view(*old(active_model), *old(current_endpoint)),
            *context,
        ),
{
    match command {
        LocalCommand::ConnectDefault => match context.profiles.get(active_model.as_str()) {
            Some(p) => {
                *current_endpoint = Some(p.endpoint.clone());
                (quiet(), SessionEffect::Keep)
            },
            None => (no_such_profile(active_model.as_str()), SessionEffect::Keep),
        },
        LocalCommand::ConnectTo(endpoint) => {
            if endpoint.as_str().is_empty() {
                return (output(connect_usage_message()), SessionEffect::Keep);
            }
            *current_endpoint = Some(endpoint);
            (quiet(), SessionEffect::Keep)
        },
        LocalCommand::Disconnect => {
            *current_endpoint = None;
            (quiet(), SessionEffect::Keep)
        },
        LocalCommand::Reload => {
            *active_model = context.startup_model.clone();
            *current_endpoint = Some(context.startup_endpoint.clone());
            match context.profiles.get(context.startup_model.as_str()) {
                Some(p) => (quiet(), SessionEffect::Clear(system_prompt(p).to_string())),
                None => (no_such_profile(context.startup_model.as_str()), SessionEffect::Keep),
            }
        },
        LocalCommand::SetModel(name) => {
            if name.as_str().is_empty() {
                return (output(model_usage_message()), SessionEffect::Keep);
            }
            match context.profiles.get(name.as_str()) {
                Some(p) => {
                    *current_endpoint = Some(p.normalized_endpoint.clone());
                    let prompt = system_prompt(p).to_string();
                    *active_model = name;
                    (quiet(), SessionEffect::SetSystemPrompt(prompt))
                },
                None => {
                    let names = sorted_model_names(&context.profiles);
                    let list = join(&names, ", ");
                    let mut message = "Unknown model profile '".to_string();
                    message.append(name.as_str());
                    message.append("'. Available: ");
                    message.append(list.as_str());
                    (output(message.as_str()), SessionEffect::Keep)
                },
            }
        },
        LocalCommand::Clear => match context.profiles.get(active_model.as_str()) {
            Some(p) => (
                Ok(CommandStep::Done(CommandOutcome::Cleared)),
                SessionEffect::Clear(system_prompt(p).to_string()),
            ),
            None => (no_such_profile(active_model.as_str()), SessionEffect::Keep),
        },
        _ => (quiet(), SessionEffect::Keep),
    }
}

fn decide_git(command: LocalCommand<String>, Ghost(c): Ghost<ConnectionView>) -> (r: Result<
    CommandStep<String>,
    String,
>)
    ensures
        (CommandEffect { step: step_view(r), connection: c, session: SessionEffect::Keep })
            == git_effect(command@, c),
{
    match command {
        LocalCommand::Diff => Ok(CommandStep::Git(GitCommand::Diff)),
        LocalCommand::Status => Ok(CommandStep::Git(GitCommand::Status)),
        LocalCommand::Log => Ok(CommandStep::Git(GitCommand::Log)),
        LocalCommand::Rebase => Ok(CommandStep::Git(GitCommand::Rebase)),
        LocalCommand::Push(force) => Ok(CommandStep::Git(GitCommand::Push(force))),
        LocalCommand::InitRepo => Ok(CommandStep::Git(GitCommand::InitRepo)),
        LocalCommand::Pull(o) => match o {
            Some(n) => Ok(CommandStep::Git(GitCommand::Pull(n))),
            None => output(pull_usage_message()),
        },
        LocalCommand::Merge(o) => match o {
            Some(t) => Ok(CommandStep::Git(GitCommand::Merge(t))),
            None => output(merge_usage_message()),
        },
        LocalCommand::Checkout(o) => match o {
            Some(t) => Ok(CommandStep::Git(GitCommand::Checkout(t))),
            None => output(checkout_usage_message()),
        },
        LocalCommand::AddFile(o) => match o {
            Some(t) => Ok(CommandStep::Git(GitCommand::AddFile(t))),
            None => output(add_file_usage_message()),
        },
        LocalCommand::RemoveFile(o) => match o {
            Some(t) => Ok(CommandStep::Git(GitCommand::RemoveFile(t))),
            None => output(remove_file_usage_message()),
        },
        LocalCommand::MoveFile(o) => match o {
            Some((s, t)) => Ok(CommandStep::Git(GitCommand::MoveFile(s, t))),
            None => output(move_file_usage_message()),
        },
        LocalCommand::CherryPick(o) => match o {
            Some(t) => Ok(CommandStep::Git(GitCommand::CherryPick(t))),
            None => output(cherry_pick_usage_message()),
        },
        LocalCommand::Commit(o) => match o {
            Some(t) => Ok(CommandStep::Git(GitCommand::Commit(t))),
            None => output(commit_usage_message()),
        },
        LocalCommand::DeleteBranch(o) => match o {
            Some(t) => Ok(CommandStep::Git(GitCommand::DeleteBranch(t))),
            None => output(delete_branch_usage_message()),
        },
        _ => quiet(),
    }
}

/// Carries a command out as far as it needs nothing from outside.
pub fn decide_command(
    command: LocalCommand<String>,
    active_model: &mut String,
    current_endpoint: &mut Option<String>,
    context: &CommandContext,
) -> (r: (Result<CommandStep<String>, String>, SessionEffect<String>))
    ensures
        (CommandEffect {
            step: step_view(r.0),
            connection: connection_view(*final(active_model), *final(current_endpoint)),
            session: r.1@,
        }) == command_effect(
            command@,
            connection_view(*old(active_model), *old(current_endpoint)),
            *context,
        ),
{
    let connecting = match &command {
        LocalCommand::ConnectDefault | LocalCommand::ConnectTo(_) | LocalCommand::Disconnect
        | LocalCommand::Reload | LocalCommand::SetModel(_) | LocalCommand::Clear => true,
        _ => false,
    };
    if connecting {
        return decide_connection(command, active_model, current_endpoint, context);
    }
    let ghost c = connection_view(*active_model, *current_endpoint);
    let step = match command {
        LocalCommand::Help => output(context.help_text.as_str()),
        LocalCommand::ListModels => {
            let text = format_models(&context.profiles);
            output(text.as_str())
        },
        LocalCommand::ListFiles => Ok(CommandStep::ListFiles),
        LocalCommand::ShowFile(args) => match parse_show_file_arguments(args.as_str()) {
            Ok((path, options)) => Ok(CommandStep::ShowFile(path, options)),
            Err(error) => {
                let text = local_command_error(error);
                output(text.as_str())
            },
        },
        LocalCommand::Tools => {
            let text = format_tools(&context.tools);
            output(text.as_str())
        },
        LocalCommand::ModelInfo => output("Use /list_models to see configured profiles"),
        LocalCommand::OpenFile(path) => if path.as_str().is_empty() {
            output(open_file_usage_message())
        } else {
            Ok(CommandStep::OpenFile(path))
        },
        LocalCommand::Usage => {
            let text = usage_report(context.usage);
            output(text.as_str())
        },
        LocalCommand::Quit => Ok(CommandStep::Done(CommandOutcome::Quit)),
        command => decide_git(command, Ghost(c)),
    };
    (step, SessionEffect::Keep)
}

/// Carries a line out as a command, as far as it needs nothing from outside.
pub fn handle_command(
    input: &str,
    active_model: &mut String,
    current_endpoint: &mut Option<String>,
    context: &CommandContext,
) -> (r: (Result<CommandStep<String>, String>, SessionEffect<String>))
    ensures
        (CommandEffect {
            step: step_view(r.0),
            connection: connection_view(*final(active_model), *final(current_endpoint)),
            session: r.1@,
        }) == line_effect(
            input@,
            connection_view(*old(active_model), *old(current_endpoint)),
            *context,
        ),
{
    match parse_local_command(input) {
        Some(command) => decide_command(command, active_model, current_endpoint, context),
        None => {
            if starts_with(trim_start(input), "/") {
                let mut message = "Unknown command '".to_string();
                message.append(trim(input));
                message.append("'. Use /help to see available commands.");
                (output(message.as_str()), SessionEffect::Keep)
            } else {
                (Ok(CommandStep::Done(CommandOutcome::Unhandled)), SessionEffect::Keep)
            }
        },
    }
}

/// What git needs to know of a workspace: whether it is in a repository, and its
/// path there; how it is shown; and whether the path to be removed is a
/// directory.
pub struct WorkspaceFacts {
    pub in_repository: bool,
    pub pathspec: Option<String>,
    pub display: String,
    pub removes_directory: bool,
}

/// The name of a command that needs a repository.
pub open spec fn needs_repository(command: GitCommand<Seq<char>>) -> Option<Seq<char>> {
    match command {
        GitCommand::Diff => Some("diff"@),
        GitCommand::Status => Some("status"@),
        GitCommand::Log => Some("log"@),
        GitCommand::Pull(_) => Some("pull"@),
        GitCommand::Rebase => Some("rebase"@),
        GitCommand::Merge(_) => Some("merge"@),
        GitCommand::Checkout(_) => Some("checkout"@),
        GitCommand::AddFile(_) => Some("add_file"@),
        GitCommand::RemoveFile(_) => Some("remove_file"@),
        GitCommand::MoveFile(_, _) => Some("move_file"@),
        GitCommand::CherryPick(_) => Some("cherry_pick"@),
        GitCommand::Commit(_) => Some("commit"@),
        GitCommand::Push(_) => Some("push"@),
        GitCommand::InitRepo => None,
        GitCommand::DeleteBranch(_) => Some("delete"@),
    }
}

fn repository_name(command: &GitCommand<String>) -> (r: Option<&'static str>)
    ensures
        match r {
            Some(s) => needs_repository(command@) == Some(s@),
            None => needs_repository(command@) is None,
        },
{
    match command {
        GitCommand::Diff => Some("diff"),
        GitCommand::Status => Some("status"),
        GitCommand::Log => Some("log"),
        GitCommand::Pull(_) => Some("pull"),
        GitCommand::Rebase => Some("rebase"),
        GitCommand::Merge(_) => Some("merge"),
        GitCommand::Checkout(_) => Some("checkout"),
        GitCommand::AddFile(_) => Some("add_file"),
        GitCommand::RemoveFile(_) => Some("remove_file"),
        GitCommand::MoveFile(_, _) => Some("move_file"),
        GitCommand::CherryPick(_) => Some("cherry_pick"),
        GitCommand::Commit(_) => Some("commit"),
        GitCommand::Push(_) => Some("push"),
        GitCommand::InitRepo => None,
        GitCommand::DeleteBranch(_) => Some("delete"),
    }
}

/// The first stage of a command.
pub open spec fn first_stage(command: GitCommand<Seq<char>>, facts: WorkspaceFacts) -> GitStage<
    Seq<char>,
    Seq<u8>,
> {
    match command {
        GitCommand::Diff => GitStage::Diff(opt_text(facts.pathspec)),
        GitCommand::Status => GitStage::Status,
        GitCommand::Log => GitStage::LogAlias,
        GitCommand::Pull(n) => GitStage::PullHub(n),
        GitCommand::Rebase => GitStage::RebaseView,
        GitCommand::Merge(t) => GitStage::MergeHub(t),
        GitCommand::Checkout(t) => GitStage::Checkout(t),
        GitCommand::AddFile(t) => GitStage::Add(t),
        GitCommand::RemoveFile(t) => GitStage::Remove(t, facts.removes_directory),
        GitCommand::MoveFile(s, t) => GitStage::Move(s, t),
        GitCommand::CherryPick(t) => GitStage::CherryPick(t),
        GitCommand::Commit(t) => GitStage::Commit(t),
        GitCommand::Push(force) => GitStage::PushBranch(force),
        GitCommand::InitRepo => GitStage::Init(facts.display@),
        GitCommand::DeleteBranch(t) => GitStage::DeleteBranch(t),
    }
}

/// How a command for git begins: outside of a repository most cannot, and
/// protected branches are not deleted.
pub open spec fn git_begins(command: GitCommand<Seq<char>>, facts: WorkspaceFacts) -> GitNext<
    Seq<char>,
    Seq<u8>,
> {
    if !facts.in_repository && needs_repository(command) is Some {
        GitNext::Done(
            Err(
                needs_repository(command).unwrap()
                    + " is only available inside a Git repository"@,
            ),
        )
    } else if command matches GitCommand::DeleteBranch(branch) && protected_branch(branch) {
        GitNext::Done(
            Err("deleting the '"@ + command->DeleteBranch_0 + "' branch is not allowed"@),
        )
    } else {
        GitNext::Continue(first_stage(command, facts))
    }
}

/// Begins a command for git.
pub fn git_start(command: GitCommand<String>, facts: WorkspaceFacts) -> (r: GitNext<String, Vec<u8>>)
    ensures
        r@ == git_begins(command@, facts),
{
    if !facts.in_repository {
        if let Some(name) = repository_name(&command) {
            let mut message = name.to_string();
            message.append(" is only available inside a Git repository");
            return GitNext::Done(Err(message));
        }
    }
    let stage = match command {
        GitCommand::Diff => GitStage::Diff(facts.pathspec),
        GitCommand::Status => GitStage::Status,
        GitCommand::Log => GitStage::LogAlias,
        GitCommand::Pull(n) => GitStage::PullHub(n),
        GitCommand::Rebase => GitStage::RebaseView,
        GitCommand::Merge(t) => GitStage::MergeHub(t),
        GitCommand::Checkout(t) => GitStage::Checkout(t),
        GitCommand::AddFile(t) => GitStage::Add(t),
        GitCommand::RemoveFile(t) => GitStage::Remove(t, facts.removes_directory),
        GitCommand::MoveFile(s, t) => GitStage::Move(s, t),
        GitCommand::CherryPick(t) => GitStage::CherryPick(t),
        GitCommand::Commit(t) => GitStage::Commit(t),
        GitCommand::Push(force) => GitStage::PushBranch(force),
        GitCommand::InitRepo => GitStage::Init(facts.display),
        GitCommand::DeleteBranch(t) => {
            if is_protected_branch(t.as_str()) {
                let mut message = "deleting the '".to_string();
                message.append(t.as_str());
                message.append("' branch is not allowed");
                return GitNext::Done(Err(message));
            }
            GitStage::DeleteBranch(t)
        },
    };
    GitNext::Continue(stage)
}

/// A path without the slashes at its end.
pub open spec fn without_final_slashes(s: Seq<char>) -> Seq<char>
    decreases s.len(),
{
    if s.len() > 0 && s.last() == '/' {
        without_final_slashes(s.drop_last())
    } else {
        s
    }
}

/// The path at which a directory is looked for before a removal.
pub fn removal_probe(path: &str) -> (r: &str)
    ensures
        r@ == without_final_slashes(path@),
{
    let x = chars_of(path);
    let mut i: usize = x.len();
    assert(path@.take(i as int) =~= path@);
    while i > 0 && x[i - 1] == '/'
        invariant
            i <= x@.len(),
            x@ == path@,
            without_final_slashes(path@) == without_final_slashes(path@.take(i as int)),
        decreases i,
    {
        assert(path@.take(i as int).drop_last() =~= path@.take(i - 1));
        i -= 1;
    }
    let r = path.substring_char(0, i);
    assert(r@ =~= path@.take(i as int));
    r
}

/// Whether the answer to a command for git is shown.
pub open spec fn shows_answer<T>(command: GitCommand<T>) -> bool {
    match command {
        GitCommand::Diff | GitCommand::Status | GitCommand::Log => true,
        _ => false,
    }
}

/// Tells whether the answer to a command for git is shown.
pub fn answer_is_shown(command: &GitCommand<String>) -> (r: bool)
    ensures
        r == shows_answer(*command),
        r == shows_answer(command@),
{
    match command {
        GitCommand::Diff | GitCommand::Status | GitCommand::Log => true,
        _ => false,
    }
}

/// The outcome of a command that was carried out: its answer, where it is shown,
/// or what went wrong.
pub open spec fn carried_out(shown: bool, result: Result<Seq<char>, Seq<char>>) -> CommandOutcome<
    Seq<char>,
> {
    match result {
        Ok(text) => if shown {
            CommandOutcome::Output(text)
        } else {
            CommandOutcome::Quiet
        },
        Err(reason) => CommandOutcome::Output(error_text(LocalError::Failed(reason))),
    }
}

/// Tells the outcome of a command that was carried out.
pub fn finish_command(shown: bool, result: Result<String, String>) -> (r: CommandOutcome<String>)
    ensures
        r@ == carried_out(shown, crate::show_file::text_result(result)),
{
    match result {
        Ok(text) => if shown {
            CommandOutcome::Output(text)
        } else {
            CommandOutcome::Quiet
        },
        Err(reason) => CommandOutcome::Output(local_command_error(LocalError::Failed(reason))),
    }
}

/// The words of the command that starts the editor: the program comes first.
pub fn editor_command(editor: &str) -> (r: Result<Vec<String>, String>)
    ensures
        match r {
            Ok(v) => words_of(editor@) == Ok::<Seq<Seq<char>>, crate::shell::ShellWordsError>(
                texts(v@),
            ) && v@.len() > 0,
            Err(e) => words_of(editor@) matches Err(error) && e@ == error.text(),
        },
{
    match shell_words(editor) {
        Ok(words) => {
            assert(texts(words@).len() == words@.len());
            Ok(words)
        },
        Err(error) => Err(error.message()),
    }
}

/// No command for git begins with the deletion of a protected branch or with a
/// forced push of one.
pub proof fn law_git_begins_spare_protected(
    command: GitCommand<Seq<char>>,
    facts: WorkspaceFacts,
    stage: GitStage<Seq<char>, Seq<u8>>,
)
    requires
        git_begins(command, facts) == GitNext::Continue(stage),
    ensures
        spares_protected(stage),
{
}

/// Commands change the connection only where they concern it, and the
/// conversation goes on behind all others.
pub proof fn law_other_commands_keep_the_connection(
    command: LocalCommand<Seq<char>>,
    c: ConnectionView,
    context: CommandContext,
)
    requires
        !concerns_connection(command),
    ensures
        command_effect(command, c, context).connection == c,
        command_effect(command, c, context).session == SessionEffect::<Seq<char>>::Keep,
        command_effect(command, c, context).step is Ok,
{
}

/// Reloading undoes any change of the connection: whatever was done before, the
/// client is back at the model and the server that it started with.
pub proof fn law_reload_restores_the_start(
    c: ConnectionView,
    d: ConnectionView,
    context: CommandContext,
)
    ensures
        command_effect(LocalCommand::Reload, c, context) == command_effect(
            LocalCommand::Reload,
            d,
            context,
        ),
        command_effect(LocalCommand::Reload, c, context).connection == (ConnectionView {
            model: context.startup_model@,
            endpoint: Some(context.startup_endpoint@),
        }),
{
}

/// A line that begins with a slash never reaches the model as a prompt.
pub proof fn law_slash_lines_are_answered_here(
    line: Seq<char>,
    c: ConnectionView,
    context: CommandContext,
)
    requires
        "/"@.is_prefix_of(trimmed_start(line)),
    ensures
        line_effect(line, c, context).step != Ok::<CommandStep<Seq<char>>, Seq<char>>(
            CommandStep::Done(CommandOutcome::Unhandled),
        ),
{
}

} // verus!
