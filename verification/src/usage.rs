//! How commands are used, and what is told when they cannot be carried out.
use vstd::prelude::*;
use vstd::string::*;

verus! {

/// How the command is used.
pub fn open_file_usage_message() -> (r: &'static str)
    ensures
        r@ == "Usage: /open_file <path>. Use /help to see available commands."@,
{
    "Usage: /open_file <path>. Use /help to see available commands."
}

/// How the command is used.
pub fn show_file_usage_message() -> (r: &'static str)
    ensures
        r@ == "Usage: /show_file [--hash] [--author] <path>. Use /help to see available commands."@,
{
    "Usage: /show_file [--hash] [--author] <path>. Use /help to see available commands."
}

/// How the command is used.
pub fn model_usage_message() -> (r: &'static str)
    ensures
        r@ == "Usage: /model <name>. Use /help to see available commands."@,
{
    "Usage: /model <name>. Use /help to see available commands."
}

/// How the command is used.
pub fn connect_usage_message() -> (r: &'static str)
    ensures
        r@ == "Usage: /connect <endpoint>. Use /help to see available commands."@,
{
    "Usage: /connect <endpoint>. Use /help to see available commands."
}

/// How the command is used.
pub fn pull_usage_message() -> (r: &'static str)
    ensures
        r@ == "Usage: /pull <number>. Use /help to see available commands."@,
{
    "Usage: /pull <number>. Use /help to see available commands."
}

/// How the command is used.
pub fn merge_usage_message() -> (r: &'static str)
    ensures
        r@ == "Usage: /merge <branch>. Use /help to see available commands."@,
{
    "Usage: /merge <branch>. Use /help to see available commands."
}

/// How the command is used.
pub fn checkout_usage_message() -> (r: &'static str)
    ensures
        r@ == "Usage: /checkout <branch|file>. Use /help to see available commands."@,
{
    "Usage: /checkout <branch|file>. Use /help to see available commands."
}

/// How the command is used.
pub fn add_file_usage_message() -> (r: &'static str)
    ensures
        r@ == "Usage: /add_file <path>. Use /help to see available commands."@,
{
    "Usage: /add_file <path>. Use /help to see available commands."
}

/// How the command is used.
pub fn remove_file_usage_message() -> (r: &'static str)
    ensures
        r@ == "Usage: /remove_file <path>. Use /help to see available commands."@,
{
    "Usage: /remove_file <path>. Use /help to see available commands."
}

/// How the command is used.
pub fn move_file_usage_message() -> (r: &'static str)
    ensures
        r@ == "Usage: /move_file <source> <destination>. Use /help to see available commands."@,
{
    "Usage: /move_file <source> <destination>. Use /help to see available commands."
}

/// How the command is used.
pub fn cherry_pick_usage_message() -> (r: &'static str)
    ensures
        r@ == "Usage: /cherry_pick <commit>. Use /help to see available commands."@,
{
    "Usage: /cherry_pick <commit>. Use /help to see available commands."
}

/// How the command is used.
pub fn commit_usage_message() -> (r: &'static str)
    ensures
        r@ == "Usage: /commit <message>. Use /help to see available commands."@,
{
    "Usage: /commit <message>. Use /help to see available commands."
}

/// How the command is used.
pub fn delete_branch_usage_message() -> (r: &'static str)
    ensures
        r@ == "Usage: /delete <branch>"@,
{
    "Usage: /delete <branch>"
}

/// Why a command was not carried out; the texts are of the type `T`.
#[derive(Debug, PartialEq, Eq)]
pub enum LocalError<T> {
    /// The command was not used as it should be.
    Usage(T),
    /// Carrying it out failed.
    Failed(T),
}

impl View for LocalError<String> {
    type V = LocalError<Seq<char>>;

    open spec fn view(&self) -> LocalError<Seq<char>> {
        match *self {
            LocalError::Usage(t) => LocalError::Usage(t@),
            LocalError::Failed(t) => LocalError::Failed(t@),
        }
    }
}

/// What the user is told.
pub open spec fn error_text(error: LocalError<Seq<char>>) -> Seq<char> {
    match error {
        LocalError::Usage(t) => t,
        LocalError::Failed(t) => "Error: "@ + t,
    }
}

/// Tells the user why a command was not carried out. How a command is used is
/// told as it is; anything else is marked as an error.
pub fn local_command_error(error: LocalError<String>) -> (r: String)
    ensures
        r@ == error_text(error@),
{
    match error {
        LocalError::Usage(t) => t,
        LocalError::Failed(t) => {
            let mut r = "Error: ".to_string();
            r.append(t.as_str());
            r
        },
    }
}

} // verus!
