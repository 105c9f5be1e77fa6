//! Commands that the client answers itself: their forms with a slash and in
//! plain words.
use vstd::prelude::*;
use vstd::string::*;

use crate::number::{number_in, parse_u64};
use crate::shell::{
    quote_shell_argument, quoted, shell_words, strip_matching_quotes, unquoted, words_of,
};
use crate::text::{
    after_prefix_ci, before_suffix_ci, eq_ignore_case, has_whitespace, no_whitespace, opt_str,
    opt_text, same_ignoring_case, starts_with_char, str_eq, strip_ascii_prefix,
    strip_ascii_suffix, strip_prefix, texts, trim, trimmed,
};

verus! {

/// A command that the client answers itself. Its texts are of the type `T`:
/// strings in a value that was parsed, sequences of characters in contracts.
#[derive(Debug, PartialEq, Eq)]
pub enum LocalCommand<T> {
    Help,
    ConnectDefault,
    ConnectTo(T),
    Disconnect,
    Reload,
    ListModels,
    ListFiles,
    ShowFile(T),
    Tools,
    ModelInfo,
    SetModel(T),
    Diff,
    Status,
    Log,
    Pull(Option<u64>),
    Rebase,
    Merge(Option<T>),
    Checkout(Option<T>),
    AddFile(Option<T>),
    RemoveFile(Option<T>),
    MoveFile(Option<(T, T)>),
    CherryPick(Option<T>),
    Commit(Option<T>),
    Push(bool),
    InitRepo,
    DeleteBranch(Option<T>),
    OpenFile(T),
    Usage,
    Clear,
    Quit,
}

impl View for LocalCommand<String> {
    type V = LocalCommand<Seq<char>>;

    open spec fn view(&self) -> LocalCommand<Seq<char>> {
        match *self {
            LocalCommand::Help => LocalCommand::Help,
            LocalCommand::ConnectDefault => LocalCommand::ConnectDefault,
            LocalCommand::ConnectTo(t) => LocalCommand::ConnectTo(t@),
            LocalCommand::Disconnect => LocalCommand::Disconnect,
            LocalCommand::Reload => LocalCommand::Reload,
            LocalCommand::ListModels => LocalCommand::ListModels,
            LocalCommand::ListFiles => LocalCommand::ListFiles,
            LocalCommand::ShowFile(t) => LocalCommand::ShowFile(t@),
            LocalCommand::Tools => LocalCommand::Tools,
            LocalCommand::ModelInfo => LocalCommand::ModelInfo,
            LocalCommand::SetModel(t) => LocalCommand::SetModel(t@),
            LocalCommand::Diff => LocalCommand::Diff,
            LocalCommand::Status => LocalCommand::Status,
            LocalCommand::Log => LocalCommand::Log,
            LocalCommand::Pull(n) => LocalCommand::Pull(n),
            LocalCommand::Rebase => LocalCommand::Rebase,
            LocalCommand::Merge(o) => LocalCommand::Merge(opt_text(o)),
            LocalCommand::Checkout(o) => LocalCommand::Checkout(opt_text(o)),
            LocalCommand::AddFile(o) => LocalCommand::AddFile(opt_text(o)),
            LocalCommand::RemoveFile(o) => LocalCommand::RemoveFile(opt_text(o)),
            LocalCommand::MoveFile(o) => LocalCommand::MoveFile(
                match o {
                    Some(p) => Some((p.0@, p.1@)),
                    None => None,
                },
            ),
            LocalCommand::CherryPick(o) => LocalCommand::CherryPick(opt_text(o)),
            LocalCommand::Commit(o) => LocalCommand::Commit(opt_text(o)),
            LocalCommand::Push(b) => LocalCommand::Push(b),
            LocalCommand::InitRepo => LocalCommand::InitRepo,
            LocalCommand::DeleteBranch(o) => LocalCommand::DeleteBranch(opt_text(o)),
            LocalCommand::OpenFile(t) => LocalCommand::OpenFile(t@),
            LocalCommand::Usage => LocalCommand::Usage,
            LocalCommand::Clear => LocalCommand::Clear,
            LocalCommand::Quit => LocalCommand::Quit,
        }
    }
}

/// The view of an optional command.
pub open spec fn opt_command(o: Option<LocalCommand<String>>) -> Option<LocalCommand<Seq<char>>> {
    match o {
        Some(c) => Some(c@),
        None => None,
    }
}

/// Whether `s` begins with `prefix`.
pub open spec fn begins(s: Seq<char>, prefix: Seq<char>) -> bool {
    prefix.is_prefix_of(s)
}

/// Whether `s` begins with `prefix`, up to the case of ASCII letters.
pub open spec fn begins_ci(s: Seq<char>, prefix: Seq<char>) -> bool {
    after_prefix_ci(s, prefix) is Some
}

/// What stands behind a prefix of this length, without white space around it.
pub open spec fn argument(s: Seq<char>, prefix: Seq<char>) -> Seq<char> {
    trimmed(s.skip(prefix.len() as int))
}

/// A text, unless it is empty.
pub open spec fn unless_empty(s: Seq<char>) -> Option<Seq<char>> {
    if s.len() == 0 {
        None
    } else {
        Some(s)
    }
}

/// The first of two values that is there.
pub open spec fn first_of<A>(a: Option<A>, b: Option<A>) -> Option<A> {
    match a {
        Some(x) => Some(x),
        None => b,
    }
}

/// The two files of a move: the first two words of `s`.
pub open spec fn two_words(s: Seq<char>) -> Option<(Seq<char>, Seq<char>)> {
    match words_of(s) {
        Ok(words) => if words.len() >= 2 {
            Some((words[0], words[1]))
        } else {
            None
        },
        Err(_) => None,
    }
}

/// Reads the first two words of `input`.
fn parse_two_words(input: &str) -> (r: Option<(String, String)>)
    ensures
        match r {
            Some(p) => two_words(input@) == Some((p.0@, p.1@)),
            None => two_words(input@) is None,
        },
{
    match shell_words(input) {
        Ok(words) => {
            if words.len() >= 2 {
                assert(texts(words@)[0] == words@[0]@);
                assert(texts(words@)[1] == words@[1]@);
                Some((words[0].clone(), words[1].clone()))
            } else {
                None
            }
        },
        Err(_) => None,
    }
}

/// An owned copy of a text, unless it is empty.
fn owned_unless_empty(s: &str) -> (r: Option<String>)
    ensures
        opt_text(r) == unless_empty(s@),
{
    if s.is_empty() {
        None
    } else {
        Some(s.to_string())
    }
}

/// The slash commands that are one word.
pub open spec fn slash_word(s: Seq<char>) -> Option<LocalCommand<Seq<char>>> {
    if s == "/help"@ {
        Some(LocalCommand::Help)
    } else if s == "/connect"@ {
        Some(LocalCommand::ConnectDefault)
    } else if s == "/disconnect"@ {
        Some(LocalCommand::Disconnect)
    } else if s == "/reload"@ {
        Some(LocalCommand::Reload)
    } else if s == "/list_models"@ {
        Some(LocalCommand::ListModels)
    } else if s == "/list_files"@ {
        Some(LocalCommand::ListFiles)
    } else if s == "/show_file"@ {
        Some(LocalCommand::ShowFile(Seq::empty()))
    } else if s == "/open_file"@ {
        Some(LocalCommand::OpenFile(Seq::empty()))
    } else if s == "/tools"@ {
        Some(LocalCommand::Tools)
    } else if s == "/model"@ {
        Some(LocalCommand::ModelInfo)
    } else if s == "/diff"@ {
        Some(LocalCommand::Diff)
    } else if s == "/status"@ {
        Some(LocalCommand::Status)
    } else if s == "/log"@ {
        Some(LocalCommand::Log)
    } else if s == "/pull"@ {
        Some(LocalCommand::Pull(None))
    } else if s == "/rebase"@ {
        Some(LocalCommand::Rebase)
    } else if s == "/merge"@ {
        Some(LocalCommand::Merge(None))
    } else if s == "/checkout"@ {
        Some(LocalCommand::Checkout(None))
    } else if s == "/add_file"@ {
        Some(LocalCommand::AddFile(None))
    } else if s == "/remove_file"@ {
        Some(LocalCommand::RemoveFile(None))
    } else if s == "/move_file"@ {
        Some(LocalCommand::MoveFile(None))
    } else if s == "/cherry_pick"@ {
        Some(LocalCommand::CherryPick(None))
    } else if s == "/commit"@ {
        Some(LocalCommand::Commit(None))
    } else if s == "/push"@ {
        Some(LocalCommand::Push(false))
    } else if s == "/init_repo"@ {
        Some(LocalCommand::InitRepo)
    } else if s == "/delete"@ {
        Some(LocalCommand::DeleteBranch(None))
    } else if s == "/usage"@ {
        Some(LocalCommand::Usage)
    } else if s == "/clear"@ {
        Some(LocalCommand::Clear)
    } else if s == "/quit"@ {
        Some(LocalCommand::Quit)
    } else {
        None
    }
}

/// The slash commands with an argument.
pub open spec fn slash_with_argument(s: Seq<char>) -> Option<LocalCommand<Seq<char>>> {
    if begins(s, "/connect "@) {
        Some(LocalCommand::ConnectTo(argument(s, "/connect "@)))
    } else if begins(s, "/model "@) {
        Some(LocalCommand::SetModel(argument(s, "/model "@)))
    } else if begins(s, "/show_file "@) {
        Some(LocalCommand::ShowFile(argument(s, "/show_file "@)))
    } else if begins(s, "/pull "@) {
        Some(LocalCommand::Pull(number_in(argument(s, "/pull "@))))
    } else if begins(s, "/merge "@) {
        Some(LocalCommand::Merge(unless_empty(argument(s, "/merge "@))))
    } else if begins(s, "/checkout "@) {
        Some(LocalCommand::Checkout(unless_empty(argument(s, "/checkout "@))))
    } else if begins(s, "/add_file "@) {
        Some(LocalCommand::AddFile(unless_empty(argument(s, "/add_file "@))))
    } else if begins(s, "/remove_file "@) {
        Some(LocalCommand::RemoveFile(unless_empty(argument(s, "/remove_file "@))))
    } else if begins(s, "/move_file "@) {
        Some(LocalCommand::MoveFile(two_words(argument(s, "/move_file "@))))
    } else if begins(s, "/cherry_pick "@) {
        Some(LocalCommand::CherryPick(unless_empty(argument(s, "/cherry_pick "@))))
    } else if begins(s, "/commit "@) {
        Some(LocalCommand::Commit(unless_empty(unquoted(argument(s, "/commit "@)))))
    } else if begins(s, "/push "@) && force_flag(argument(s, "/push "@)) {
        Some(LocalCommand::Push(true))
    } else if begins(s, "/delete "@) {
        Some(LocalCommand::DeleteBranch(unless_empty(argument(s, "/delete "@))))
    } else if begins(s, "/open_file "@) && argument(s, "/open_file "@).len() == 0 {
        Some(LocalCommand::OpenFile(Seq::empty()))
    } else {
        match open_file_target(s, "/open_file "@) {
            Some(path) => Some(LocalCommand::OpenFile(path)),
            None => None,
        }
    }
}

/// The flags that make a push overwrite the remote branch.
pub open spec fn force_flag(flag: Seq<char>) -> bool {
    flag == "--force"@ || flag == "-f"@ || same_ignoring_case(flag, "force"@)
}

/// The path behind `prefix`, without quotes around it.
pub open spec fn open_file_target(s: Seq<char>, prefix: Seq<char>) -> Option<Seq<char>> {
    if begins_ci(s, prefix) && argument(s, prefix).len() > 0 {
        Some(unquoted(argument(s, prefix)))
    } else {
        None
    }
}

/// Reads the path of a file to open.
pub fn parse_open_file_target<'a>(input: &'a str, prefix: &str) -> (r: Option<&'a str>)
    ensures
        opt_str(r) == open_file_target(input@, prefix@),
{
    match strip_ascii_prefix(input, prefix) {
        Some(rest) => {
            let path = trim(rest);
            if path.is_empty() {
                None
            } else {
                Some(strip_matching_quotes(path))
            }
        },
        None => None,
    }
}

/// The commands that begin with a slash.
pub open spec fn slash_command(s: Seq<char>) -> Option<LocalCommand<Seq<char>>> {
    first_of(slash_word(s), slash_with_argument(s))
}

fn parse_slash_word(input: &str) -> (r: Option<LocalCommand<String>>)
    ensures
        opt_command(r) == slash_word(input@),
{
    if str_eq(input, "/help") {
        Some(LocalCommand::Help)
    } else if str_eq(input, "/connect") {
        Some(LocalCommand::ConnectDefault)
    } else if str_eq(input, "/disconnect") {
        Some(LocalCommand::Disconnect)
    } else if str_eq(input, "/reload") {
        Some(LocalCommand::Reload)
    } else if str_eq(input, "/list_models") {
        Some(LocalCommand::ListModels)
    } else if str_eq(input, "/list_files") {
        Some(LocalCommand::ListFiles)
    } else if str_eq(input, "/show_file") {
        Some(LocalCommand::ShowFile(String::new()))
    } else if str_eq(input, "/open_file") {
        Some(LocalCommand::OpenFile(String::new()))
    } else if str_eq(input, "/tools") {
        Some(LocalCommand::Tools)
    } else if str_eq(input, "/model") {
        Some(LocalCommand::ModelInfo)
    } else if str_eq(input, "/diff") {
        Some(LocalCommand::Diff)
    } else if str_eq(input, "/status") {
        Some(LocalCommand::Status)
    } else if str_eq(input, "/log") {
        Some(LocalCommand::Log)
    } else if str_eq(input, "/pull") {
        Some(LocalCommand::Pull(None))
    } else if str_eq(input, "/rebase") {
        Some(LocalCommand::Rebase)
    } else if str_eq(input, "/merge") {
        Some(LocalCommand::Merge(None))
    } else if str_eq(input, "/checkout") {
        Some(LocalCommand::Checkout(None))
    } else if str_eq(input, "/add_file") {
        Some(LocalCommand::AddFile(None))
    } else if str_eq(input, "/remove_file") {
        Some(LocalCommand::RemoveFile(None))
    } else if str_eq(input, "/move_file") {
        Some(LocalCommand::MoveFile(None))
    } else if str_eq(input, "/cherry_pick") {
        Some(LocalCommand::CherryPick(None))
    } else if str_eq(input, "/commit") {
        Some(LocalCommand::Commit(None))
    } else if str_eq(input, "/push") {
        Some(LocalCommand::Push(false))
    } else if str_eq(input, "/init_repo") {
        Some(LocalCommand::InitRepo)
    } else if str_eq(input, "/delete") {
        Some(LocalCommand::DeleteBranch(None))
    } else if str_eq(input, "/usage") {
        Some(LocalCommand::Usage)
    } else if str_eq(input, "/clear") {
        Some(LocalCommand::Clear)
    } else if str_eq(input, "/quit") {
        Some(LocalCommand::Quit)
    } else {
        None
    }
}

fn parse_slash_with_argument(input: &str) -> (r: Option<LocalCommand<String>>)
    ensures
        opt_command(r) == slash_with_argument(input@),
{
    if let Some(rest) = strip_prefix(input, "/connect ") {
        return Some(LocalCommand::ConnectTo(trim(rest).to_string()));
    }
    if let Some(rest) = strip_prefix(input, "/model ") {
        return Some(LocalCommand::SetModel(trim(rest).to_string()));
    }
    if let Some(rest) = strip_prefix(input, "/show_file ") {
        return Some(LocalCommand::ShowFile(trim(rest).to_string()));
    }
    if let Some(rest) = strip_prefix(input, "/pull ") {
        return Some(LocalCommand::Pull(parse_u64(trim(rest))));
    }
    if let Some(rest) = strip_prefix(input, "/merge ") {
        return Some(LocalCommand::Merge(owned_unless_empty(trim(rest))));
    }
    if let Some(rest) = strip_prefix(input, "/checkout ") {
        return Some(LocalCommand::Checkout(owned_unless_empty(trim(rest))));
    }
    if let Some(rest) = strip_prefix(input, "/add_file ") {
        return Some(LocalCommand::AddFile(owned_unless_empty(trim(rest))));
    }
    if let Some(rest) = strip_prefix(input, "/remove_file ") {
        return Some(LocalCommand::RemoveFile(owned_unless_empty(trim(rest))));
    }
    if let Some(rest) = strip_prefix(input, "/move_file ") {
        return Some(LocalCommand::MoveFile(parse_two_words(trim(rest))));
    }
    if let Some(rest) = strip_prefix(input, "/cherry_pick ") {
        return Some(LocalCommand::CherryPick(owned_unless_empty(trim(rest))));
    }
    if let Some(rest) = strip_prefix(input, "/commit ") {
        let message = strip_matching_quotes(trim(rest));
        return Some(LocalCommand::Commit(owned_unless_empty(message)));
    }
    if let Some(rest) = strip_prefix(input, "/push ") {
        let flag = trim(rest);
        if str_eq(flag, "--force") || str_eq(flag, "-f") || eq_ignore_case(flag, "force") {
            return Some(LocalCommand::Push(true));
        }
    }
    if let Some(rest) = strip_prefix(input, "/delete ") {
        return Some(LocalCommand::DeleteBranch(owned_unless_empty(trim(rest))));
    }
    if let Some(rest) = strip_prefix(input, "/open_file ") {
        if trim(rest).is_empty() {
            return Some(LocalCommand::OpenFile(String::new()));
        }
    }
    match parse_open_file_target(input, "/open_file ") {
        Some(path) => Some(LocalCommand::OpenFile(path.to_string())),
        None => None,
    }
}

/// Reads a command that begins with a slash.
pub fn parse_slash_command(input: &str) -> (r: Option<LocalCommand<String>>)
    ensures
        opt_command(r) == slash_command(input@),
{
    match parse_slash_word(input) {
        Some(command) => Some(command),
        None => parse_slash_with_argument(input),
    }
}

/// The argument behind a phrase, where it is not empty.
pub open spec fn named_argument(s: Seq<char>, phrase: Seq<char>) -> Option<Seq<char>> {
    if begins_ci(s, phrase) {
        unless_empty(argument(s, phrase))
    } else {
        None
    }
}

/// Reads the argument behind a phrase.
fn parse_named_argument<'a>(input: &'a str, phrase: &str) -> (r: Option<&'a str>)
    ensures
        opt_str(r) == named_argument(input@, phrase@),
{
    match strip_ascii_prefix(input, phrase) {
        Some(rest) => {
            let path = trim(rest);
            if path.is_empty() {
                None
            } else {
                Some(path)
            }
        },
        None => None,
    }
}

/// The first of two texts that is there.
fn either<'a>(a: Option<&'a str>, b: Option<&'a str>) -> (r: Option<&'a str>)
    ensures
        opt_str(r) == first_of(opt_str(a), opt_str(b)),
{
    match a {
        Some(x) => Some(x),
        None => b,
    }
}

/// Phrases that ask for information or concern the connection.
pub open spec fn information_phrase(s: Seq<char>) -> Option<LocalCommand<Seq<char>>> {
    if same_ignoring_case(s, "help"@)
        || same_ignoring_case(s, "show help"@)
        || same_ignoring_case(s, "show commands"@)
        || same_ignoring_case(s, "show available commands"@) {
        Some(LocalCommand::Help)
    } else if same_ignoring_case(s, "connect"@)
        || same_ignoring_case(s, "reconnect"@) {
        Some(LocalCommand::ConnectDefault)
    } else if begins_ci(s, "connect to "@) {
        Some(LocalCommand::ConnectTo(argument(s, "connect to "@)))
    } else if same_ignoring_case(s, "disconnect"@) {
        Some(LocalCommand::Disconnect)
    } else if same_ignoring_case(s, "reload"@)
        || same_ignoring_case(s, "reload configuration"@)
        || same_ignoring_case(s, "reset session"@) {
        Some(LocalCommand::Reload)
    } else if same_ignoring_case(s, "list models"@)
        || same_ignoring_case(s, "show models"@)
        || same_ignoring_case(s, "show available models"@)
        || same_ignoring_case(s, "models"@) {
        Some(LocalCommand::ListModels)
    } else if same_ignoring_case(s, "list files"@)
        || same_ignoring_case(s, "show files"@)
        || same_ignoring_case(s, "show workspace files"@)
        || same_ignoring_case(s, "list workspace files"@) {
        Some(LocalCommand::ListFiles)
    } else if same_ignoring_case(s, "show tools"@)
        || same_ignoring_case(s, "list tools"@)
        || same_ignoring_case(s, "show local tools"@)
        || same_ignoring_case(s, "tools"@) {
        Some(LocalCommand::Tools)
    } else if same_ignoring_case(s, "show model"@)
        || same_ignoring_case(s, "current model"@)
        || same_ignoring_case(s, "what model am i using"@)
        || same_ignoring_case(s, "model"@) {
        Some(LocalCommand::ModelInfo)
    } else if same_ignoring_case(s, "diff"@)
        || same_ignoring_case(s, "show diff"@)
        || same_ignoring_case(s, "git diff"@) {
        Some(LocalCommand::Diff)
    } else if same_ignoring_case(s, "status"@)
        || same_ignoring_case(s, "show status"@)
        || same_ignoring_case(s, "git status"@) {
        Some(LocalCommand::Status)
    } else if same_ignoring_case(s, "log"@)
        || same_ignoring_case(s, "show log"@)
        || same_ignoring_case(s, "git log"@)
        || same_ignoring_case(s, "git lg"@) {
        Some(LocalCommand::Log)
    } else if same_ignoring_case(s, "usage"@)
        || same_ignoring_case(s, "show usage"@) {
        Some(LocalCommand::Usage)
    } else {
        None
    }
}

fn parse_information_phrase(input: &str) -> (r: Option<LocalCommand<String>>)
    ensures
        opt_command(r) == information_phrase(input@),
{
    if eq_ignore_case(input, "help")
        || eq_ignore_case(input, "show help")
        || eq_ignore_case(input, "show commands")
        || eq_ignore_case(input, "show available commands") {
        return Some(LocalCommand::Help);
    }
    if eq_ignore_case(input, "connect")
        || eq_ignore_case(input, "reconnect") {
        return Some(LocalCommand::ConnectDefault);
    }
    if let Some(rest) = strip_ascii_prefix(input, "connect to ") {
        return Some(LocalCommand::ConnectTo(trim(rest).to_string()));
    }
    if eq_ignore_case(input, "disconnect") {
        return Some(LocalCommand::Disconnect);
    }
    if eq_ignore_case(input, "reload")
        || eq_ignore_case(input, "reload configuration")
        || eq_ignore_case(input, "reset session") {
        return Some(LocalCommand::Reload);
    }
    if eq_ignore_case(input, "list models")
        || eq_ignore_case(input, "show models")
        || eq_ignore_case(input, "show available models")
        || eq_ignore_case(input, "models") {
        return Some(LocalCommand::ListModels);
    }
    if eq_ignore_case(input, "list files")
        || eq_ignore_case(input, "show files")
        || eq_ignore_case(input, "show workspace files")
        || eq_ignore_case(input, "list workspace files") {
        return Some(LocalCommand::ListFiles);
    }
    if eq_ignore_case(input, "show tools")
        || eq_ignore_case(input, "list tools")
        || eq_ignore_case(input, "show local tools")
        || eq_ignore_case(input, "tools") {
        return Some(LocalCommand::Tools);
    }
    if eq_ignore_case(input, "show model")
        || eq_ignore_case(input, "current model")
        || eq_ignore_case(input, "what model am i using")
        || eq_ignore_case(input, "model") {
        return Some(LocalCommand::ModelInfo);
    }
    if eq_ignore_case(input, "diff")
        || eq_ignore_case(input, "show diff")
        || eq_ignore_case(input, "git diff") {
        return Some(LocalCommand::Diff);
    }
    if eq_ignore_case(input, "status")
        || eq_ignore_case(input, "show status")
        || eq_ignore_case(input, "git status") {
        return Some(LocalCommand::Status);
    }
    if eq_ignore_case(input, "log")
        || eq_ignore_case(input, "show log")
        || eq_ignore_case(input, "git log")
        || eq_ignore_case(input, "git lg") {
        return Some(LocalCommand::Log);
    }
    if eq_ignore_case(input, "usage")
        || eq_ignore_case(input, "show usage") {
        return Some(LocalCommand::Usage);
    }
    None
}

/// The name of the model that a phrase selects.
pub open spec fn model_name(s: Seq<char>) -> Option<Seq<char>> {
    if begins_ci(s, "use model "@) {
        Some(argument(s, "use model "@))
    } else if begins_ci(s, "switch model to "@) {
        Some(argument(s, "switch model to "@))
    } else if begins_ci(s, "set model to "@) {
        Some(argument(s, "set model to "@))
    } else if begins_ci(s, "select model "@) {
        Some(argument(s, "select model "@))
    } else {
        None
    }
}

fn parse_model_name(input: &str) -> (r: Option<&str>)
    ensures
        opt_str(r) == model_name(input@),
{
    if let Some(rest) = strip_ascii_prefix(input, "use model ") {
        return Some(trim(rest));
    }
    if let Some(rest) = strip_ascii_prefix(input, "switch model to ") {
        return Some(trim(rest));
    }
    if let Some(rest) = strip_ascii_prefix(input, "set model to ") {
        return Some(trim(rest));
    }
    if let Some(rest) = strip_ascii_prefix(input, "select model ") {
        return Some(trim(rest));
    }
    None
}

/// The path of a file to open.
pub open spec fn file_to_open(s: Seq<char>) -> Option<Seq<char>> {
    first_of(
        open_file_target(s, "/open_file "@),
        first_of(
            open_file_target(s, "open file "@),
            first_of(
                open_file_target(s, "open "@),
                first_of(open_file_target(s, "edit file "@), open_file_target(s, "edit "@)),
            ),
        ),
    )
}

fn parse_file_to_open(input: &str) -> (r: Option<&str>)
    ensures
        opt_str(r) == file_to_open(input@),
{
    either(
        parse_open_file_target(input, "/open_file "),
        either(
            parse_open_file_target(input, "open file "),
            either(
                parse_open_file_target(input, "open "),
                either(
                    parse_open_file_target(input, "edit file "),
                    parse_open_file_target(input, "edit "),
                ),
            ),
        ),
    )
}

/// The columns that a listing of a file shows beside the source.
#[derive(Clone, Copy, Debug, PartialEq, Eq, Structural)]
pub struct ShowFileOptions {
    pub show_hash: bool,
    pub show_author: bool,
}

impl Default for ShowFileOptions {
    fn default() -> (r: Self)
        ensures
            r == no_columns(),
    {
        ShowFileOptions { show_hash: false, show_author: false }
    }
}

/// A listing without columns.
pub open spec fn no_columns() -> ShowFileOptions {
    ShowFileOptions { show_hash: false, show_author: false }
}

/// The path of a file to show. A path in plain words is a single word, unless
/// it is quoted.
pub open spec fn show_file_target(path: Seq<char>, single_word: bool) -> Option<Seq<char>> {
    if path.len() == 0 {
        None
    } else if single_word && path[0] != '"' && path[0] != '\'' && !no_whitespace(path) {
        None
    } else {
        Some(unquoted(path))
    }
}

/// Reads the path of a file to show.
pub fn parse_show_file_target(path: &str, single_token_only: bool) -> (r: Option<&str>)
    ensures
        opt_str(r) == show_file_target(path@, single_token_only),
{
    if path.is_empty() {
        return None;
    }
    let quoted = starts_with_char(path, '"') || starts_with_char(path, '\'');
    if single_token_only && !quoted && has_whitespace(path) {
        return None;
    }
    Some(strip_matching_quotes(path))
}

/// The path and the columns that a phrase asks for. The columns are named at
/// the end of the phrase.
pub open spec fn show_file_request(raw: Seq<char>, single_word: bool) -> Option<
    (Seq<char>, ShowFileOptions),
> {
    let both = ShowFileOptions { show_hash: true, show_author: true };
    let hash = ShowFileOptions { show_hash: true, show_author: false };
    let author = ShowFileOptions { show_hash: false, show_author: true };
    let (path, options) = if let Some(p) = before_suffix_ci(raw, " with hash and author"@) {
        (trimmed(p), both)
    } else if let Some(p) = before_suffix_ci(raw, " with author and hash"@) {
        (trimmed(p), both)
    } else if let Some(p) = before_suffix_ci(raw, " with hash"@) {
        (trimmed(p), hash)
    } else if let Some(p) = before_suffix_ci(raw, " with author"@) {
        (trimmed(p), author)
    } else {
        (raw, no_columns())
    };
    match show_file_target(path, single_word) {
        Some(target) => Some((target, options)),
        None => None,
    }
}

/// Reads the path and the columns that a phrase asks for.
pub fn parse_show_file_natural_language_target(raw: &str, single_token_only: bool) -> (r: Option<
    (&str, ShowFileOptions),
>)
    ensures
        match r {
            Some(p) => show_file_request(raw@, single_token_only) == Some((p.0@, p.1)),
            None => show_file_request(raw@, single_token_only) is None,
        },
{
    let both = ShowFileOptions { show_hash: true, show_author: true };
    let hash = ShowFileOptions { show_hash: true, show_author: false };
    let author = ShowFileOptions { show_hash: false, show_author: true };
    let (path, options) = if let Some(p) = strip_ascii_suffix(raw, " with hash and author") {
        (trim(p), both)
    } else if let Some(p) = strip_ascii_suffix(raw, " with author and hash") {
        (trim(p), both)
    } else if let Some(p) = strip_ascii_suffix(raw, " with hash") {
        (trim(p), hash)
    } else if let Some(p) = strip_ascii_suffix(raw, " with author") {
        (trim(p), author)
    } else {
        (raw, ShowFileOptions::default())
    };
    match parse_show_file_target(path, single_token_only) {
        Some(target) => Some((target, options)),
        None => None,
    }
}

/// The arguments of the show command that ask for a path with its columns.
pub open spec fn show_file_arguments(path: Seq<char>, options: ShowFileOptions) -> Seq<char> {
    if options == no_columns() {
        path
    } else {
        (if options.show_hash { "--hash "@ } else { Seq::empty() }) + (if options.show_author {
            "--author "@
        } else {
            Seq::empty()
        }) + quoted(path)
    }
}

/// The arguments of the show command behind a phrase.
pub open spec fn show_file_phrase(s: Seq<char>, prefix: Seq<char>, single_word: bool) -> Option<
    Seq<char>,
> {
    if begins_ci(s, prefix) {
        match show_file_request(argument(s, prefix), single_word) {
            Some((path, options)) => Some(show_file_arguments(path, options)),
            None => None,
        }
    } else {
        None
    }
}

/// Reads the arguments of the show command behind a phrase.
pub fn parse_show_file_natural_language_args_with_prefix(
    input: &str,
    prefix: &str,
    single_token_only: bool,
) -> (r: Option<String>)
    ensures
        opt_text(r) == show_file_phrase(input@, prefix@, single_token_only),
{
    match strip_ascii_prefix(input, prefix) {
        Some(rest) => {
            match parse_show_file_natural_language_target(trim(rest), single_token_only) {
                Some((path, options)) => {
                    if !options.show_hash && !options.show_author {
                        return Some(path.to_string());
                    }
                    let mut args = String::new();
                    if options.show_hash {
                        args.append("--hash ");
                    }
                    if options.show_author {
                        args.append("--author ");
                    }
                    let quoted_path = quote_shell_argument(path);
                    args.append(quoted_path.as_str());
                    assert(args@ =~= show_file_arguments(path@, options));
                    Some(args)
                },
                None => None,
            }
        },
        None => None,
    }
}

/// The arguments of the show command in plain words.
pub open spec fn file_to_show(s: Seq<char>) -> Option<Seq<char>> {
    first_of(show_file_phrase(s, "show file "@, false), show_file_phrase(s, "show "@, true))
}

/// Reads the arguments of the show command in plain words.
pub fn parse_show_file_natural_language_args(input: &str) -> (r: Option<String>)
    ensures
        opt_text(r) == file_to_show(input@),
{
    match parse_show_file_natural_language_args_with_prefix(input, "show file ", false) {
        Some(args) => Some(args),
        None => parse_show_file_natural_language_args_with_prefix(input, "show ", true),
    }
}

/// The number behind a phrase.
pub open spec fn number_after(s: Seq<char>, phrase: Seq<char>) -> Option<u64> {
    if begins_ci(s, phrase) {
        number_in(argument(s, phrase))
    } else {
        None
    }
}

fn parse_number_after(input: &str, phrase: &str) -> (r: Option<u64>)
    ensures
        r == number_after(input@, phrase@),
{
    match strip_ascii_prefix(input, phrase) {
        Some(rest) => parse_u64(trim(rest)),
        None => None,
    }
}

/// The number of the pull request that a phrase names.
pub open spec fn pull_number(s: Seq<char>) -> Option<u64> {
    first_of(
        number_after(s, "pull pull request "@),
        first_of(
            number_after(s, "pull request "@),
            first_of(
                number_after(s, "pull pr "@),
                first_of(number_after(s, "pull #"@), number_after(s, "pull "@)),
            ),
        ),
    )
}

/// Reads the number of the pull request that a phrase names.
pub fn parse_pull_pr_number(input: &str) -> (r: Option<u64>)
    ensures
        r == pull_number(input@),
{
    if let Some(n) = parse_number_after(input, "pull pull request ") {
        return Some(n);
    }
    if let Some(n) = parse_number_after(input, "pull request ") {
        return Some(n);
    }
    if let Some(n) = parse_number_after(input, "pull pr ") {
        return Some(n);
    }
    if let Some(n) = parse_number_after(input, "pull #") {
        return Some(n);
    }
    parse_number_after(input, "pull ")
}

/// Phrases about models and files, and those that fetch a pull request.
pub open spec fn file_phrase(s: Seq<char>) -> Option<LocalCommand<Seq<char>>> {
    if let Some(name) = model_name(s) {
        Some(LocalCommand::SetModel(name))
    } else if let Some(path) = file_to_open(s) {
        Some(LocalCommand::OpenFile(path))
    } else if let Some(args) = file_to_show(s) {
        Some(LocalCommand::ShowFile(args))
    } else if let Some(n) = pull_number(s) {
        Some(LocalCommand::Pull(Some(n)))
    } else {
        None
    }
}

fn parse_file_phrase(input: &str) -> (r: Option<LocalCommand<String>>)
    ensures
        opt_command(r) == file_phrase(input@),
{
    if let Some(name) = parse_model_name(input) {
        return Some(LocalCommand::SetModel(name.to_string()));
    }
    if let Some(path) = parse_file_to_open(input) {
        return Some(LocalCommand::OpenFile(path.to_string()));
    }
    if let Some(args) = parse_show_file_natural_language_args(input) {
        return Some(LocalCommand::ShowFile(args));
    }
    if let Some(n) = parse_pull_pr_number(input) {
        return Some(LocalCommand::Pull(Some(n)));
    }
    None
}

/// The branch or file behind "switch to", without the word "branch" at its
/// end.
pub open spec fn switch_target(s: Seq<char>) -> Option<Seq<char>> {
    if begins_ci(s, "switch to "@) {
        let target = argument(s, "switch to "@);
        unless_empty(
            match before_suffix_ci(target, " branch"@) {
                Some(name) => trimmed(name),
                None => target,
            },
        )
    } else {
        None
    }
}

fn parse_switch_target(input: &str) -> (r: Option<&str>)
    ensures
        opt_str(r) == switch_target(input@),
{
    match strip_ascii_prefix(input, "switch to ") {
        Some(rest) => {
            let target = trim(rest);
            let target = match strip_ascii_suffix(target, " branch") {
                Some(name) => trim(name),
                None => target,
            };
            if target.is_empty() {
                None
            } else {
                Some(target)
            }
        },
        None => None,
    }
}

/// Phrases that change the checked out state: rebase, merge, checkout.
pub open spec fn branch_phrase(s: Seq<char>) -> Option<LocalCommand<Seq<char>>> {
    if same_ignoring_case(s, "rebase"@) || same_ignoring_case(s, "git rebase"@) {
        Some(LocalCommand::Rebase)
    } else if let Some(branch) = first_of(
        named_argument(s, "git merge "@),
        named_argument(s, "merge "@),
    ) {
        Some(LocalCommand::Merge(Some(branch)))
    } else if same_ignoring_case(s, "merge"@) {
        Some(LocalCommand::Merge(None))
    } else if let Some(target) = first_of(
        named_argument(s, "git checkout "@),
        first_of(named_argument(s, "checkout "@), switch_target(s)),
    ) {
        Some(LocalCommand::Checkout(Some(target)))
    } else if same_ignoring_case(s, "checkout"@) || same_ignoring_case(s, "switch to"@) {
        Some(LocalCommand::Checkout(None))
    } else {
        None
    }
}

fn parse_branch_phrase(input: &str) -> (r: Option<LocalCommand<String>>)
    ensures
        opt_command(r) == branch_phrase(input@),
{
    if eq_ignore_case(input, "rebase") || eq_ignore_case(input, "git rebase") {
        return Some(LocalCommand::Rebase);
    }
    if let Some(branch) = either(
        parse_named_argument(input, "git merge "),
        parse_named_argument(input, "merge "),
    ) {
        return Some(LocalCommand::Merge(Some(branch.to_string())));
    }
    if eq_ignore_case(input, "merge") {
        return Some(LocalCommand::Merge(None));
    }
    if let Some(target) = either(
        parse_named_argument(input, "git checkout "),
        either(parse_named_argument(input, "checkout "), parse_switch_target(input)),
    ) {
        return Some(LocalCommand::Checkout(Some(target.to_string())));
    }
    if eq_ignore_case(input, "checkout") || eq_ignore_case(input, "switch to") {
        return Some(LocalCommand::Checkout(None));
    }
    None
}

/// The two files behind a phrase.
pub open spec fn two_words_after(s: Seq<char>, phrase: Seq<char>) -> Option<
    (Seq<char>, Seq<char>),
> {
    if begins_ci(s, phrase) {
        two_words(argument(s, phrase))
    } else {
        None
    }
}

fn parse_two_words_after(input: &str, phrase: &str) -> (r: Option<(String, String)>)
    ensures
        match r {
            Some(p) => two_words_after(input@, phrase@) == Some((p.0@, p.1@)),
            None => two_words_after(input@, phrase@) is None,
        },
{
    match strip_ascii_prefix(input, phrase) {
        Some(rest) => parse_two_words(trim(rest)),
        None => None,
    }
}

/// The two files that a phrase moves.
pub open spec fn files_to_move(s: Seq<char>) -> Option<(Seq<char>, Seq<char>)> {
    first_of(
        two_words_after(s, "git mv "@),
        first_of(two_words_after(s, "move file "@), two_words_after(s, "move "@)),
    )
}

fn parse_files_to_move(input: &str) -> (r: Option<(String, String)>)
    ensures
        match r {
            Some(p) => files_to_move(input@) == Some((p.0@, p.1@)),
            None => files_to_move(input@) is None,
        },
{
    if let Some(p) = parse_two_words_after(input, "git mv ") {
        return Some(p);
    }
    if let Some(p) = parse_two_words_after(input, "move file ") {
        return Some(p);
    }
    parse_two_words_after(input, "move ")
}

/// Phrases that add, remove or move files.
pub open spec fn worktree_phrase(s: Seq<char>) -> Option<LocalCommand<Seq<char>>> {
    if let Some(path) = first_of(
        named_argument(s, "git add "@),
        first_of(named_argument(s, "add file "@), named_argument(s, "add "@)),
    ) {
        Some(LocalCommand::AddFile(Some(path)))
    } else if same_ignoring_case(s, "add"@) {
        Some(LocalCommand::AddFile(None))
    } else if let Some(path) = first_of(
        named_argument(s, "git rm "@),
        first_of(named_argument(s, "remove file "@), named_argument(s, "remove "@)),
    ) {
        Some(LocalCommand::RemoveFile(Some(path)))
    } else if same_ignoring_case(s, "remove"@) {
        Some(LocalCommand::RemoveFile(None))
    } else if let Some(files) = files_to_move(s) {
        Some(LocalCommand::MoveFile(Some(files)))
    } else if same_ignoring_case(s, "move"@) {
        Some(LocalCommand::MoveFile(None))
    } else {
        None
    }
}

fn parse_worktree_phrase(input: &str) -> (r: Option<LocalCommand<String>>)
    ensures
        opt_command(r) == worktree_phrase(input@),
{
    if let Some(path) = either(
        parse_named_argument(input, "git add "),
        either(parse_named_argument(input, "add file "), parse_named_argument(input, "add ")),
    ) {
        return Some(LocalCommand::AddFile(Some(path.to_string())));
    }
    if eq_ignore_case(input, "add") {
        return Some(LocalCommand::AddFile(None));
    }
    if let Some(path) = either(
        parse_named_argument(input, "git rm "),
        either(
            parse_named_argument(input, "remove file "),
            parse_named_argument(input, "remove "),
        ),
    ) {
        return Some(LocalCommand::RemoveFile(Some(path.to_string())));
    }
    if eq_ignore_case(input, "remove") {
        return Some(LocalCommand::RemoveFile(None));
    }
    if let Some(files) = parse_files_to_move(input) {
        return Some(LocalCommand::MoveFile(Some(files)));
    }
    if eq_ignore_case(input, "move") {
        return Some(LocalCommand::MoveFile(None));
    }
    None
}

/// The message behind a phrase, without quotes around it.
pub open spec fn message_after(s: Seq<char>, phrase: Seq<char>) -> Option<Seq<char>> {
    if begins_ci(s, phrase) {
        unless_empty(unquoted(argument(s, phrase)))
    } else {
        None
    }
}

fn parse_message_after<'a>(input: &'a str, phrase: &str) -> (r: Option<&'a str>)
    ensures
        opt_str(r) == message_after(input@, phrase@),
{
    match strip_ascii_prefix(input, phrase) {
        Some(rest) => {
            let message = strip_matching_quotes(trim(rest));
            if message.is_empty() {
                None
            } else {
                Some(message)
            }
        },
        None => None,
    }
}

/// Phrases that record commits.
pub open spec fn commit_phrase(s: Seq<char>) -> Option<LocalCommand<Seq<char>>> {
    if let Some(commit) = first_of(
        named_argument(s, "git cherry-pick "@),
        first_of(named_argument(s, "cherry-pick "@), named_argument(s, "cherry pick "@)),
    ) {
        Some(LocalCommand::CherryPick(Some(commit)))
    } else if same_ignoring_case(s, "cherry pick"@) || same_ignoring_case(s, "cherry-pick"@) {
        Some(LocalCommand::CherryPick(None))
    } else if let Some(message) = first_of(
        message_after(s, "git commit -a -m "@),
        first_of(message_after(s, "git commit -m "@), message_after(s, "commit "@)),
    ) {
        Some(LocalCommand::Commit(Some(message)))
    } else if same_ignoring_case(s, "commit"@) {
        Some(LocalCommand::Commit(None))
    } else {
        None
    }
}

fn parse_commit_phrase(input: &str) -> (r: Option<LocalCommand<String>>)
    ensures
        opt_command(r) == commit_phrase(input@),
{
    if let Some(commit) = either(
        parse_named_argument(input, "git cherry-pick "),
        either(
            parse_named_argument(input, "cherry-pick "),
            parse_named_argument(input, "cherry pick "),
        ),
    ) {
        return Some(LocalCommand::CherryPick(Some(commit.to_string())));
    }
    if eq_ignore_case(input, "cherry pick") || eq_ignore_case(input, "cherry-pick") {
        return Some(LocalCommand::CherryPick(None));
    }
    if let Some(message) = either(
        parse_message_after(input, "git commit -a -m "),
        either(
            parse_message_after(input, "git commit -m "),
            parse_message_after(input, "commit "),
        ),
    ) {
        return Some(LocalCommand::Commit(Some(message.to_string())));
    }
    if eq_ignore_case(input, "commit") {
        return Some(LocalCommand::Commit(None));
    }
    None
}

/// Phrases that push, create a repository or delete a branch.
pub open spec fn repository_phrase(s: Seq<char>) -> Option<LocalCommand<Seq<char>>> {
    if same_ignoring_case(s, "force push"@)
        || same_ignoring_case(s, "push force"@)
        || same_ignoring_case(s, "push --force"@)
        || same_ignoring_case(s, "push -f"@)
        || same_ignoring_case(s, "git push --force"@)
        || same_ignoring_case(s, "git push -f"@)
        || same_ignoring_case(s, "git push origin --force"@)
        || same_ignoring_case(s, "git push origin -f"@) {
        Some(LocalCommand::Push(true))
    } else if same_ignoring_case(s, "push"@)
        || same_ignoring_case(s, "git push"@)
        || same_ignoring_case(s, "git push origin"@) {
        Some(LocalCommand::Push(false))
    } else if same_ignoring_case(s, "init"@)
        || same_ignoring_case(s, "init repo"@)
        || same_ignoring_case(s, "git init"@) {
        Some(LocalCommand::InitRepo)
    } else if same_ignoring_case(s, "delete"@)
        || same_ignoring_case(s, "delete branch"@) {
        Some(LocalCommand::DeleteBranch(None))
    } else if let Some(branch) = first_of(
        named_argument(s, "git branch -D "@),
        first_of(named_argument(s, "delete branch "@), named_argument(s, "delete "@)),
    ) {
        Some(LocalCommand::DeleteBranch(Some(branch)))
    } else {
        None
    }
}

fn parse_repository_phrase(input: &str) -> (r: Option<LocalCommand<String>>)
    ensures
        opt_command(r) == repository_phrase(input@),
{
    if eq_ignore_case(input, "force push")
        || eq_ignore_case(input, "push force")
        || eq_ignore_case(input, "push --force")
        || eq_ignore_case(input, "push -f")
        || eq_ignore_case(input, "git push --force")
        || eq_ignore_case(input, "git push -f")
        || eq_ignore_case(input, "git push origin --force")
        || eq_ignore_case(input, "git push origin -f") {
        return Some(LocalCommand::Push(true));
    }
    if eq_ignore_case(input, "push")
        || eq_ignore_case(input, "git push")
        || eq_ignore_case(input, "git push origin") {
        return Some(LocalCommand::Push(false));
    }
    if eq_ignore_case(input, "init")
        || eq_ignore_case(input, "init repo")
        || eq_ignore_case(input, "git init") {
        return Some(LocalCommand::InitRepo);
    }
    if eq_ignore_case(input, "delete")
        || eq_ignore_case(input, "delete branch") {
        return Some(LocalCommand::DeleteBranch(None));
    }
    match either(
        parse_named_argument(input, "git branch -D "),
        either(
            parse_named_argument(input, "delete branch "),
            parse_named_argument(input, "delete "),
        ),
    ) {
        Some(branch) => Some(LocalCommand::DeleteBranch(Some(branch.to_string()))),
        None => None,
    }
}

/// Phrases that end the conversation or the client.
pub open spec fn closing_phrase(s: Seq<char>) -> Option<LocalCommand<Seq<char>>> {
    if same_ignoring_case(s, "clear"@)
        || same_ignoring_case(s, "clear conversation"@)
        || same_ignoring_case(s, "reset conversation"@) {
        Some(LocalCommand::Clear)
    } else if same_ignoring_case(s, "quit"@)
        || same_ignoring_case(s, "exit"@) {
        Some(LocalCommand::Quit)
    } else {
        None
    }
}

fn parse_closing_phrase(input: &str) -> (r: Option<LocalCommand<String>>)
    ensures
        opt_command(r) == closing_phrase(input@),
{
    if eq_ignore_case(input, "clear")
        || eq_ignore_case(input, "clear conversation")
        || eq_ignore_case(input, "reset conversation") {
        return Some(LocalCommand::Clear);
    }
    if eq_ignore_case(input, "quit")
        || eq_ignore_case(input, "exit") {
        return Some(LocalCommand::Quit);
    }
    None
}

/// The commands in plain words. The topics are tried in order.
pub open spec fn natural_command(s: Seq<char>) -> Option<LocalCommand<Seq<char>>> {
    first_of(
        information_phrase(s),
        first_of(
            file_phrase(s),
            first_of(
                branch_phrase(s),
                first_of(
                    worktree_phrase(s),
                    first_of(
                        commit_phrase(s),
                        first_of(repository_phrase(s), closing_phrase(s)),
                    ),
                ),
            ),
        ),
    )
}

/// Reads a command in plain words.
pub fn parse_natural_language_command(input: &str) -> (r: Option<LocalCommand<String>>)
    ensures
        opt_command(r) == natural_command(input@),
{
    if let Some(command) = parse_information_phrase(input) {
        return Some(command);
    }
    if let Some(command) = parse_file_phrase(input) {
        return Some(command);
    }
    if let Some(command) = parse_branch_phrase(input) {
        return Some(command);
    }
    if let Some(command) = parse_worktree_phrase(input) {
        return Some(command);
    }
    if let Some(command) = parse_commit_phrase(input) {
        return Some(command);
    }
    if let Some(command) = parse_repository_phrase(input) {
        return Some(command);
    }
    parse_closing_phrase(input)
}

/// The command that a line stands for, if it is one.
pub open spec fn local_command(line: Seq<char>) -> Option<LocalCommand<Seq<char>>> {
    let s = trimmed(line);
    if s.len() == 0 {
        None
    } else {
        first_of(slash_command(s), natural_command(s))
    }
}

/// Reads the command that a line stands for. Any other line is a prompt.
pub fn parse_local_command(input: &str) -> (r: Option<LocalCommand<String>>)
    ensures
        opt_command(r) == local_command(input@),
{
    let input = trim(input);
    if input.is_empty() {
        return None;
    }
    match parse_slash_command(input) {
        Some(command) => Some(command),
        None => parse_natural_language_command(input),
    }
}

} // verus!
