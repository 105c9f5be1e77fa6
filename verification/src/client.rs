//! The course of the client: what is done next with input, commands and
//! answers.
use vstd::prelude::*;
use vstd::string::*;

use crate::answers::{
    after_cancel, markdown_lines, preserve_cancelled_output, push_markdown, token_count, Tokenizer,
};
use crate::dispatch::CommandOutcome;
use crate::events::{
    editor_view, escape_press, event_effect, handle_input_event, is_wait_cancel_escape,
    EditorView, InputEvent, InputEventResult, InputResult,
};
use crate::highlight::SyntaxHighlightAssets;
use crate::history::{
    echo, echo_line, prepare_submitted_input, recorded, submission, Submission,
};
use crate::input::{InputState, InputView};
use crate::output::{input_lines, plain_lines, OutputState, OutputView};
use crate::press::{armed_by, second_press, EscapeCancelState, InterruptState, ESC_CANCEL_TIMEOUT};
use crate::profiles::{profile_named, Profiles};
use crate::text::{lemma_texts_push, opt_str, opt_text, str_eq, texts, trim, trimmed};

verus! {

/// What the header tells: whether the workspace exists, the server answers, and
/// the server has the model.
#[derive(Clone, Copy, Debug, PartialEq, Eq, Structural)]
pub struct HeaderStatus {
    pub workspace_ok: bool,
    pub server_ok: bool,
    pub model_ok: bool,
}

/// A model that a server lists, under up to three names of the type `T`.
#[derive(Debug, PartialEq, Eq)]
pub struct ModelEntry<T> {
    pub id: T,
    pub model: T,
    pub name: T,
}

impl View for ModelEntry<String> {
    type V = ModelEntry<Seq<char>>;

    open spec fn view(&self) -> ModelEntry<Seq<char>> {
        ModelEntry { id: self.id@, model: self.model@, name: self.name@ }
    }
}

/// Whether one of the names of a model is `wanted`.
pub open spec fn entry_is(entry: ModelEntry<Seq<char>>, wanted: Seq<char>) -> bool {
    entry.id == wanted || entry.model == wanted || entry.name == wanted
}

/// Whether a server lists a model, under its own name or that of its profile.
pub open spec fn lists_model(
    entries: Seq<ModelEntry<String>>,
    model: Seq<char>,
    profile: Seq<char>,
) -> bool {
    exists|i: int|
        0 <= i < entries.len() && (entry_is((#[trigger] entries[i])@, model) || entry_is(
            entries[i]@,
            profile,
        ))
}

fn entry_names(entry: &ModelEntry<String>, wanted: &str) -> (r: bool)
    ensures
        r == entry_is(entry@, wanted@),
{
    str_eq(entry.id.as_str(), wanted) || str_eq(entry.model.as_str(), wanted) || str_eq(
        entry.name.as_str(),
        wanted,
    )
}

/// What asking a server for its models gave.
pub enum ServerProbe {
    /// There is no server to ask, or it did not answer.
    Silent,
    /// The server answered, but not with a list of models.
    Unreadable,
    /// The server listed its models.
    Models(Vec<ModelEntry<String>>),
}

/// Whether the server has the model.
pub open spec fn probe_has_model(probe: ServerProbe, model: Seq<char>, profile: Seq<char>) -> bool {
    probe matches ServerProbe::Models(entries) && lists_model(entries@, model, profile)
}

/// Tells what the header shows, given what asking the server for its models
/// gave.
pub fn probe_header_status(
    workspace_ok: bool,
    probe: &ServerProbe,
    model: &str,
    active_model: &str,
) -> (r: HeaderStatus)
    ensures
        r == (HeaderStatus {
            workspace_ok,
            server_ok: !(probe is Silent),
            model_ok: probe_has_model(*probe, model@, active_model@),
        }),
{
    match probe {
        ServerProbe::Silent => HeaderStatus { workspace_ok, server_ok: false, model_ok: false },
        ServerProbe::Unreadable => HeaderStatus { workspace_ok, server_ok: true, model_ok: false },
        ServerProbe::Models(entries) => {
            let mut i: usize = 0;
            while i < entries.len()
                invariant
                    i <= entries@.len(),
                    *probe == ServerProbe::Models(*entries),
                    forall|j: int|
                        0 <= j < i ==> !entry_is((#[trigger] entries@[j])@, model@) && !entry_is(
                            entries@[j]@,
                            active_model@,
                        ),
                decreases entries.len() - i,
            {
                if entry_names(&entries[i], model) || entry_names(&entries[i], active_model) {
                    assert(entry_is(entries@[i as int]@, model@) || entry_is(
                        entries@[i as int]@,
                        active_model@,
                    ));
                    return HeaderStatus { workspace_ok, server_ok: true, model_ok: true };
                }
                i += 1;
            }
            HeaderStatus { workspace_ok, server_ok: true, model_ok: false }
        },
    }
}

/// Where a server lists its models; the endpoint is in the form in which it is
/// called.
pub fn models_url(endpoint: &str) -> (r: String)
    ensures
        r@ == endpoint@ + "/v1/models"@,
{
    let mut r = endpoint.to_string();
    r.append("/v1/models");
    r
}

/// What is told to a prompt without a server.
pub open spec fn not_connected() -> Seq<char> {
    "Error: Not connected to an LLM server"@
}

/// Why a prompt cannot be sent, whatever the header shows.
pub fn llm_prompt_block_reason(endpoint: Option<&str>, _status: HeaderStatus) -> (r: Option<
    &'static str,
>)
    ensures
        opt_str(r) == (if endpoint is None {
            Some(not_connected())
        } else {
            None
        }),
{
    if endpoint.is_none() {
        return Some("Error: Not connected to an LLM server");
    }
    None
}

/// Whether a prompt is sent, and where to; the text is of the type `T`.
#[derive(Debug, PartialEq, Eq)]
pub enum PromptGate<T> {
    /// It is not sent, and the client goes on.
    Closed,
    /// It is sent to this endpoint.
    Open(T),
}

/// What becomes of a prompt: the transcript, and whether it is sent. Without a
/// server the user is told so; without the model the prompt is dropped.
pub open spec fn prompt_gate(
    output: OutputView,
    known: bool,
    model: Seq<char>,
    endpoint: Option<Seq<char>>,
    status: HeaderStatus,
) -> (OutputView, Result<PromptGate<Seq<char>>, Seq<char>>) {
    if !known {
        (output, Err("unknown model profile '"@ + model + "'"@))
    } else {
        match endpoint {
            None => (output.extended(plain_lines(not_connected())).at_end(), Ok(PromptGate::Closed)),
            Some(e) => if status.model_ok {
                (output, Ok(PromptGate::Open(e)))
            } else {
                (output, Ok(PromptGate::Closed))
            },
        }
    }
}

/// The view of what becomes of a prompt.
pub open spec fn gate_view(r: Result<PromptGate<String>, String>) -> Result<
    PromptGate<Seq<char>>,
    Seq<char>,
> {
    match r {
        Ok(PromptGate::Closed) => Ok(PromptGate::Closed),
        Ok(PromptGate::Open(e)) => Ok(PromptGate::Open(e@)),
        Err(e) => Err(e@),
    }
}

/// Decides whether a prompt is sent.
pub fn admit_prompt(
    output_state: &mut OutputState,
    profiles: &Profiles,
    active_model: &str,
    endpoint: Option<&str>,
    status: HeaderStatus,
) -> (r: Result<PromptGate<String>, String>)
    requires
        old(output_state).wf(),
    ensures
        final(output_state).wf(),
        (final(output_state)@, gate_view(r)) == prompt_gate(
            old(output_state)@,
            profile_named(profiles@, active_model@) is Some,
            active_model@,
            opt_str(endpoint),
            status,
        ),
{
    if profiles.get(active_model).is_none() {
        let mut message = "unknown model profile '".to_string();
        message.append(active_model);
        message.append("'");
        return Err(message);
    }
    if let Some(reason) = llm_prompt_block_reason(endpoint, status) {
        output_state.push_text(reason);
        output_state.reset_scroll();
        return Ok(PromptGate::Closed);
    }
    match endpoint {
        Some(e) => if status.model_ok {
            Ok(PromptGate::Open(e.to_string()))
        } else {
            Ok(PromptGate::Closed)
        },
        None => Ok(PromptGate::Closed),
    }
}

/// What the client does after a command.
#[derive(Clone, Copy, Debug, PartialEq, Eq, Structural)]
pub enum AfterCommand {
    /// It waits for the next input.
    NextTurn,
    /// It ends.
    Exit,
    /// It sends the line as a prompt.
    Prompt,
}

/// What the outcome of a command makes of the transcript, and what the client
/// does then.
pub open spec fn outcome_effect(output: OutputView, outcome: CommandOutcome<Seq<char>>) -> (
    OutputView,
    AfterCommand,
) {
    match outcome {
        CommandOutcome::Unhandled => (output, AfterCommand::Prompt),
        CommandOutcome::Quiet => (output, AfterCommand::NextTurn),
        CommandOutcome::Output(text) => (
            output.extended(plain_lines(text)).at_end(),
            AfterCommand::NextTurn,
        ),
        CommandOutcome::Cleared => (
            OutputView { lines: Seq::empty(), scroll: 0 },
            AfterCommand::NextTurn,
        ),
        CommandOutcome::Quit => (output, AfterCommand::Exit),
    }
}

/// Shows the outcome of a command.
pub fn show_outcome(output_state: &mut OutputState, outcome: CommandOutcome<String>) -> (r:
    AfterCommand)
    requires
        old(output_state).wf(),
    ensures
        final(output_state).wf(),
        (final(output_state)@, r) == outcome_effect(old(output_state)@, outcome@),
{
    match outcome {
        CommandOutcome::Unhandled => AfterCommand::Prompt,
        CommandOutcome::Quiet => AfterCommand::NextTurn,
        CommandOutcome::Output(text) => {
            output_state.push_text(text.as_str());
            output_state.reset_scroll();
            AfterCommand::NextTurn
        },
        CommandOutcome::Cleared => {
            output_state.clear();
            AfterCommand::NextTurn
        },
        CommandOutcome::Quit => AfterCommand::Exit,
    }
}

/// How waiting for an answer ended; the texts are of the type `T`.
#[derive(Debug, PartialEq, Eq)]
pub enum WaitResult<T> {
    Response(T),
    /// Holds what had come of the answer.
    Cancelled(T),
    Quit,
    Failed(T),
}

impl View for WaitResult<String> {
    type V = WaitResult<Seq<char>>;

    open spec fn view(&self) -> WaitResult<Seq<char>> {
        match *self {
            WaitResult::Response(t) => WaitResult::Response(t@),
            WaitResult::Cancelled(t) => WaitResult::Cancelled(t@),
            WaitResult::Quit => WaitResult::Quit,
            WaitResult::Failed(t) => WaitResult::Failed(t@),
        }
    }
}

/// What the model has generated of an answer.
pub open spec fn generated_text(answer: WaitResult<Seq<char>>) -> Option<Seq<char>> {
    match answer {
        WaitResult::Response(text) => Some(text),
        WaitResult::Cancelled(partial) => Some(partial),
        WaitResult::Quit => None,
        WaitResult::Failed(_) => None,
    }
}

/// What the model has generated of an answer. Of one that was cancelled, that is
/// what had come; when the client ends or the request fails, nothing is counted.
pub fn generated(answer: &WaitResult<String>) -> (r: Option<&str>)
    ensures
        opt_str(r) == generated_text(answer@),
{
    match answer {
        WaitResult::Response(text) => Some(text.as_str()),
        WaitResult::Cancelled(partial) => Some(partial.as_str()),
        WaitResult::Quit => None,
        WaitResult::Failed(_) => None,
    }
}

/// How many tokens an answer adds to those generated so far. A text that cannot
/// be cut into tokens adds none.
pub open spec fn answer_tokens(answer: WaitResult<Seq<char>>) -> u64 {
    match generated_text(answer) {
        Some(text) => match token_count(text) {
            Some(n) => n as u64,
            None => 0,
        },
        None => 0,
    }
}

/// Counts the tokens of an answer; without a tokenizer there are none.
pub fn count_answer_tokens(tokenizer: Option<&Tokenizer>, answer: &WaitResult<String>) -> (r: u64)
    ensures
        r == (if tokenizer is Some {
            answer_tokens(answer@)
        } else {
            0
        }),
{
    match (tokenizer, generated(answer)) {
        (Some(counter), Some(text)) => match counter.count(text) {
            Some(n) => n as u64,
            None => 0,
        },
        _ => 0,
    }
}

/// The transcript behind an answer, and whether the client ends.
pub open spec fn answer_effect(
    output: OutputView,
    assets: SyntaxHighlightAssets,
    answer: WaitResult<Seq<char>>,
) -> (OutputView, bool) {
    match answer {
        WaitResult::Response(text) => (output.extended(markdown_lines(assets, text)).at_end(), false),
        WaitResult::Cancelled(partial) => (after_cancel(output, assets, partial).at_end(), false),
        WaitResult::Quit => (output, true),
        WaitResult::Failed(reason) => (
            output.extended(plain_lines("Error: "@ + reason)).at_end(),
            false,
        ),
    }
}

/// Shows an answer, and tells whether the client ends.
pub fn show_answer(
    output_state: &mut OutputState,
    assets: &SyntaxHighlightAssets,
    answer: WaitResult<String>,
) -> (r: bool)
    requires
        old(output_state).wf(),
    ensures
        final(output_state).wf(),
        (final(output_state)@, r) == answer_effect(old(output_state)@, *assets, answer@),
{
    match answer {
        WaitResult::Response(text) => push_markdown(output_state, assets, text.as_str()),
        WaitResult::Cancelled(partial) => preserve_cancelled_output(
            output_state,
            assets,
            partial.as_str(),
        ),
        WaitResult::Quit => {
            return true;
        },
        WaitResult::Failed(reason) => {
            let mut message = "Error: ".to_string();
            message.append(reason.as_str());
            output_state.push_text(message.as_str());
        },
    }
    output_state.reset_scroll();
    false
}

/// What the client does about a line; the texts are of the type `T`.
#[derive(Debug, PartialEq, Eq)]
pub enum TurnStep<T> {
    /// It reads input.
    Read,
    /// It begins the next turn.
    NextTurn,
    /// It carries the line out.
    Run(T),
    /// It ends.
    Exit,
}

impl View for TurnStep<String> {
    type V = TurnStep<Seq<char>>;

    open spec fn view(&self) -> TurnStep<Seq<char>> {
        match *self {
            TurnStep::Read => TurnStep::Read,
            TurnStep::NextTurn => TurnStep::NextTurn,
            TurnStep::Run(t) => TurnStep::Run(t@),
            TurnStep::Exit => TurnStep::Exit,
        }
    }
}

/// What the user sees and has typed: the transcript, the line being edited, the
/// history, and the lines that wait to be carried out.
pub struct Console {
    pub output: OutputState,
    pub input: InputState,
    pub interrupt: InterruptState,
    pub history: Vec<String>,
    pub pending: Vec<String>,
}

/// What the user sees and has typed, as contracts speak of it.
#[verifier::ext_equal]
pub struct ConsoleView {
    pub editor: EditorView,
    pub history: Seq<Seq<char>>,
    pub pending: Seq<Seq<char>>,
}

impl View for Console {
    type V = ConsoleView;

    open spec fn view(&self) -> ConsoleView {
        ConsoleView {
            editor: editor_view(self.input, self.interrupt, self.output),
            history: texts(self.history@),
            pending: texts(self.pending@),
        }
    }
}

impl ConsoleView {
    /// The transcript with more lines of input, shown at its end.
    pub open spec fn echoed(self, text: Seq<char>) -> ConsoleView {
        ConsoleView {
            editor: EditorView {
                output: self.editor.output.extended(input_lines(echo(text))).at_end(),
                ..self.editor
            },
            ..self
        }
    }

    /// A line taken over: kept in the history, and echoed where it is a note.
    pub open spec fn taken(self, line: Seq<char>) -> ConsoleView {
        match submission(line) {
            Submission::Ignored => self,
            Submission::Note(text) => ConsoleView {
                history: self.history.push(text),
                ..self.echoed(text)
            },
            Submission::Accepted(text) => ConsoleView { history: self.history.push(text), ..self },
        }
    }

    /// A line taken over while an answer is awaited: it is carried out later.
    pub open spec fn queued(self, line: Seq<char>) -> ConsoleView {
        match submission(line) {
            Submission::Accepted(text) => ConsoleView {
                pending: self.pending.push(text),
                ..self.taken(line)
            },
            _ => self.taken(line),
        }
    }
}

/// How a turn begins: with the first line that waits, or by reading input.
pub open spec fn turn_effect(v: ConsoleView) -> (ConsoleView, TurnStep<Seq<char>>) {
    if v.pending.len() > 0 {
        (
            ConsoleView { pending: v.pending.drop_first(), ..v }.echoed(v.pending[0]),
            TurnStep::Run(v.pending[0]),
        )
    } else {
        (v, TurnStep::Read)
    }
}

/// What input leads to: a line that is accepted is echoed and carried out.
pub open spec fn input_effect(v: ConsoleView, result: InputResult<Seq<char>>) -> (
    ConsoleView,
    TurnStep<Seq<char>>,
) {
    match result {
        InputResult::Submitted(line) => match submission(line) {
            Submission::Accepted(text) => (v.taken(line).echoed(text), TurnStep::Run(text)),
            _ => (v.taken(line), TurnStep::NextTurn),
        },
        InputResult::Refresh => (v, TurnStep::NextTurn),
        InputResult::Quit => (v, TurnStep::Exit),
    }
}

/// The entry that input adds to the file of the history.
pub open spec fn input_record(result: InputResult<Seq<char>>) -> Option<Seq<char>> {
    match result {
        InputResult::Submitted(line) => recorded(line),
        _ => None,
    }
}

/// The view of what reading input ended with.
pub open spec fn result_view(r: InputResult<String>) -> InputResult<Seq<char>> {
    match r {
        InputResult::Submitted(t) => InputResult::Submitted(t@),
        InputResult::Refresh => InputResult::Refresh,
        InputResult::Quit => InputResult::Quit,
    }
}

/// What an event leads to while an answer is awaited; the text is of the type
/// `T`.
#[derive(Debug, PartialEq, Eq)]
pub enum WaitStep<T> {
    /// Waiting goes on. The entry is to be added to the file of the history,
    /// and with the flags the screen is to be drawn anew, and candidates for the
    /// text at the cursor are to be gathered.
    Continue(Option<T>, bool, bool),
    /// The request is cancelled.
    Cancel,
    /// The client ends.
    Quit,
}

impl View for WaitStep<String> {
    type V = WaitStep<Seq<char>>;

    open spec fn view(&self) -> WaitStep<Seq<char>> {
        match *self {
            WaitStep::Continue(o, a, b) => WaitStep::Continue(opt_text(o), a, b),
            WaitStep::Cancel => WaitStep::Cancel,
            WaitStep::Quit => WaitStep::Quit,
        }
    }
}

/// What an event leads to while an answer is awaited. Escape cancels the
/// request on its second press; everything else is as always, but a line that is
/// submitted waits for its turn.
pub open spec fn wait_effect(
    v: ConsoleView,
    last_escape: Option<u64>,
    event: InputEvent<Seq<char>>,
    now: u64,
    rows: int,
) -> (ConsoleView, Option<u64>, WaitStep<Seq<char>>) {
    if escape_press(event) {
        let armed = armed_by(last_escape, now, ESC_CANCEL_TIMEOUT);
        if second_press(last_escape, now, ESC_CANCEL_TIMEOUT) {
            (v, armed, WaitStep::Cancel)
        } else {
            (v, armed, WaitStep::Continue(None, false, false))
        }
    } else {
        let (editor, result) = event_effect(v.editor, event, v.history, now, rows);
        let w = ConsoleView { editor, ..v };
        match result.outcome {
            Some(InputResult::Submitted(line)) => (
                w.queued(line),
                None,
                WaitStep::Continue(
                    recorded(line),
                    result.redraw || trimmed(line).len() > 0,
                    false,
                ),
            ),
            Some(InputResult::Quit) => (w, None, WaitStep::Quit),
            _ => (
                w,
                None,
                WaitStep::Continue(None, result.redraw, result.wants_completion),
            ),
        }
    }
}

impl Console {
    /// The parts are well-formed, and the entry of the history that is shown, if
    /// any, is there.
    pub open spec fn wf(&self) -> bool {
        &&& self.output.wf()
        &&& self.input.wf()
        &&& self.input.history_fits(self.history@.len() as int)
    }

    /// A console with a history and nothing else.
    pub fn new(history: Vec<String>) -> (r: Self)
        ensures
            r.wf(),
            r@ == (ConsoleView {
                editor: EditorView {
                    input: InputView::blank(),
                    output: OutputView { lines: Seq::empty(), scroll: 0 },
                    last_interrupt: None,
                },
                history: texts(history@),
                pending: seq![],
            }),
    {
        let r = Console {
            output: OutputState::default(),
            input: InputState::default(),
            interrupt: InterruptState::default(),
            history,
            pending: Vec::new(),
        };
        assert(r@.pending =~= seq![]);
        r
    }

    fn echo(&mut self, text: &str)
        requires
            old(self).wf(),
        ensures
            final(self).wf(),
            final(self)@ == old(self)@.echoed(text@),
    {
        let line = echo_line(text);
        self.output.push_input(line.as_str());
        self.output.reset_scroll();
    }

    /// Begins a turn.
    pub fn begin_turn(&mut self) -> (r: TurnStep<String>)
        requires
            old(self).wf(),
        ensures
            final(self).wf(),
            (final(self)@, r@) == turn_effect(old(self)@),
    {
        if self.pending.len() == 0 {
            return TurnStep::Read;
        }
        let line = self.pending.remove(0);
        assert(texts(self.pending@) =~= texts(old(self).pending@).drop_first());
        self.echo(line.as_str());
        TurnStep::Run(line)
    }

    /// Takes input over. The entry that is to be added to the file of the
    /// history comes first in the result.
    pub fn take_input(&mut self, result: InputResult<String>) -> (r: (
        Option<String>,
        TurnStep<String>,
    ))
        requires
            old(self).wf(),
        ensures
            final(self).wf(),
            opt_text(r.0) == input_record(result_view(result)),
            (final(self)@, r.1@) == input_effect(old(self)@, result_view(result)),
    {
        match result {
            InputResult::Submitted(line) => {
                let (entry, accepted) = prepare_submitted_input(
                    line.as_str(),
                    &mut self.history,
                    &mut self.output,
                );
                assert(texts(self.history@).len() == self.history@.len());
                assert(texts(old(self).history@).len() == old(self).history@.len());
                assert(self@ == old(self)@.taken(line@));
                match accepted {
                    Some(text) => {
                        self.echo(text.as_str());
                        (entry, TurnStep::Run(text))
                    },
                    None => (entry, TurnStep::NextTurn),
                }
            },
            InputResult::Refresh => (None, TurnStep::NextTurn),
            InputResult::Quit => (None, TurnStep::Exit),
        }
    }

    /// Reacts to an event of the terminal.
    pub fn handle_event(&mut self, event: InputEvent<String>, now: u64, view_rows: usize) -> (r:
        InputEventResult<String>)
        requires
            old(self).wf(),
        ensures
            final(self).wf(),
            ({
                let (editor, result) = event_effect(
                    old(self)@.editor,
                    event@,
                    old(self)@.history,
                    now,
                    view_rows as int,
                );
                final(self)@ == (ConsoleView { editor, ..old(self)@ }) && r@ == result
            }),
    {
        handle_input_event(
            event,
            &mut self.input,
            &mut self.interrupt,
            &mut self.output,
            &self.history,
            now,
            view_rows,
        )
    }

    /// Reacts to an event of the terminal while an answer is awaited.
    pub fn handle_wait_event(
        &mut self,
        escape: &mut EscapeCancelState,
        event: InputEvent<String>,
        now: u64,
        view_rows: usize,
    ) -> (r: WaitStep<String>)
        requires
            old(self).wf(),
        ensures
            final(self).wf(),
            (final(self)@, final(escape).last_escape, r@) == wait_effect(
                old(self)@,
                old(escape).last_escape,
                event@,
                now,
                view_rows as int,
            ),
    {
        if is_wait_cancel_escape(&event) {
            if escape.handle_escape(now) {
                return WaitStep::Cancel;
            }
            return WaitStep::Continue(None, false, false);
        }
        escape.reset();
        let result = self.handle_event(event, now, view_rows);
        match result.outcome {
            Some(InputResult::Submitted(line)) => {
                let ghost before = self@;
                let (entry, accepted) = prepare_submitted_input(
                    line.as_str(),
                    &mut self.history,
                    &mut self.output,
                );
                assert(texts(self.history@).len() == self.history@.len());
                assert(before.history.len() == old(self).history@.len());
                assert(self@ == before.taken(line@));
                if let Some(text) = accepted {
                    let ghost waiting = self.pending@;
                    self.pending.push(text);
                    proof {
                        lemma_texts_push(waiting, text);
                    }
                }
                assert(self@ == before.queued(line@));
                let visible = !trim(line.as_str()).is_empty();
                WaitStep::Continue(entry, result.redraw || visible, false)
            },
            Some(InputResult::Quit) => WaitStep::Quit,
            _ => WaitStep::Continue(None, result.redraw, result.wants_completion),
        }
    }
}

/// What reading input does after an event.
#[derive(Clone, Copy, Debug, PartialEq, Eq, Structural)]
pub enum ReadStep {
    /// It ends with the outcome of the event.
    Finish,
    /// It ends, so that the status is refreshed.
    Refresh,
    /// It draws the screen anew and goes on.
    Redraw,
    /// It goes on.
    Wait,
}

/// What reading input does after an event: an outcome ends it, and so does the
/// time at which the status is to be refreshed.
pub open spec fn read_step(finished: bool, redraw: bool, now: u64, deadline: u64) -> ReadStep {
    if finished {
        ReadStep::Finish
    } else if now >= deadline {
        ReadStep::Refresh
    } else if redraw {
        ReadStep::Redraw
    } else {
        ReadStep::Wait
    }
}

/// Tells what reading input does after an event.
pub fn after_event(result: &InputEventResult<String>, now: u64, deadline: u64) -> (r: ReadStep)
    ensures
        r == read_step(result.outcome is Some, result.redraw, now, deadline),
{
    if result.outcome.is_some() {
        ReadStep::Finish
    } else if now >= deadline {
        ReadStep::Refresh
    } else if result.redraw {
        ReadStep::Redraw
    } else {
        ReadStep::Wait
    }
}

/// How long a picture of the thinking client stands, in milliseconds.
pub const THINKING_FRAME_INTERVAL: u64 = 120;

/// How an answer that is awaited was drawn last.
pub struct WaitScreen {
    pub frame: u64,
    pub output: String,
}

impl Default for WaitScreen {
    fn default() -> (r: Self)
        ensures
            r.frame == 0,
            r.output@ == Seq::<char>::empty(),
    {
        WaitScreen { frame: 0, output: String::new() }
    }
}

/// The picture that is shown after some time.
pub open spec fn frame_at(elapsed_ms: u64) -> u64 {
    elapsed_ms / THINKING_FRAME_INTERVAL
}

impl WaitScreen {
    /// Takes the time over, and tells whether the screen is to be drawn anew:
    /// another picture is due, or more of the answer or of its figures has come.
    pub fn tick(&mut self, elapsed_ms: u64, output: &str, metrics_changed: bool) -> (r: bool)
        ensures
            r == (frame_at(elapsed_ms) != old(self).frame || output@ != old(self).output@
                || metrics_changed),
            final(self).frame == frame_at(elapsed_ms),
            final(self).output@ == old(self).output@,
    {
        let next = elapsed_ms / THINKING_FRAME_INTERVAL;
        let moved = next != self.frame;
        self.frame = next;
        moved || !str_eq(output, self.output.as_str()) || metrics_changed
    }

    /// Takes over what was drawn.
    pub fn drawn(&mut self, output: &str)
        ensures
            final(self).frame == old(self).frame,
            final(self).output@ == output@,
    {
        self.output = output.to_string();
    }
}

/// Local commands work without a server: whatever the header shows, the outcome
/// of a command is shown in the same way, and only a prompt asks for the server.
pub proof fn law_commands_need_no_server(
    output: OutputView,
    outcome: CommandOutcome<Seq<char>>,
    model: Seq<char>,
    endpoint: Option<Seq<char>>,
    status: HeaderStatus,
    other: HeaderStatus,
)
    ensures
        outcome_effect(output, outcome).1 == AfterCommand::Prompt <==> outcome
            == CommandOutcome::<Seq<char>>::Unhandled,
        prompt_gate(output, true, model, None, status) == prompt_gate(
            output,
            true,
            model,
            None,
            other,
        ),
        !status.model_ok ==> !(prompt_gate(output, true, model, endpoint, status).1 matches Ok(
            PromptGate::Open(_),
        )),
{
}

/// Lines that are typed while an answer is awaited are carried out later, in
/// the order in which they were typed.
pub proof fn law_pending_lines_keep_their_order(v: ConsoleView, first: Seq<char>, second: Seq<char>)
    requires
        submission(first) is Accepted,
        submission(second) is Accepted,
        v.pending.len() == 0,
    ensures
        ({
            let w = v.queued(first).queued(second);
            let (after_one, one) = turn_effect(w);
            let (after_two, two) = turn_effect(after_one);
            one == TurnStep::Run(trimmed(first)) && two == TurnStep::Run(trimmed(second))
                && after_two.pending == v.pending
        }),
{
    let w = v.queued(first).queued(second);
    assert(w.pending =~= seq![trimmed(first), trimmed(second)]);
    assert(w.pending.drop_first() =~= seq![trimmed(second)]);
    assert(seq![trimmed(second)].drop_first() =~= v.pending);
}

/// Nothing that is typed is lost from the history: a line that is taken over is
/// its last entry, and the entries before it stay.
pub proof fn law_history_keeps_every_line(v: ConsoleView, line: Seq<char>)
    ensures
        match recorded(line) {
            Some(text) => v.taken(line).history == v.history.push(text) && v.queued(line).history
                == v.history.push(text),
            None => v.taken(line) == v && v.queued(line) == v,
        },
{
}

} // verus!
