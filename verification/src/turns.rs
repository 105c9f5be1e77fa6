//! Turns of the client: what comes of a line, of a command and of an answer.
use vstd::prelude::*;
use vstd::string::*;

use crate::answers::{final_text, left_status, markdown_lines, token_count, LeftStatus};
use crate::client::{
    answer_effect, answer_tokens, entry_is, frame_at, generated_text, input_effect, input_record,
    outcome_effect, probe_has_model, prompt_gate, read_step, turn_effect, wait_effect, AfterCommand, ConsoleView,
    HeaderStatus, ModelEntry, PromptGate, ReadStep, ServerProbe, TurnStep, WaitResult, WaitStep,
};
use crate::command::{local_command, LocalCommand};
use crate::dispatch::{
    command_effect, line_effect, CommandContext, CommandEffect, CommandOutcome, CommandStep,
    ConnectionView, GitCommand, SessionEffect,
};
use crate::events::{InputEvent, InputResult, KeyCode, KeyEventKind};
use crate::highlight::SyntaxHighlightAssets;
use crate::history::{recorded, submission, Submission};
use crate::keys::bare;
use crate::number::{decimal, digit_char};
use crate::order::sorted_texts;
use crate::output::{input_lines, plain_lines, OutputView, TranscriptLine};
use crate::phrases::is_argument;
use crate::pieces::{law_decimals_have_no_leading_zero, law_numbers_are_digits};
use crate::profiles::{
    distinct_names, position_of, profile_line, profile_lines, profile_named, profile_names,
    prompt_of, tool_lines, with_profile, Profile, ToolInfo,
};
use crate::report::{kept_sum, rate_tenths, usage_text, worth_resuming, UsageFigures};
use crate::terminal::{terminal_width, width_in};
use crate::text::{joined, lines_of, same_ignoring_case, trimmed, trimmed_start};

verus! {

/// Whether a transcript has these lines more than before, and is shown at its
/// end.
pub open spec fn shows_more(
    after: OutputView,
    before: OutputView,
    added: Seq<TranscriptLine<Seq<char>>>,
) -> bool {
    &&& after.scroll == 0
    &&& before.lines.len() + added.len() <= 10_000 ==> after.lines == before.lines + added
    &&& before.lines.len() + added.len() > 10_000 ==> after.lines == (before.lines + added).skip(
        before.lines.len() + added.len() - 10_000,
    )
}

/// The lines of a text, as the transcript shows what the client tells.
pub open spec fn told_lines(text: Seq<char>) -> Seq<TranscriptLine<Seq<char>>> {
    Seq::new(lines_of(text).len(), |i: int| TranscriptLine::Plain(lines_of(text)[i]))
}

/// The lines of a text that the user typed, behind the mark of the prompt.
pub open spec fn typed_lines(text: Seq<char>) -> Seq<TranscriptLine<Seq<char>>> {
    Seq::new(
        lines_of("> "@ + text).len(),
        |i: int| TranscriptLine::UserInput(lines_of("> "@ + text)[i]),
    )
}

proof fn lemma_told(text: Seq<char>)
    ensures
        plain_lines(text) == told_lines(text),
        input_lines("> "@ + text) == typed_lines(text),
{
    assert(plain_lines(text) =~= told_lines(text));
    assert(input_lines("> "@ + text) =~= typed_lines(text));
}

/// What a line is: blank lines and those behind a backslash are passed over,
/// those behind a hash are notes, and all others are accepted, without white
/// space around them.
pub proof fn law_lines_are_accepted_without_white_space(text: Seq<char>)
    requires
        is_argument(text),
    ensures
        text[0] == '\\' ==> submission(text) == Submission::<Seq<char>>::Ignored,
        text[0] == '#' ==> submission(text) == Submission::Note(text),
        text[0] != '\\' && text[0] != '#' ==> submission(text) == Submission::Accepted(text),
        recorded(text) == (if text[0] == '\\' {
            None
        } else {
            Some(text)
        }),
{
}

/// White space around a line does not matter, and a line of nothing else is
/// passed over.
pub proof fn law_blank_lines_are_passed_over(line: Seq<char>)
    ensures
        trimmed(line).len() == 0 ==> submission(line) == Submission::<Seq<char>>::Ignored,
        trimmed(line).len() == 0 ==> recorded(line) is None,
{
}

/// A line that is accepted is kept in the history, echoed behind the mark of the
/// prompt, and carried out.
pub proof fn law_accepted_lines_are_carried_out(v: ConsoleView, text: Seq<char>)
    requires
        is_argument(text),
        text[0] != '\\',
        text[0] != '#',
    ensures
        ({
            let (w, step) = input_effect(v, InputResult::Submitted(text));
            &&& step == TurnStep::Run(text)
            &&& w.history == v.history.push(text)
            &&& w.pending == v.pending
            &&& shows_more(w.editor.output, v.editor.output, typed_lines(text))
            &&& w.editor.input == v.editor.input
            &&& input_record(InputResult::Submitted(text)) == Some(text)
        }),
{
    lemma_told(text);
}

/// A note is kept in the history and echoed, and nothing is carried out. A line
/// that is passed over leaves no trace.
pub proof fn law_notes_are_only_kept(v: ConsoleView, text: Seq<char>)
    requires
        is_argument(text),
    ensures
        text[0] == '#' ==> ({
            let (w, step) = input_effect(v, InputResult::Submitted(text));
            &&& step == TurnStep::<Seq<char>>::NextTurn
            &&& w.history == v.history.push(text)
            &&& shows_more(w.editor.output, v.editor.output, typed_lines(text))
        }),
        text[0] == '\\' ==> input_effect(v, InputResult::Submitted(text)) == (
            v,
            TurnStep::<Seq<char>>::NextTurn,
        ),
        input_effect(v, InputResult::Refresh) == (v, TurnStep::<Seq<char>>::NextTurn),
        input_effect(v, InputResult::Quit) == (v, TurnStep::<Seq<char>>::Exit),
{
    lemma_told(text);
}

/// A line that is submitted while an answer is awaited is kept in the history and
/// waits behind all others; it is echoed when its turn comes.
pub proof fn law_lines_wait_for_their_turn(v: ConsoleView, last: Option<u64>, now: u64, rows: int)
    requires
        is_argument(v.editor.input.before + v.editor.input.after),
        (v.editor.input.before + v.editor.input.after)[0] != '\\',
        (v.editor.input.before + v.editor.input.after)[0] != '#',
    ensures
        ({
            let text = v.editor.input.before + v.editor.input.after;
            let enter = InputEvent::<Seq<char>>::Key(KeyCode::Enter, bare(), KeyEventKind::Press);
            let (w, armed, step) = wait_effect(v, last, enter, now, rows);
            &&& w.pending == v.pending.push(text)
            &&& w.history == v.history.push(text)
            &&& w.editor.output == v.editor.output
            &&& armed is None
            &&& step == WaitStep::Continue(Some(text), true, false)
        }),
{
}

/// The first line that waits is echoed and carried out, and the others wait on;
/// without any, input is read.
pub proof fn law_the_first_waiting_line_is_carried_out(v: ConsoleView)
    ensures
        v.pending.len() == 0 ==> turn_effect(v) == (v, TurnStep::<Seq<char>>::Read),
        v.pending.len() > 0 ==> ({
            let (w, step) = turn_effect(v);
            &&& step == TurnStep::Run(v.pending[0])
            &&& v.pending == seq![v.pending[0]] + w.pending
            &&& w.history == v.history
            &&& shows_more(w.editor.output, v.editor.output, typed_lines(v.pending[0]))
        }),
{
    if v.pending.len() > 0 {
        lemma_told(v.pending[0]);
        assert(v.pending =~= seq![v.pending[0]] + v.pending.drop_first());
    }
}

/// What a command answers is shown line by line; clearing empties the
/// transcript; quitting ends the client; what is no command goes to the model.
pub proof fn law_outcomes_are_shown(output: OutputView, text: Seq<char>)
    ensures
        ({
            let (after, next) = outcome_effect(output, CommandOutcome::Output(text));
            &&& next == AfterCommand::NextTurn
            &&& shows_more(after, output, told_lines(text))
        }),
        outcome_effect(output, CommandOutcome::Quiet) == (output, AfterCommand::NextTurn),
        outcome_effect(output, CommandOutcome::Unhandled) == (output, AfterCommand::Prompt),
        outcome_effect(output, CommandOutcome::Quit) == (output, AfterCommand::Exit),
        ({
            let (after, next) = outcome_effect(output, CommandOutcome::Cleared);
            after.lines.len() == 0 && after.scroll == 0 && next == AfterCommand::NextTurn
        }),
{
    lemma_told(text);
}

/// A prompt is sent to the server that the client is connected to, where the
/// model is there; without a server the user is told, and without the model
/// nothing is sent.
pub proof fn law_prompts_need_server_and_model(
    output: OutputView,
    model: Seq<char>,
    endpoint: Seq<char>,
    status: HeaderStatus,
)
    ensures
        status.model_ok ==> prompt_gate(output, true, model, Some(endpoint), status) == (
            output,
            Ok::<PromptGate<Seq<char>>, Seq<char>>(PromptGate::Open(endpoint)),
        ),
        !status.model_ok ==> prompt_gate(output, true, model, Some(endpoint), status) == (
            output,
            Ok::<PromptGate<Seq<char>>, Seq<char>>(PromptGate::Closed),
        ),
        ({
            let (after, gate) = prompt_gate(output, true, model, None, status);
            &&& gate == Ok::<PromptGate<Seq<char>>, Seq<char>>(PromptGate::Closed)
            &&& shows_more(after, output, told_lines("Error: Not connected to an LLM server"@))
        }),
        prompt_gate(output, false, model, Some(endpoint), status) == (
            output,
            Err::<PromptGate<Seq<char>>, Seq<char>>("unknown model profile '"@ + model + "'"@),
        ),
{
    lemma_told("Error: Not connected to an LLM server"@);
}

/// A server has a model where it lists it under its name or that of its profile;
/// one that does not answer has none.
pub proof fn law_models_are_found_by_any_name(
    entries: Vec<ModelEntry<String>>,
    i: int,
    model: Seq<char>,
    profile: Seq<char>,
)
    requires
        0 <= i < entries@.len(),
        ({
            let e = entries@[i];
            e.id@ == model || e.model@ == model || e.name@ == model || e.id@ == profile || e.model@
                == profile || e.name@ == profile
        }),
    ensures
        probe_has_model(ServerProbe::Models(entries), model, profile),
        !probe_has_model(ServerProbe::Silent, model, profile),
        !probe_has_model(ServerProbe::Unreadable, model, profile),
{
    let e = entries@[i];
    assert(entry_is(entries@[i]@, model) || entry_is(
        entries@[i]@,
        profile,
    ));
}

/// An answer is shown as the document that it is; one that was cancelled as far
/// as it had come, with a line that says so; a failure with its reason; and only
/// quitting ends the client.
pub proof fn law_answers_are_shown(
    output: OutputView,
    assets: SyntaxHighlightAssets,
    text: Seq<char>,
)
    requires
        output.lines.len() + markdown_lines(assets, text).len() + told_lines(
            "\x1b[38;2;255;170;170m"@ + "Request cancelled."@ + "\x1b[0m"@,
        ).len() <= 10_000,
    ensures
        ({
            let (after, ends) = answer_effect(output, assets, WaitResult::Response(text));
            &&& !ends
            &&& shows_more(after, output, markdown_lines(assets, text))
        }),
        ({
            let (after, ends) = answer_effect(output, assets, WaitResult::Failed(text));
            &&& !ends
            &&& shows_more(after, output, told_lines("Error: "@ + text))
        }),
        ({
            let (after, ends) = answer_effect(output, assets, WaitResult::Cancelled(text));
            let note = told_lines("\x1b[38;2;255;170;170m"@ + "Request cancelled."@ + "\x1b[0m"@);
            &&& !ends
            &&& text.len() == 0 ==> shows_more(after, output, note)
            &&& text.len() > 0 ==> shows_more(after, output, markdown_lines(assets, text) + note)
        }),
        answer_effect(output, assets, WaitResult::Quit) == (output, true),
{
    lemma_told("Error: "@ + text);
    let note = "\x1b[38;2;255;170;170m"@ + "Request cancelled."@ + "\x1b[0m"@;
    lemma_told(note);
    let lines = markdown_lines(assets, text);
    assert((output.lines + lines) + plain_lines(note) =~= output.lines + (lines + plain_lines(
        note,
    )));
}

/// What counts as generated: a whole answer, and of a cancelled one what had
/// come; nothing of a failure.
pub proof fn law_generated_text_is_what_came(text: Seq<char>)
    ensures
        generated_text(WaitResult::Response(text)) == Some(text),
        generated_text(WaitResult::Cancelled(text)) == Some(text),
        generated_text(WaitResult::Failed(text)) is None,
        generated_text(WaitResult::Quit) is None,
{
}

/// Beside the input the client says that the model thinks as long as nothing has
/// come; then how fast the answer comes where the server tells; and else how many
/// tokens have come, as soon as there are any and time has passed.
pub proof fn law_the_status_tells_how_far_the_answer_is(
    provider: Seq<char>,
    output: Seq<char>,
    rate: bool,
    time: bool,
    n: usize,
)
    requires
        output.len() > 0,
    ensures
        left_status(provider, seq![], rate, time, Some(n)) == Some(LeftStatus::Thinking),
        same_ignoring_case(provider, "llama.cpp"@) ==> left_status(
            provider,
            output,
            true,
            time,
            Some(n),
        ) == Some(LeftStatus::Working),
        !same_ignoring_case(provider, "llama.cpp"@) || !rate ==> left_status(
            provider,
            output,
            rate,
            time,
            Some(n),
        ) == (if n > 0 && time {
            Some(LeftStatus::Tokens(n))
        } else {
            None
        }),
        !same_ignoring_case(provider, "llama.cpp"@) ==> left_status(
            provider,
            output,
            rate,
            time,
            None,
        ) is None,
{
}

/// What stays visible of an answer is what was shown of it; without that, the
/// answer itself.
pub proof fn law_the_answer_stays_visible(streamed: Seq<char>, response: Seq<char>)
    ensures
        streamed.len() > 0 ==> final_text(streamed, response) == Some(streamed),
        streamed.len() == 0 && response.len() > 0 ==> final_text(streamed, response) == Some(
            response,
        ),
        streamed.len() == 0 && response.len() == 0 ==> final_text(streamed, response) is None,
{
}

/// While input is read, an outcome ends it at once, the status is refreshed when
/// its time has come, and else the line is drawn where it changed.
pub proof fn law_reading_ends_with_an_outcome(redraw: bool, now: u64, deadline: u64, ms: u64)
    ensures
        read_step(true, redraw, now, deadline) == ReadStep::Finish,
        now >= deadline ==> read_step(false, redraw, now, deadline) == ReadStep::Refresh,
        now < deadline ==> read_step(false, true, now, deadline) == ReadStep::Redraw,
        now < deadline ==> read_step(false, false, now, deadline) == ReadStep::Wait,
        frame_at(ms) * 120 <= ms < (frame_at(ms) + 1) * 120,
{
}

/// The report on what was used names each figure: whole seconds, tokens, and
/// tokens for each second of waiting, to a tenth.
pub proof fn law_the_report_names_each_figure(u: UsageFigures)
    ensures
        usage_text(u) == "Application time: "@ + (decimal((u.total_time / 1_000_000_000) as nat)
            + "s"@) + "\nWaiting for responses: "@ + (decimal(
            (u.waiting_time / 1_000_000_000) as nat,
        ) + "s"@) + "\nTokens generated: "@ + decimal(u.tokens as nat) + "\nAverage: "@ + (decimal(
            rate_tenths(u.tokens, u.waiting_time) / 10,
        ) + "."@ + decimal(rate_tenths(u.tokens, u.waiting_time) % 10)) + " t/s"@,
        u.waiting_time == 0 ==> rate_tenths(u.tokens, u.waiting_time) == 0,
        u.waiting_time > 0 ==> rate_tenths(u.tokens, u.waiting_time) * u.waiting_time <= u.tokens
            * 10_000_000_000 < (rate_tenths(u.tokens, u.waiting_time) + 1) * u.waiting_time,
{
    if u.waiting_time > 0 {
        let n = u.tokens * 10_000_000_000;
        let d = u.waiting_time as int;
        vstd::arithmetic::div_mod::lemma_fundamental_div_mod(n, d);
        assert(n / d >= 0) by (nonlinear_arith)
            requires
                n >= 0,
                d > 0,
        ;
        let q = n / d;
        assert(q * d <= n < (q + 1) * d) by (nonlinear_arith)
            requires
                n == d * q + n % d,
                0 <= n % d < d,
        ;
    }
}

/// A session is worth coming back to when tokens were generated, or when it is in
/// a repository on another branch than `main` and `master`.
pub proof fn law_sessions_are_worth_resuming(tokens: u64, branch: Seq<char>)
    ensures
        tokens > 0 ==> worth_resuming(tokens, false, None) && worth_resuming(
            tokens,
            true,
            Some(branch),
        ),
        !worth_resuming(0, true, Some("main"@)),
        !worth_resuming(0, true, Some("master"@)),
        branch != "main"@ && branch != "master"@ ==> worth_resuming(0, true, Some(branch)),
        worth_resuming(0, true, None),
        !worth_resuming(0, false, None),
        !worth_resuming(0, false, Some(branch)),
{
}

/// Sums are kept up to the greatest number there is.
pub proof fn law_sums_do_not_wrap(a: u64, b: u64)
    ensures
        a + b <= 0xffff_ffff_ffff_ffff ==> kept_sum(a, b) == a + b,
        a + b > 0xffff_ffff_ffff_ffff ==> kept_sum(a, b) == 0xffff_ffff_ffff_ffff,
{
}

/// The width of a terminal is what it tells, then what the setting says where it
/// is a number above zero, and else eighty.
pub proof fn law_terminals_have_a_width(told: usize, setting: Seq<char>)
    ensures
        told > 0 ==> terminal_width(Some(told), Some(setting)) == told,
        width_in(setting) matches Some(n) ==> n > 0 && terminal_width(None, Some(setting)) == n
            && terminal_width(Some(0), Some(setting)) == n,
        width_in(setting) is None ==> terminal_width(None, Some(setting)) == 80,
        terminal_width(None, None) == 80,
{
}

/// A model is told what its profile says, and something of its own where that is
/// nothing; a profile is listed with its name, model and provider.
pub proof fn law_profiles_are_listed(p: Profile<Seq<char>>, t: ToolInfo<Seq<char>>)
    ensures
        p.system_prompt.len() > 0 ==> prompt_of(p) == p.system_prompt,
        p.system_prompt.len() == 0 ==> prompt_of(p) == crate::profiles::default_prompt(),
        profile_line(p) == "- "@ + p.name + ": "@ + p.model + " ("@ + p.provider + ")"@,
        tool_lines(seq![t]) == seq!["- "@ + t.name + ": "@ + t.description],
{
    assert(tool_lines(seq![t]) =~= seq!["- "@ + t.name + ": "@ + t.description]);
}

/// Tools are listed in their order.
pub proof fn law_tools_are_listed_in_order(a: Seq<ToolInfo<Seq<char>>>, b: Seq<ToolInfo<Seq<char>>>)
    ensures
        tool_lines(a + b) == tool_lines(a) + tool_lines(b),
{
    assert(tool_lines(a + b) =~= tool_lines(a) + tool_lines(b));
}

/// Whether a command ends with an answer and changes nothing.
pub open spec fn only_answers(
    e: CommandEffect,
    c: ConnectionView,
    outcome: CommandOutcome<Seq<char>>,
) -> bool {
    &&& e.step == Ok::<CommandStep<Seq<char>>, Seq<char>>(CommandStep::Done(outcome))
    &&& e.connection == c
    &&& e.session == SessionEffect::<Seq<char>>::Keep
}

/// Connecting uses the server that is named, or that of the model's profile, and
/// keeps the model and the conversation; disconnecting forgets the server only.
pub proof fn law_connecting_keeps_the_model(
    endpoint: Seq<char>,
    c: ConnectionView,
    context: CommandContext,
)
    requires
        endpoint.len() > 0,
    ensures
        ({
            let e = command_effect(LocalCommand::ConnectTo(endpoint), c, context);
            &&& only_answers(e, e.connection, CommandOutcome::Quiet)
            &&& e.connection.model == c.model
            &&& e.connection.endpoint == Some(endpoint)
        }),
        ({
            let e = command_effect(LocalCommand::Disconnect, c, context);
            &&& only_answers(e, e.connection, CommandOutcome::Quiet)
            &&& e.connection.model == c.model
            &&& e.connection.endpoint is None
        }),
        profile_named(context.profiles@, c.model) matches Some(p) ==> {
            let e = command_effect(LocalCommand::ConnectDefault, c, context);
            &&& only_answers(e, e.connection, CommandOutcome::Quiet)
            &&& e.connection.model == c.model
            &&& e.connection.endpoint == Some(p.endpoint)
        },
        only_answers(
            command_effect(LocalCommand::ConnectTo(seq![]), c, context),
            c,
            CommandOutcome::Output(
                "Usage: /connect <endpoint>. Use /help to see available commands."@,
            ),
        ),
{
}

/// Choosing a model takes its name and the server of its profile, and tells the
/// model what its profile says; the conversation goes on. A name that is not
/// configured changes nothing, and the user is told which ones are.
pub proof fn law_choosing_a_model(name: Seq<char>, c: ConnectionView, context: CommandContext)
    requires
        name.len() > 0,
    ensures
        profile_named(context.profiles@, name) matches Some(p) ==> {
            let e = command_effect(LocalCommand::SetModel(name), c, context);
            &&& e.step == Ok::<CommandStep<Seq<char>>, Seq<char>>(
                CommandStep::Done(CommandOutcome::Quiet),
            )
            &&& e.connection.model == name
            &&& e.connection.endpoint == Some(p.normalized_endpoint)
            &&& e.session == SessionEffect::SetSystemPrompt(prompt_of(p))
        },
        profile_named(context.profiles@, name) is None ==> only_answers(
            command_effect(LocalCommand::SetModel(name), c, context),
            c,
            CommandOutcome::Output(
                "Unknown model profile '"@ + name + "'. Available: "@ + joined(
                    sorted_texts(profile_names(context.profiles@)),
                    ", "@,
                ),
            ),
        ),
        only_answers(
            command_effect(LocalCommand::SetModel(seq![]), c, context),
            c,
            CommandOutcome::Output("Usage: /model <name>. Use /help to see available commands."@),
        ),
{
}

/// Clearing begins the conversation anew and empties the transcript, and keeps
/// the model and the server; reloading begins it anew with the model that the
/// client started with.
pub proof fn law_clearing_keeps_model_and_server(c: ConnectionView, context: CommandContext)
    ensures
        profile_named(context.profiles@, c.model) matches Some(p) ==> {
            let e = command_effect(LocalCommand::Clear, c, context);
            &&& e.step == Ok::<CommandStep<Seq<char>>, Seq<char>>(
                CommandStep::Done(CommandOutcome::Cleared),
            )
            &&& e.connection == c
            &&& e.session == SessionEffect::Clear(prompt_of(p))
        },
        profile_named(context.profiles@, context.startup_model@) matches Some(p) ==> {
            let e = command_effect(LocalCommand::Reload, c, context);
            &&& e.step == Ok::<CommandStep<Seq<char>>, Seq<char>>(
                CommandStep::Done(CommandOutcome::Quiet),
            )
            &&& e.session == SessionEffect::Clear(prompt_of(p))
        },
{
}

/// The commands that only tell something tell exactly that.
pub proof fn law_telling_commands(c: ConnectionView, context: CommandContext)
    ensures
        only_answers(
            command_effect(LocalCommand::Help, c, context),
            c,
            CommandOutcome::Output(context.help_text@),
        ),
        only_answers(
            command_effect(LocalCommand::ListModels, c, context),
            c,
            CommandOutcome::Output(joined(profile_lines(context.profiles@), "\n"@)),
        ),
        only_answers(
            command_effect(LocalCommand::Tools, c, context),
            c,
            CommandOutcome::Output(
                joined(tool_lines(crate::profiles::tool_views(context.tools@)), "\n"@),
            ),
        ),
        only_answers(
            command_effect(LocalCommand::ModelInfo, c, context),
            c,
            CommandOutcome::Output("Use /list_models to see configured profiles"@),
        ),
        only_answers(
            command_effect(LocalCommand::Usage, c, context),
            c,
            CommandOutcome::Output(usage_text(context.usage)),
        ),
        only_answers(command_effect(LocalCommand::Quit, c, context), c, CommandOutcome::Quit),
{
}

/// Whether a command goes on with a step and changes nothing by itself.
pub open spec fn goes_on_with(
    e: CommandEffect,
    c: ConnectionView,
    step: CommandStep<Seq<char>>,
) -> bool {
    &&& e.step == Ok::<CommandStep<Seq<char>>, Seq<char>>(step)
    &&& e.connection == c
    &&& e.session == SessionEffect::<Seq<char>>::Keep
}

/// The commands for git ask git for what they name, with what they name.
pub proof fn law_git_commands_ask_git(
    n: u64,
    a: Seq<char>,
    b: Seq<char>,
    flag: bool,
    c: ConnectionView,
    context: CommandContext,
)
    ensures
        ({
            let asks = |command: LocalCommand<Seq<char>>, git: GitCommand<Seq<char>>|
                goes_on_with(command_effect(command, c, context), c, CommandStep::Git(git));
            &&& asks(LocalCommand::Diff, GitCommand::Diff)
            &&& asks(LocalCommand::Status, GitCommand::Status)
            &&& asks(LocalCommand::Log, GitCommand::Log)
            &&& asks(LocalCommand::Rebase, GitCommand::Rebase)
            &&& asks(LocalCommand::Push(flag), GitCommand::Push(flag))
            &&& asks(LocalCommand::InitRepo, GitCommand::InitRepo)
            &&& asks(LocalCommand::Pull(Some(n)), GitCommand::Pull(n))
            &&& asks(LocalCommand::Merge(Some(a)), GitCommand::Merge(a))
            &&& asks(LocalCommand::Checkout(Some(a)), GitCommand::Checkout(a))
            &&& asks(LocalCommand::AddFile(Some(a)), GitCommand::AddFile(a))
            &&& asks(LocalCommand::RemoveFile(Some(a)), GitCommand::RemoveFile(a))
            &&& asks(LocalCommand::MoveFile(Some((a, b))), GitCommand::MoveFile(a, b))
            &&& asks(LocalCommand::CherryPick(Some(a)), GitCommand::CherryPick(a))
            &&& asks(LocalCommand::Commit(Some(a)), GitCommand::Commit(a))
            &&& asks(LocalCommand::DeleteBranch(Some(a)), GitCommand::DeleteBranch(a))
        }),
        goes_on_with(
            command_effect(LocalCommand::ListFiles, c, context),
            c,
            CommandStep::ListFiles,
        ),
        a.len() > 0 ==> goes_on_with(
            command_effect(LocalCommand::OpenFile(a), c, context),
            c,
            CommandStep::OpenFile(a),
        ),
{
}

/// A command that lacks its argument does nothing but tell how it is used.
pub proof fn law_commands_without_argument_tell_their_usage(
    c: ConnectionView,
    context: CommandContext,
)
    ensures
        ({
            let tells = |command: LocalCommand<Seq<char>>, usage: Seq<char>|
                only_answers(command_effect(command, c, context), c, CommandOutcome::Output(usage));
            let end = ". Use /help to see available commands."@;
            &&& tells(LocalCommand::Pull(None), "Usage: /pull <number>"@ + end)
            &&& tells(LocalCommand::Merge(None), "Usage: /merge <branch>"@ + end)
            &&& tells(LocalCommand::Checkout(None), "Usage: /checkout <branch|file>"@ + end)
            &&& tells(LocalCommand::AddFile(None), "Usage: /add_file <path>"@ + end)
            &&& tells(LocalCommand::RemoveFile(None), "Usage: /remove_file <path>"@ + end)
            &&& tells(LocalCommand::CherryPick(None), "Usage: /cherry_pick <commit>"@ + end)
            &&& tells(LocalCommand::Commit(None), "Usage: /commit <message>"@ + end)
            &&& tells(LocalCommand::OpenFile(seq![]), "Usage: /open_file <path>"@ + end)
            &&& tells(LocalCommand::DeleteBranch(None), "Usage: /delete <branch>"@)
        }),
{
    reveal_strlit(". Use /help to see available commands.");
    reveal_strlit("Usage: /pull <number>");
    reveal_strlit("Usage: /pull <number>. Use /help to see available commands.");
    assert("Usage: /pull <number>"@ + ". Use /help to see available commands."@
        =~= "Usage: /pull <number>. Use /help to see available commands."@);
    reveal_strlit("Usage: /merge <branch>");
    reveal_strlit("Usage: /merge <branch>. Use /help to see available commands.");
    assert("Usage: /merge <branch>"@ + ". Use /help to see available commands."@
        =~= "Usage: /merge <branch>. Use /help to see available commands."@);
    reveal_strlit("Usage: /checkout <branch|file>");
    reveal_strlit("Usage: /checkout <branch|file>. Use /help to see available commands.");
    assert("Usage: /checkout <branch|file>"@ + ". Use /help to see available commands."@
        =~= "Usage: /checkout <branch|file>. Use /help to see available commands."@);
    reveal_strlit("Usage: /add_file <path>");
    reveal_strlit("Usage: /add_file <path>. Use /help to see available commands.");
    assert("Usage: /add_file <path>"@ + ". Use /help to see available commands."@
        =~= "Usage: /add_file <path>. Use /help to see available commands."@);
    reveal_strlit("Usage: /remove_file <path>");
    reveal_strlit("Usage: /remove_file <path>. Use /help to see available commands.");
    assert("Usage: /remove_file <path>"@ + ". Use /help to see available commands."@
        =~= "Usage: /remove_file <path>. Use /help to see available commands."@);
    reveal_strlit("Usage: /cherry_pick <commit>");
    reveal_strlit("Usage: /cherry_pick <commit>. Use /help to see available commands.");
    assert("Usage: /cherry_pick <commit>"@ + ". Use /help to see available commands."@
        =~= "Usage: /cherry_pick <commit>. Use /help to see available commands."@);
    reveal_strlit("Usage: /commit <message>");
    reveal_strlit("Usage: /commit <message>. Use /help to see available commands.");
    assert("Usage: /commit <message>"@ + ". Use /help to see available commands."@
        =~= "Usage: /commit <message>. Use /help to see available commands."@);
    reveal_strlit("Usage: /open_file <path>");
    reveal_strlit("Usage: /open_file <path>. Use /help to see available commands.");
    assert("Usage: /open_file <path>"@ + ". Use /help to see available commands."@
        =~= "Usage: /open_file <path>. Use /help to see available commands."@);
}

/// A line that is no command goes to the model, unless it begins with a slash:
/// then it is told to be unknown. Either way nothing else changes.
pub proof fn law_unknown_lines(line: Seq<char>, c: ConnectionView, context: CommandContext)
    requires
        local_command(line) is None,
    ensures
        !"/"@.is_prefix_of(trimmed_start(line)) ==> only_answers(
            line_effect(line, c, context),
            c,
            CommandOutcome::Unhandled,
        ),
        "/"@.is_prefix_of(trimmed_start(line)) ==> only_answers(
            line_effect(line, c, context),
            c,
            CommandOutcome::Output(
                "Unknown command '"@ + trimmed(line) + "'. Use /help to see available commands."@,
            ),
        ),
{
}

/// A line that is a command does what the command does.
pub proof fn law_lines_do_what_their_command_does(
    line: Seq<char>,
    command: LocalCommand<Seq<char>>,
    c: ConnectionView,
    context: CommandContext,
)
    requires
        local_command(line) == Some(command),
    ensures
        line_effect(line, c, context) == command_effect(command, c, context),
{
}

/// A server that lists a model under no name that is asked for does not have it.
pub proof fn law_models_that_are_not_listed_are_missing(
    entries: Vec<ModelEntry<String>>,
    model: Seq<char>,
    profile: Seq<char>,
)
    requires
        forall|i: int|
            0 <= i < entries@.len() ==> {
                let e = #[trigger] entries@[i];
                e.id@ != model && e.model@ != model && e.name@ != model && e.id@ != profile
                    && e.model@ != profile && e.name@ != profile
            },
    ensures
        !probe_has_model(ServerProbe::Models(entries), model, profile),
{
    assert forall|i: int| 0 <= i < entries@.len() implies !(entry_is(
        (#[trigger] entries@[i])@,
        model,
    ) || entry_is(entries@[i]@, profile)) by {}
}

proof fn lemma_place(list: Seq<Profile<Seq<char>>>, name: Seq<char>, from: int, i: int)
    requires
        distinct_names(list),
        0 <= from <= i < list.len(),
        list[i].name == name,
    ensures
        position_of(list, name, from) == Some(i),
    decreases i - from,
{
    if from < i {
        assert(list[from].name != list[i].name);
        lemma_place(list, name, from + 1, i);
    }
}

proof fn lemma_no_place(list: Seq<Profile<Seq<char>>>, name: Seq<char>, from: int)
    requires
        forall|i: int| from <= i < list.len() ==> (#[trigger] list[i]).name != name,
    ensures
        position_of(list, name, from) is None,
    decreases list.len() - from,
{
    if 0 <= from < list.len() {
        lemma_no_place(list, name, from + 1);
    }
}

/// A profile is found by its name, and by no other.
pub proof fn law_profiles_are_found_by_their_names(
    list: Seq<Profile<Seq<char>>>,
    name: Seq<char>,
    i: int,
)
    requires
        distinct_names(list),
        0 <= i < list.len(),
    ensures
        profile_named(list, list[i].name) == Some(list[i]),
        (forall|j: int| 0 <= j < list.len() ==> (#[trigger] list[j]).name != name)
            ==> profile_named(list, name) is None,
        profile_named(seq![], name) is None,
{
    lemma_place(list, list[i].name, 0, i);
    if forall|j: int| 0 <= j < list.len() ==> (#[trigger] list[j]).name != name {
        lemma_no_place(list, name, 0);
    }
}

/// A profile that is put among others is found under its name from then on, and
/// the others stay as they were.
pub proof fn law_profiles_take_the_place_of_their_names(
    list: Seq<Profile<Seq<char>>>,
    profile: Profile<Seq<char>>,
    i: int,
)
    requires
        distinct_names(list),
        0 <= i < list.len(),
    ensures
        distinct_names(with_profile(list, profile)),
        profile_named(with_profile(list, profile), profile.name) == Some(profile),
        list[i].name != profile.name ==> profile_named(with_profile(list, profile), list[i].name)
            == Some(list[i]),
        list[i].name == profile.name ==> with_profile(list, profile) == list.update(i, profile),
{
    let all = with_profile(list, profile);
    let name = profile.name;
    if exists|j: int| 0 <= j < list.len() && (#[trigger] list[j]).name == name {
        let j = choose|j: int| 0 <= j < list.len() && (#[trigger] list[j]).name == name;
        lemma_place(list, name, 0, j);
        assert(all == list.update(j, profile));
        assert(distinct_names(all)) by {
            assert forall|a: int, b: int| 0 <= a < b < all.len() implies (#[trigger] all[a]).name != (
            #[trigger] all[b]).name by {
                assert(list[a].name != list[b].name);
            }
        }
        lemma_place(all, name, 0, j);
        if list[i].name == name {
            lemma_place(list, name, 0, i);
        } else {
            lemma_place(all, list[i].name, 0, i);
        }
    } else {
        lemma_no_place(list, name, 0);
        assert(all == list.push(profile));
        assert(distinct_names(all)) by {
            assert forall|a: int, b: int| 0 <= a < b < all.len() implies (#[trigger] all[a]).name != (
            #[trigger] all[b]).name by {
                assert(list[a].name != name);
                if b < list.len() {
                    assert(list[a].name != list[b].name);
                }
            }
        }
        lemma_place(all, name, 0, list.len() as int);
        lemma_place(all, list[i].name, 0, i);
    }
}

/// The setting for the width of a terminal is a number above zero.
pub proof fn law_widths_are_numbers(n: usize)
    ensures
        n > 0 ==> width_in(decimal(n as nat)) == Some(n),
        width_in("0"@) is None,
        width_in(seq![]) is None,
{
    law_numbers_are_digits(seq![], n as u64, -1);
    law_numbers_are_digits(seq![], 0u64, -1);
    law_decimals_have_no_leading_zero(0);
    reveal_strlit("0");
    assert("0"@ =~= seq![digit_char(0)]);
}

/// A client that does not know its own profile says so when it is to
/// connect, to reload or to clear the conversation.
pub proof fn law_unknown_profiles_are_told(c: ConnectionView, context: CommandContext)
    requires
        profile_named(context.profiles@, c.model) is None,
    ensures
        command_effect(LocalCommand::ConnectDefault, c, context).step == Err::<
            CommandStep<Seq<char>>,
            Seq<char>,
        >("unknown model profile '"@ + c.model + "'"@),
        command_effect(LocalCommand::ConnectDefault, c, context).connection == c,
        command_effect(LocalCommand::Clear, c, context).step == Err::<
            CommandStep<Seq<char>>,
            Seq<char>,
        >("unknown model profile '"@ + c.model + "'"@),
        context.startup_model@ == c.model ==> command_effect(
            LocalCommand::Reload,
            c,
            context,
        ).step == Err::<CommandStep<Seq<char>>, Seq<char>>(
            "unknown model profile '"@ + c.model + "'"@,
        ),
{
}

/// The tokens of an answer are those of its text; an answer without text has
/// none.
pub proof fn law_answers_have_tokens(answer: WaitResult<Seq<char>>, n: usize)
    ensures
        generated_text(answer) is None ==> answer_tokens(answer) == 0,
        generated_text(answer) matches Some(text) ==> {
            &&& token_count(text) == Some(n) ==> answer_tokens(answer) == n
            &&& token_count(text) is None ==> answer_tokens(answer) == 0
        },
{
}

} // verus!
