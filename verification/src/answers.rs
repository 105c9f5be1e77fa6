//! Answers of the model: how they are shown while they come, and afterwards.
use vstd::prelude::*;
use vstd::string::*;

use crate::ansi::{ANSI_FG_LIGHT_RED, ANSI_RESET};
use crate::document::{console_text, markdown_tree, palette, render_markdown_for_console};
use crate::highlight::SyntaxHighlightAssets;
use crate::output::{plain_lines, OutputState, OutputView};
use crate::text::{eq_ignore_case, opt_text, same_ignoring_case};
use tiktoken_rs::CoreBPE;

verus! {

/// Declares a tokenizer.
#[verifier::external_type_specification]
#[verifier::external_body]
pub struct ExCoreBPE(tiktoken_rs::CoreBPE);

/// Whether a tokenizer is what `tiktoken_rs::cl100k_base` returns.
pub uninterp spec fn is_cl100k(tokenizer: CoreBPE) -> bool;

/// How many tokens of the vocabulary `cl100k` a text has; none where it cannot be
/// cut into tokens.
pub uninterp spec fn token_count(text: Seq<char>) -> Option<usize>;

/// `tiktoken_rs::cl100k_base` makes the tokenizer of that name. Its vocabulary is
/// compiled into the crate, so that there is one to return.
#[verifier::external_body]
fn load_vocabulary() -> (r: Option<CoreBPE>)
    ensures
        r is Some,
        r matches Some(tokenizer) ==> is_cl100k(tokenizer),
{
    tiktoken_rs::cl100k_base().ok()
}

/// `CoreBPE::encode` cuts a text into tokens, special ones among them. With this
/// tokenizer, how many come out depends on the text alone. A tokenizer that
/// lacks a single byte as a token can panic; this one has all of them.
#[verifier::external_body]
fn encode(tokenizer: &CoreBPE, text: &str) -> (r: Option<usize>)
    requires
        is_cl100k(*tokenizer),
    ensures
        r == token_count(text@),
{
    let (tokens, _) = tokenizer.encode(text, &tokenizer.special_tokens()).ok()?;
    Some(tokens.len())
}

/// Counts the tokens of a text, by the vocabulary `cl100k`.
pub struct Tokenizer {
    inner: CoreBPE,
}

impl Tokenizer {
    #[verifier::type_invariant]
    spec fn counts_cl100k(&self) -> bool {
        is_cl100k(self.inner)
    }

    /// Loads the tokenizer that comes with the program.
    pub fn load() -> (r: Option<Self>)
        ensures
            r is Some,
    {
        match load_vocabulary() {
            Some(inner) => Some(Tokenizer { inner }),
            None => None,
        }
    }

    /// How many tokens a text has.
    pub fn count(&self, text: &str) -> (r: Option<usize>)
        ensures
            r == token_count(text@),
    {
        proof {
            use_type_invariant(self);
        }
        encode(&self.inner, text)
    }
}

/// What is shown beside the input while an answer comes.
#[derive(Clone, Copy, Debug, PartialEq, Eq, Structural)]
pub enum LeftStatus {
    /// Nothing has come yet.
    Thinking,
    /// The server tells how fast the answer comes.
    Working,
    /// So many tokens have come.
    Tokens(usize),
}

/// Whether the server tells how fast an answer comes.
pub open spec fn tells_speed(provider: Seq<char>, has_rate: bool) -> bool {
    same_ignoring_case(provider, "llama.cpp"@) && has_rate
}

/// What is shown beside the input, given the number of tokens that have come.
pub open spec fn left_status(
    provider: Seq<char>,
    output: Seq<char>,
    has_rate: bool,
    time_passed: bool,
    tokens: Option<usize>,
) -> Option<LeftStatus> {
    if output.len() == 0 {
        Some(LeftStatus::Thinking)
    } else if tells_speed(provider, has_rate) {
        Some(LeftStatus::Working)
    } else {
        match tokens {
            Some(n) => if n > 0 && time_passed {
                Some(LeftStatus::Tokens(n))
            } else {
                None
            },
            None => None,
        }
    }
}

/// Tells what is shown beside the input, given the number of tokens that have
/// come.
pub fn choose_left_status(
    provider: &str,
    output: &str,
    has_rate: bool,
    time_passed: bool,
    tokens: Option<usize>,
) -> (r: Option<LeftStatus>)
    ensures
        r == left_status(provider@, output@, has_rate, time_passed, tokens),
{
    if output.is_empty() {
        return Some(LeftStatus::Thinking);
    }
    if eq_ignore_case(provider, "llama.cpp") && has_rate {
        return Some(LeftStatus::Working);
    }
    match tokens {
        Some(n) => if n > 0 && time_passed {
            Some(LeftStatus::Tokens(n))
        } else {
            None
        },
        None => None,
    }
}

/// Tells what is shown beside the input while an answer comes. `has_rate` tells
/// whether the server gave a speed above zero, `time_passed` whether any time
/// has passed.
pub fn render_left_status(
    provider: &str,
    output: &str,
    has_rate: bool,
    time_passed: bool,
    tokenizer: Option<&Tokenizer>,
) -> (r: Option<LeftStatus>)
    ensures
        r == left_status(
            provider@,
            output@,
            has_rate,
            time_passed,
            match tokenizer {
                Some(_) => token_count(output@),
                None => None,
            },
        ),
{
    let settled = output.is_empty() || (eq_ignore_case(provider, "llama.cpp") && has_rate);
    let tokens = match tokenizer {
        Some(t) => if settled {
            None
        } else {
            t.count(output)
        },
        None => None,
    };
    choose_left_status(provider, output, has_rate, time_passed, tokens)
}

/// The text that stays visible when an answer has come: what was shown of it, or
/// else the answer.
pub open spec fn final_text(streamed: Seq<char>, response: Seq<char>) -> Option<Seq<char>> {
    if streamed.len() > 0 {
        Some(streamed)
    } else if response.len() > 0 {
        Some(response)
    } else {
        None
    }
}

/// The text that stays visible when an answer has come.
pub fn final_pending_line(streamed_output: &str, response: &str) -> (r: Option<String>)
    ensures
        opt_text(r) == final_text(streamed_output@, response@),
{
    if !streamed_output.is_empty() {
        Some(streamed_output.to_string())
    } else if !response.is_empty() {
        Some(response.to_string())
    } else {
        None
    }
}

/// What is told when a request was cancelled.
pub open spec fn cancelled_text() -> Seq<char> {
    ANSI_FG_LIGHT_RED@ + "Request cancelled."@ + ANSI_RESET@
}

/// What is told when a request was cancelled.
pub fn request_cancelled_message() -> (r: String)
    ensures
        r@ == cancelled_text(),
{
    let mut r = String::new();
    r.append(ANSI_FG_LIGHT_RED);
    r.append("Request cancelled.");
    r.append(ANSI_RESET);
    assert(r@ =~= cancelled_text());
    r
}

/// The lines of a text in markdown.
pub open spec fn markdown_lines(assets: SyntaxHighlightAssets, text: Seq<char>) -> Seq<
    crate::output::TranscriptLine<Seq<char>>,
> {
    plain_lines(console_text(palette(assets), text, markdown_tree(text)))
}

/// Adds a text in markdown to the transcript.
pub fn push_markdown(output_state: &mut OutputState, assets: &SyntaxHighlightAssets, text: &str)
    requires
        old(output_state).wf(),
    ensures
        final(output_state).wf(),
        final(output_state)@ == old(output_state)@.extended(markdown_lines(*assets, text@)),
{
    let rendered = render_markdown_for_console(assets, text);
    output_state.push_text(rendered.as_str());
}

/// The transcript behind a request that was cancelled: what had come of the
/// answer, and that it was cancelled.
pub open spec fn after_cancel(
    v: OutputView,
    assets: SyntaxHighlightAssets,
    partial: Seq<char>,
) -> OutputView {
    let kept = if partial.len() > 0 {
        v.extended(markdown_lines(assets, partial))
    } else {
        v
    };
    kept.extended(plain_lines(cancelled_text()))
}

/// Keeps what had come of an answer when its request was cancelled.
pub fn preserve_cancelled_output(
    output_state: &mut OutputState,
    assets: &SyntaxHighlightAssets,
    partial_output: &str,
)
    requires
        old(output_state).wf(),
    ensures
        final(output_state).wf(),
        final(output_state)@ == after_cancel(old(output_state)@, *assets, partial_output@),
{
    if !partial_output.is_empty() {
        push_markdown(output_state, assets, partial_output);
    }
    let notice = request_cancelled_message();
    output_state.push_text(notice.as_str());
}

} // verus!
