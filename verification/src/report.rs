//! Figures about a session: what it has used, and how to come back to it.
use vstd::prelude::*;
use vstd::string::*;

use crate::completion::{is_protected_branch, protected_branch};
use crate::number::{decimal, format_u128, format_u64};

verus! {

/// What a session has used: times in nanoseconds, and the tokens generated.
#[derive(Clone, Copy, Debug, PartialEq, Eq, Structural)]
pub struct UsageFigures {
    pub total_time: u64,
    pub waiting_time: u64,
    pub tokens: u64,
}

/// A time in whole seconds.
pub open spec fn seconds_text(time: u64) -> Seq<char> {
    decimal((time / 1_000_000_000) as nat) + "s"@
}

/// Tokens for each second, in tenths; none where no time has passed.
pub open spec fn rate_tenths(tokens: u64, time: u64) -> nat {
    if time == 0 {
        0
    } else {
        ((tokens * 10_000_000_000) / time as int) as nat
    }
}

/// A number of tenths with its decimal point.
pub open spec fn tenths_text(n: nat) -> Seq<char> {
    decimal(n / 10) + "."@ + decimal(n % 10)
}

/// The report on what a session has used: the time of the application, the time
/// spent waiting for responses, the tokens generated, and how many of them came
/// in a second of waiting.
pub open spec fn usage_text(u: UsageFigures) -> Seq<char> {
    "Application time: "@ + seconds_text(u.total_time) + "\nWaiting for responses: "@
        + seconds_text(u.waiting_time) + "\nTokens generated: "@ + decimal(u.tokens as nat)
        + "\nAverage: "@ + tenths_text(rate_tenths(u.tokens, u.waiting_time)) + " t/s"@
}

fn write_seconds(time: u64) -> (r: String)
    ensures
        r@ == seconds_text(time),
{
    let mut r = format_u64(time / 1_000_000_000);
    r.append("s");
    r
}

/// Writes the report on what a session has used.
pub fn usage_report(u: UsageFigures) -> (r: String)
    ensures
        r@ == usage_text(u),
{
    let total = write_seconds(u.total_time);
    let waiting = write_seconds(u.waiting_time);
    let tokens = format_u64(u.tokens);
    assert(u.tokens * 10_000_000_000 <= u64::MAX * 10_000_000_000) by (nonlinear_arith)
        requires
            u.tokens <= u64::MAX,
    ;
    let tenths: u128 = if u.waiting_time == 0 {
        0
    } else {
        (u.tokens as u128 * 10_000_000_000u128) / (u.waiting_time as u128)
    };
    let whole = format_u128(tenths / 10);
    let part = format_u128(tenths % 10);
    let mut r = "Application time: ".to_string();
    r.append(total.as_str());
    r.append("\nWaiting for responses: ");
    r.append(waiting.as_str());
    r.append("\nTokens generated: ");
    r.append(tokens.as_str());
    r.append("\nAverage: ");
    r.append(whole.as_str());
    r.append(".");
    r.append(part.as_str());
    r.append(" t/s");
    assert(r@ =~= usage_text(u));
    r
}

/// The least of a sum and the greatest number that can be kept.
pub open spec fn kept_sum(a: u64, b: u64) -> u64 {
    if a + b <= u64::MAX {
        (a + b) as u64
    } else {
        u64::MAX
    }
}

/// Takes an answer into account: how long it was waited for, and how many tokens
/// it has.
pub fn count_answer(u: UsageFigures, waited: u64, tokens: u64) -> (r: UsageFigures)
    ensures
        r == (UsageFigures {
            total_time: u.total_time,
            waiting_time: kept_sum(u.waiting_time, waited),
            tokens: kept_sum(u.tokens, tokens),
        }),
{
    UsageFigures {
        total_time: u.total_time,
        waiting_time: u.waiting_time.saturating_add(waited),
        tokens: u.tokens.saturating_add(tokens),
    }
}

/// Whether a session is worth coming back to: it has generated tokens, or it is
/// in a repository and not on a protected branch. A detached head has no branch.
pub open spec fn worth_resuming(
    tokens: u64,
    in_repository: bool,
    branch: Option<Seq<char>>,
) -> bool {
    tokens > 0 || (in_repository && !(branch matches Some(name) && protected_branch(name)))
}

/// The command that resumes a session, told on exit. A session that is not worth
/// it is dropped without a word.
pub fn resume_command(
    session: &str,
    tokens: u64,
    in_repository: bool,
    branch: Option<&str>,
) -> (r: Option<String>)
    ensures
        crate::text::opt_text(r) == (if worth_resuming(
            tokens,
            in_repository,
            match branch {
                Some(b) => Some(b@),
                None => None,
            },
        ) {
            Some("orangu --resume "@ + session@)
        } else {
            None
        }),
{
    let protected = match branch {
        Some(name) => is_protected_branch(name),
        None => false,
    };
    if tokens > 0 || (in_repository && !protected) {
        let mut r = "orangu --resume ".to_string();
        r.append(session);
        Some(r)
    } else {
        None
    }
}

} // verus!
