//! Keys that act only when they are pressed twice in quick succession.
use vstd::prelude::*;

verus! {

/// How long a first Ctrl+C arms the second one, in nanoseconds.
pub const CTRL_C_EXIT_TIMEOUT: u64 = 2_000_000_000;

/// How long a first Escape arms the second one, in nanoseconds.
pub const ESC_CANCEL_TIMEOUT: u64 = 2_000_000_000;

/// How long the client waits for input before it refreshes its status, in
/// nanoseconds.
pub const IDLE_STATUS_REFRESH_INTERVAL: u64 = 60_000_000_000;

/// The time from `earlier` to `now`, or zero where `now` comes first.
pub open spec fn elapsed(earlier: u64, now: u64) -> int {
    if now > earlier {
        now - earlier
    } else {
        0
    }
}

/// Whether a press at `now` is the second of a pair.
pub open spec fn second_press(last: Option<u64>, now: u64, timeout: u64) -> bool {
    last is Some && elapsed(last.unwrap(), now) <= timeout
}

/// What a press leaves behind: nothing after the second of a pair, its own
/// time otherwise.
pub open spec fn armed_by(last: Option<u64>, now: u64, timeout: u64) -> Option<u64> {
    if second_press(last, now, timeout) {
        None
    } else {
        Some(now)
    }
}

fn is_second_press(last: Option<u64>, now: u64, timeout: u64) -> (r: bool)
    ensures
        r == second_press(last, now, timeout),
{
    match last {
        Some(earlier) => now <= earlier || now - earlier <= timeout,
        None => false,
    }
}

/// What an interrupt does.
#[derive(Clone, Copy, Debug, PartialEq, Eq, Structural)]
pub enum InterruptAction {
    Continue,
    Exit,
}

/// When Ctrl+C was pressed last, if that press still counts.
#[derive(Debug)]
pub struct InterruptState {
    pub last_interrupt: Option<u64>,
}

impl Default for InterruptState {
    fn default() -> (r: Self)
        ensures
            r.last_interrupt is None,
    {
        InterruptState { last_interrupt: None }
    }
}

impl InterruptState {
    /// Forgets the last press.
    pub fn reset(&mut self)
        ensures
            final(self).last_interrupt is None,
    {
        self.last_interrupt = None;
    }

    /// Takes note of a press of Ctrl+C.
    pub fn handle_interrupt(&mut self, now: u64) -> (r: InterruptAction)
        ensures
            r == (if second_press(old(self).last_interrupt, now, CTRL_C_EXIT_TIMEOUT) {
                InterruptAction::Exit
            } else {
                InterruptAction::Continue
            }),
            final(self).last_interrupt == armed_by(
                old(self).last_interrupt,
                now,
                CTRL_C_EXIT_TIMEOUT,
            ),
    {
        if is_second_press(self.last_interrupt, now, CTRL_C_EXIT_TIMEOUT) {
            self.last_interrupt = None;
            return InterruptAction::Exit;
        }
        self.last_interrupt = Some(now);
        InterruptAction::Continue
    }
}

/// When Escape was pressed last, if that press still counts.
#[derive(Debug)]
pub struct EscapeCancelState {
    pub last_escape: Option<u64>,
}

impl Default for EscapeCancelState {
    fn default() -> (r: Self)
        ensures
            r.last_escape is None,
    {
        EscapeCancelState { last_escape: None }
    }
}

impl EscapeCancelState {
    /// Forgets the last press.
    pub fn reset(&mut self)
        ensures
            final(self).last_escape is None,
    {
        self.last_escape = None;
    }

    /// Takes note of a press of Escape, and tells whether it cancels.
    pub fn handle_escape(&mut self, now: u64) -> (r: bool)
        ensures
            r == second_press(old(self).last_escape, now, ESC_CANCEL_TIMEOUT),
            final(self).last_escape == armed_by(old(self).last_escape, now, ESC_CANCEL_TIMEOUT),
    {
        if is_second_press(self.last_escape, now, ESC_CANCEL_TIMEOUT) {
            self.last_escape = None;
            return true;
        }
        self.last_escape = Some(now);
        false
    }
}

/// How long to wait for input until the status is refreshed.
pub fn idle_status_refresh_timeout(refresh_deadline: u64, now: u64) -> (r: u64)
    ensures
        r == elapsed(now, refresh_deadline),
{
    if refresh_deadline > now {
        refresh_deadline - now
    } else {
        0
    }
}

/// It takes two presses: the first one never acts, the second one acts exactly
/// when it comes within the timeout, and after it a new pair begins.
pub proof fn law_two_presses(first: u64, second: u64, third: u64, timeout: u64)
    requires
        first <= second <= third,
    ensures
        !second_press(None, first, timeout),
        second_press(armed_by(None, first, timeout), second, timeout) <==> second - first
            <= timeout,
        second - first <= timeout ==> !second_press(
            armed_by(armed_by(None, first, timeout), second, timeout),
            third,
            timeout,
        ),
        second - first > timeout ==> (second_press(
            armed_by(armed_by(None, first, timeout), second, timeout),
            third,
            timeout,
        ) <==> third - second <= timeout),
{
}

} // verus!
