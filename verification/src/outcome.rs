//! Results, errors and policy constants of the injection operation.

use vstd::prelude::*;

verus! {

/// Delay before the first synthesis attempt, to let the OS settle after the
/// clipboard write and modifier reset.
pub const SETTLE_DELAY_MS: u64 = 50;

/// How long to wait, at most, for focus to leave the dictation window.
pub const FOCUS_WAIT_MS: u64 = 500;

/// How often to poll the frontmost application during the focus wait.
pub const FOCUS_POLL_MS: u64 = 10;

/// How many rounds of the paste strategies are tried before the
/// character-typing fallback.
pub const MAX_PASTE_ATTEMPTS: u64 = 3;

/// The inter-attempt delay grows by this much per completed attempt.
pub const BACKOFF_STEP_MS: u64 = 50;

/// A request to deliver text into the focused application. Immutable once
/// constructed; owned by one orchestration call for its lifetime.
#[derive(Debug, Clone)]
pub struct InjectionRequest {
    /// The finished text to deliver.
    pub text: String,
    /// Whether UI automation is permitted right now; the check itself is an
    /// external collaborator's job.
    pub permission_granted: bool,
}

/// Which injection mechanism produced a success. Observability only: callers
/// make no control-flow decision on it.
#[derive(Debug, Clone, Copy, PartialEq, Eq, Structural)]
pub enum StrategyId {
    /// Direct low-level keystroke injection.
    Primary,
    /// The OS scripting service issuing the same paste keystroke.
    Secondary,
    /// Character-by-character typing through the scripting service.
    Tertiary,
}

/// How an injection attempt ended. No outcome discards the text: once the
/// clipboard write succeeded, the clipboard keeps the requested text.
#[derive(Debug, Clone)]
pub enum InjectionOutcome {
    /// An automated paste went through, via the named strategy.
    Success(StrategyId),
    /// The text is safely on the clipboard, but no automated paste was
    /// performed or succeeded; the reason is carried along.
    ClipboardOnly(String),
    /// Hard failure. The orchestrator never returns this once the clipboard
    /// write has succeeded; the variant exists for completeness of the
    /// outcome vocabulary.
    Failure(String),
}

/// The only hard errors the caller can see.
#[derive(Debug, Clone)]
pub enum InjectionError {
    /// Another injection is in flight; the request was rejected at once,
    /// with no side effect.
    Busy,
    /// The clipboard itself could not be initialized or written; nothing
    /// further was attempted.
    ClipboardFailure(String),
}

impl InjectionError {
    /// A user-facing description of the error.
    pub fn message(&self) -> (r: String)
        ensures
            self is Busy ==> r@ == "Text insertion already in progress"@,
            self matches InjectionError::ClipboardFailure(e) ==> r@ == e@,
    {
        match self {
            InjectionError::Busy => "Text insertion already in progress".to_owned(),
            InjectionError::ClipboardFailure(e) => e.clone(),
        }
    }
}

/// Counters the orchestrator keeps while it runs, reported back for
/// observability and pinned by its contract: how many retry rounds were
/// entered, how many times a synthesis strategy was invoked, how much
/// inter-attempt delay was requested, and whether the preparation steps
/// and the paste-error notification happened. The synthesis, focus and
/// notification ports carry no ghost state of their own — platform
/// adapters outside the verified world implement them — so this report is
/// where the orchestrator accounts for its use of them.
#[derive(Debug, Clone, Copy, PartialEq, Eq, Structural)]
pub struct InjectionReport {
    /// Retry rounds entered (0 when the run ended before the retry loop).
    pub attempts: u64,
    /// Invocations of any synthesis strategy, the typing fallback included.
    pub synthesis_calls: u64,
    /// Total requested inter-attempt delay, in milliseconds.
    pub backoff_total_ms: u64,
    /// Focus waits performed (at most one, before the first attempt).
    pub focus_waits: u64,
    /// Modifier resets performed (at most one, before the first attempt).
    pub modifier_resets: u64,
    /// Paste-error notifications emitted (one exactly when every strategy
    /// was exhausted).
    pub notifications: u64,
}

/// The report of a run that ended before any work: no rounds, no synthesis
/// call, no delay, no preparation, no notification.
pub open spec fn zero_report() -> InjectionReport {
    InjectionReport {
        attempts: 0,
        synthesis_calls: 0,
        backoff_total_ms: 0,
        focus_waits: 0,
        modifier_resets: 0,
        notifications: 0,
    }
}

/// Total inter-attempt delay after `n` completed retry rounds: the delays
/// grow linearly, 50ms after the first round, 100ms after the second, and
/// so on.
pub open spec fn sum_backoff_ms(n: nat) -> nat
    decreases n,
{
    if n == 0 {
        0
    } else {
        sum_backoff_ms((n - 1) as nat) + (BACKOFF_STEP_MS as nat) * n
    }
}

/// When the first two attempts fail and the third succeeds, the total delay
/// inserted before success is exactly the first two backoff intervals,
/// 50ms + 100ms = 150ms.
pub proof fn lemma_backoff_before_third_attempt()
    ensures
        sum_backoff_ms(2) == 150,
{
    assert(sum_backoff_ms(0) == 0);
    assert(sum_backoff_ms(1) == 50);
    assert(sum_backoff_ms(2) == 150);
}

} // verus!
