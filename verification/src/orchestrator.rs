//! The injection orchestrator: the state machine that turns "deliver this
//! text" into clipboard write, focus wait, modifier reset, and a fallback
//! chain of synthesis strategies with retry — under a single-flight guard,
//! and with the guarantee that the text is never lost: whatever the
//! strategies do, a completed run leaves the clipboard holding the
//! requested text.

use vstd::prelude::*;

use crate::guard::SingleFlight;
use crate::outcome::{
    sum_backoff_ms, zero_report, InjectionError, InjectionOutcome, InjectionReport,
    InjectionRequest, StrategyId, BACKOFF_STEP_MS, FOCUS_POLL_MS, FOCUS_WAIT_MS,
    MAX_PASTE_ATTEMPTS, SETTLE_DELAY_MS,
};
use crate::ports::{ClipboardPort, FocusTracker, InputSynthesisDriver, Notifier, Waiter};
use crate::strutil::str_eq;

verus! {

/// Whether `name` is the dictation application's own window. Pasting while
/// it still holds focus would deliver the text to the wrong target.
pub open spec fn is_dictation_window(name: Seq<char>) -> bool {
    name == "Verity"@ || name == "verity"@
}

/// Executable test for [`is_dictation_window`].
pub fn is_dictation_window_name(name: &str) -> (r: bool)
    ensures
        r == is_dictation_window(name@),
{
    str_eq(name, "Verity") || str_eq(name, "verity")
}

/// Wait, polling and bounded, for focus to move away from the dictation
/// window. Returns the frontmost application's name as soon as a poll sees
/// one that is not the dictation window itself; a poll whose introspection
/// fails is swallowed and polling continues. The only failure is running
/// out of `max_wait_ms`, and a timeout is not fatal to the caller: the
/// target application may still receive the paste.
pub fn wait_for_focus_restoration<F: FocusTracker, W: Waiter>(
    focus: &mut F,
    waiter: &mut W,
    max_wait_ms: u64,
) -> (r: Result<String, String>)
    ensures
        r matches Ok(name) ==> !is_dictation_window(name@),
        r matches Err(m) ==> m@ == "Timeout waiting for focus restoration"@,
{
    let max_polls: u64 = max_wait_ms / FOCUS_POLL_MS;
    let mut polls: u64 = 0;
    while polls < max_polls
        invariant
            polls <= max_polls,
        decreases max_polls - polls,
    {
        match focus.frontmost_app() {
            Ok(name) => {
                if !is_dictation_window_name(name.as_str()) {
                    return Ok(name);
                }
            },
            Err(_) => {
                // Introspection hiccups may be temporary; keep polling.
            },
        }
        waiter.sleep_ms(FOCUS_POLL_MS);
        polls += 1;
    }
    Err("Timeout waiting for focus restoration".to_owned())
}

/// The virtual keycodes of the modifier keys that must be forced to the
/// released state before a paste is synthesized: left/right command,
/// shift, option and control.
pub fn modifier_keycodes() -> (r: Vec<u16>)
    ensures
        r@ =~= seq![55u16, 54u16, 56u16, 60u16, 58u16, 61u16, 59u16, 62u16],
{
    let mut v: Vec<u16> = Vec::new();
    v.push(55);
    v.push(54);
    v.push(56);
    v.push(60);
    v.push(58);
    v.push(61);
    v.push(59);
    v.push(62);
    v
}

/// Force every modifier key the platform recognizes to the released state,
/// whatever its last-known state: a stuck modifier (the dictation hotkey
/// chord, say) would corrupt the synthesized paste keystroke. Best-effort:
/// a key whose release fails is skipped, and the call as a whole never
/// fails.
pub fn release_all_modifier_keys<D: InputSynthesisDriver, W: Waiter>(
    driver: &mut D,
    waiter: &mut W,
) -> (r: Result<(), String>)
    ensures
        r is Ok,
{
    let keys = modifier_keycodes();
    let mut i: usize = 0;
    while i < keys.len()
        decreases keys.len() - i,
    {
        let _ = driver.release_modifier(keys[i]);
        i += 1;
    }
    // Let the system process the releases.
    waiter.sleep_ms(10);
    Ok(())
}

/// The full injection operation.
///
/// Sequence: acquire the single-flight guard (reject with `Busy` at once
/// if held); write the text to the clipboard (any failure there is fatal
/// and returned, guard released); stop with `ClipboardOnly` if UI
/// automation is not permitted; otherwise best-effort focus wait and
/// modifier reset, a short settle delay, then up to three rounds of the
/// primary and secondary paste strategies with linearly growing delays
/// between rounds, and finally the character-typing fallback. When every
/// strategy fails the paste-error notification is emitted and the run
/// still ends in `ClipboardOnly`: the text is on the clipboard and is
/// never lost.
pub fn insert_text_impl<C: ClipboardPort, D: InputSynthesisDriver, F: FocusTracker, W: Waiter, N: Notifier>(
    req: &InjectionRequest,
    guard: &mut SingleFlight,
    clipboard: &mut C,
    driver: &mut D,
    focus: &mut F,
    waiter: &mut W,
    notifier: &mut N,
) -> (r: (Result<InjectionOutcome, InjectionError>, InjectionReport))
    ensures
        // Single flight: a held guard rejects the request at once, with no
        // side effect — no clipboard change, no synthesis call, no
        // preparation, no delay, no notification.
        old(guard).is_held() ==> ((r.0 matches Err(InjectionError::Busy)) && final(clipboard).content()
            == old(clipboard).content() && r.1 == zero_report()),
        // The guard is released on every exit path that acquired it.
        !old(guard).is_held() ==> !final(guard).is_held(),
        r.0 matches Err(InjectionError::Busy) ==> old(guard).is_held() && final(guard).is_held(),
        // Text is never lost: every completed run holds the requested text
        // on the clipboard, provided the clipboard write itself succeeded
        // (a write failure is exactly the `ClipboardFailure` error).
        r.0 is Ok ==> final(clipboard).content() == Some(req.text@),
        // The only hard errors are contention and clipboard failure; once
        // the write has succeeded, exhaustion of every strategy still ends
        // in a non-error outcome.
        r.0 is Err ==> (r.0 matches Err(InjectionError::Busy) || r.0 matches Err(
            InjectionError::ClipboardFailure(_),
        )),
        // A failed clipboard write ends the run before anything else: no
        // focus wait, no modifier reset, no synthesis, no notification.
        r.0 matches Err(InjectionError::ClipboardFailure(_)) ==> r.1 == zero_report(),
        // Without permission the run stops right after the write: no
        // preparation step, no synthesis strategy, no notification, and a
        // clipboard-only outcome.
        !req.permission_granted ==> r.1 == zero_report(),
        !old(guard).is_held() && !req.permission_granted ==> (r.0 matches Ok(o) ==> (
        o matches InjectionOutcome::ClipboardOnly(m) && m@ == "no permission"@)),
        // A completed run with permission performed the focus wait and the
        // modifier reset, each exactly once; no other run touches them.
        r.0 is Ok && req.permission_granted ==> r.1.focus_waits == 1 && r.1.modifier_resets == 1,
        !(r.0 is Ok && req.permission_granted) ==> r.1.focus_waits == 0 && r.1.modifier_resets
            == 0,
        // A synthesized success names its strategy, and the counters say
        // where in the fallback chain it fell: the primary strategy as the
        // odd call of its round, the secondary as the even one, the typing
        // fallback as the one call after every round failed.
        r.0 matches Ok(InjectionOutcome::Success(s)) ==> req.permission_granted && 1
            <= r.1.attempts && ((s is Primary ==> r.1.synthesis_calls == 2 * (r.1.attempts - 1)
            + 1) && (s is Secondary ==> r.1.synthesis_calls == 2 * r.1.attempts) && (
        s is Tertiary ==> r.1.attempts == MAX_PASTE_ATTEMPTS && r.1.synthesis_calls == 2
            * MAX_PASTE_ATTEMPTS + 1)),
        // A clipboard-only outcome with permission is exhaustion: every
        // round was entered, every strategy invoked, and the paste-error
        // notification emitted exactly once. No other run notifies.
        r.0 matches Ok(InjectionOutcome::ClipboardOnly(_)) && req.permission_granted
            ==> r.1.attempts == MAX_PASTE_ATTEMPTS && r.1.synthesis_calls == 2
            * MAX_PASTE_ATTEMPTS + 1 && r.1.notifications == 1,
        !((r.0 matches Ok(InjectionOutcome::ClipboardOnly(_))) && req.permission_granted)
            ==> r.1.notifications == 0,
        // The run never reports the hard-failure outcome.
        !(r.0 matches Ok(InjectionOutcome::Failure(_))),
        // Bounds on the whole run: at most three rounds of two strategies
        // plus the one typing fallback.
        r.1.attempts <= MAX_PASTE_ATTEMPTS,
        r.1.synthesis_calls <= 2 * MAX_PASTE_ATTEMPTS + 1,
        // Retry accounting: the inter-attempt delays requested are exactly
        // the linear backoff schedule for the rounds that completed before
        // the run ended.
        r.1.backoff_total_ms == sum_backoff_ms(
            if r.1.attempts == 0 {
                0
            } else {
                (r.1.attempts - 1) as nat
            },
        ),
{
    let mut report = InjectionReport {
        attempts: 0,
        synthesis_calls: 0,
        backoff_total_ms: 0,
        focus_waits: 0,
        modifier_resets: 0,
        notifications: 0,
    };

    // Step 1: single-flight guard.
    if !guard.try_acquire() {
        return (Err(InjectionError::Busy), report);
    }

    // Step 2: the clipboard write. A failure here is the one fatal error:
    // nothing was delivered and nothing is preserved.
    match clipboard.set_text(req.text.as_str()) {
        Ok(_) => {},
        Err(e) => {
            guard.release();
            return (Err(InjectionError::ClipboardFailure(e)), report);
        },
    }

    // Step 3: without permission for UI automation, stop here; the text is
    // on the clipboard for a manual paste.
    if !req.permission_granted {
        guard.release();
        return (Ok(InjectionOutcome::ClipboardOnly("no permission".to_owned())), report);
    }

    // Step 4: best-effort focus wait and modifier reset; neither outcome
    // gates the paste.
    let _ = wait_for_focus_restoration(focus, waiter, FOCUS_WAIT_MS);
    report.focus_waits = 1;
    let _ = release_all_modifier_keys(driver, waiter);
    report.modifier_resets = 1;

    // Step 5: a short settle delay for OS stability.
    waiter.sleep_ms(SETTLE_DELAY_MS);

    // Step 6: the retry loop over the paste strategies.
    let mut last_error: String = "unknown paste error".to_owned();
    let mut attempt: u64 = 1;
    while attempt <= MAX_PASTE_ATTEMPTS
        invariant
            1 <= attempt <= MAX_PASTE_ATTEMPTS + 1,
            !old(guard).is_held(),
            req.permission_granted,
            guard.is_held(),
            clipboard.content() == Some(req.text@),
            report.attempts == attempt - 1,
            report.synthesis_calls == 2 * (attempt - 1),
            report.focus_waits == 1,
            report.modifier_resets == 1,
            report.notifications == 0,
            attempt <= MAX_PASTE_ATTEMPTS ==> report.backoff_total_ms == sum_backoff_ms(
                (attempt - 1) as nat,
            ),
            attempt == MAX_PASTE_ATTEMPTS + 1 ==> report.backoff_total_ms == sum_backoff_ms(
                (MAX_PASTE_ATTEMPTS - 1) as nat,
            ),
        decreases MAX_PASTE_ATTEMPTS + 1 - attempt,
    {
        report.attempts = attempt;

        // Strategy 1: the platform's primary synthesis mechanism.
        report.synthesis_calls = report.synthesis_calls + 1;
        match driver.paste_primary() {
            Ok(_) => {
                guard.release();
                return (Ok(InjectionOutcome::Success(StrategyId::Primary)), report);
            },
            Err(e) => {
                last_error = e;
            },
        }

        // Strategy 2: the scripting-service paste.
        report.synthesis_calls = report.synthesis_calls + 1;
        match driver.paste_secondary() {
            Ok(_) => {
                guard.release();
                return (Ok(InjectionOutcome::Success(StrategyId::Secondary)), report);
            },
            Err(e) => {
                last_error = e;
            },
        }

        // Linearly growing delay between rounds.
        if attempt < MAX_PASTE_ATTEMPTS {
            proof {
                assert(sum_backoff_ms(0) == 0);
                assert(sum_backoff_ms(1) == 50);
                assert(sum_backoff_ms(2) == 150);
            }
            let delay = BACKOFF_STEP_MS * attempt;
            waiter.sleep_ms(delay);
            report.backoff_total_ms = report.backoff_total_ms + delay;
        }
        attempt += 1;
    }

    // Strategy 3: type the text character by character, where paste is
    // intercepted or blocked.
    report.synthesis_calls = report.synthesis_calls + 1;
    match driver.type_text(req.text.as_str()) {
        Ok(_) => {
            guard.release();
            return (Ok(InjectionOutcome::Success(StrategyId::Tertiary)), report);
        },
        Err(e) => {
            last_error = e;
        },
    }

    // Step 7: everything failed. Tell the user, and still report a safe
    // outcome: the clipboard holds the text.
    notifier.notify_paste_error("Paste failed - text copied to clipboard");
    report.notifications = 1;
    guard.release();
    (Ok(InjectionOutcome::ClipboardOnly(last_error)), report)
}

} // verus!
