use text_delivery::guard::SingleFlight;
use text_delivery::orchestrator::{
    insert_text_impl, modifier_keycodes, release_all_modifier_keys, wait_for_focus_restoration,
};
use text_delivery::outcome::{InjectionError, InjectionOutcome, InjectionRequest, StrategyId};
use text_delivery::ports::{
    ClipboardPort, FocusTracker, InputSynthesisDriver, MemClipboard, NoFocusApi, NoWait, Notifier,
    RefusingClipboard, SilentNotifier, UnsupportedDriver, Waiter,
};

/// A driver whose strategies succeed on a chosen invocation and fail on
/// every other, counting everything.
struct ScriptedDriver {
    primary_ok_at: Option<usize>,
    primary_calls: usize,
    secondary_ok_at: Option<usize>,
    secondary_calls: usize,
    type_ok: bool,
    type_calls: usize,
    released: Vec<u16>,
}

impl ScriptedDriver {
    fn failing() -> Self {
        ScriptedDriver {
            primary_ok_at: None,
            primary_calls: 0,
            secondary_ok_at: None,
            secondary_calls: 0,
            type_ok: false,
            type_calls: 0,
            released: Vec::new(),
        }
    }

    fn synthesis_calls(&self) -> usize {
        self.primary_calls + self.secondary_calls + self.type_calls
    }
}

impl InputSynthesisDriver for ScriptedDriver {
    fn paste_primary(&mut self) -> Result<(), String> {
        self.primary_calls += 1;
        if self.primary_ok_at == Some(self.primary_calls) {
            Ok(())
        } else {
            Err("primary failed".to_string())
        }
    }

    fn paste_secondary(&mut self) -> Result<(), String> {
        self.secondary_calls += 1;
        if self.secondary_ok_at == Some(self.secondary_calls) {
            Ok(())
        } else {
            Err("secondary failed".to_string())
        }
    }

    fn type_text(&mut self, _text: &str) -> Result<(), String> {
        self.type_calls += 1;
        if self.type_ok {
            Ok(())
        } else {
            Err("typing failed".to_string())
        }
    }

    fn release_modifier(&mut self, keycode: u16) -> Result<(), String> {
        self.released.push(keycode);
        Ok(())
    }
}

struct RecordingWaiter {
    sleeps: Vec<u64>,
}

impl Waiter for RecordingWaiter {
    fn sleep_ms(&mut self, ms: u64) {
        self.sleeps.push(ms);
    }
}

struct StubFocus {
    answers: Vec<Result<String, String>>,
}

impl FocusTracker for StubFocus {
    fn frontmost_app(&mut self) -> Result<String, String> {
        if self.answers.is_empty() {
            Err("no answer".to_string())
        } else {
            self.answers.remove(0)
        }
    }
}

struct RecordingNotifier {
    messages: Vec<String>,
}

impl Notifier for RecordingNotifier {
    fn notify_paste_error(&mut self, message: &str) {
        self.messages.push(message.to_string());
    }
}

fn other_app_focus() -> StubFocus {
    StubFocus { answers: vec![Ok("Editor".to_string())] }
}


#[test]
fn success_on_first_primary_attempt() {
    let req = InjectionRequest { text: "hello world".to_string(), permission_granted: true };
    let mut guard = SingleFlight::new();
    let mut clipboard = MemClipboard::new();
    let mut driver = ScriptedDriver { primary_ok_at: Some(1), ..ScriptedDriver::failing() };
    let mut focus = other_app_focus();
    let mut waiter = RecordingWaiter { sleeps: Vec::new() };
    let mut notifier = RecordingNotifier { messages: Vec::new() };

    let (outcome, report) = insert_text_impl(
        &req,
        &mut guard,
        &mut clipboard,
        &mut driver,
        &mut focus,
        &mut waiter,
        &mut notifier,
    );

    assert!(matches!(outcome, Ok(InjectionOutcome::Success(StrategyId::Primary))));
    assert_eq!(report.attempts, 1);
    assert_eq!(report.synthesis_calls, 1);
    assert_eq!(report.backoff_total_ms, 0);
    // The preparation steps ran once each; no notification on success.
    assert_eq!(report.focus_waits, 1);
    assert_eq!(report.modifier_resets, 1);
    assert_eq!(report.notifications, 0);
    // The clipboard holds exactly the requested text.
    assert_eq!(clipboard.get_text().unwrap(), "hello world");
    assert!(notifier.messages.is_empty());
}

#[test]
fn busy_guard_rejects_without_side_effects() {
    let req = InjectionRequest { text: "second".to_string(), permission_granted: true };
    let mut guard = SingleFlight::new();
    assert!(guard.try_acquire());
    // A second acquisition on the same guard is turned away.
    let mut probe = SingleFlight::new();
    assert!(probe.try_acquire());
    assert!(!probe.try_acquire());

    let mut clipboard = MemClipboard::new();
    clipboard.set_text("first").unwrap();
    let mut driver = ScriptedDriver::failing();
    let mut focus = other_app_focus();
    let mut waiter = RecordingWaiter { sleeps: Vec::new() };
    let mut notifier = RecordingNotifier { messages: Vec::new() };

    let (outcome, report) = insert_text_impl(
        &req,
        &mut guard,
        &mut clipboard,
        &mut driver,
        &mut focus,
        &mut waiter,
        &mut notifier,
    );

    assert!(matches!(outcome, Err(InjectionError::Busy)));
    // No clipboard write, no synthesis, no preparation, no notification,
    // no waiting happened.
    assert_eq!(clipboard.get_text().unwrap(), "first");
    assert_eq!(report.synthesis_calls, 0);
    assert_eq!(report.focus_waits, 0);
    assert_eq!(report.modifier_resets, 0);
    assert_eq!(report.notifications, 0);
    assert_eq!(driver.synthesis_calls(), 0);
    assert!(notifier.messages.is_empty());
    assert!(waiter.sleeps.is_empty());
}

#[test]
fn guard_is_released_after_completion() {
    let req = InjectionRequest { text: "text".to_string(), permission_granted: true };
    let mut guard = SingleFlight::new();
    let mut clipboard = MemClipboard::new();
    let mut driver = ScriptedDriver { primary_ok_at: Some(1), ..ScriptedDriver::failing() };
    let mut focus = other_app_focus();
    let mut waiter = NoWait;
    let mut notifier = SilentNotifier;

    let (outcome, _) = insert_text_impl(
        &req,
        &mut guard,
        &mut clipboard,
        &mut driver,
        &mut focus,
        &mut waiter,
        &mut notifier,
    );
    assert!(outcome.is_ok());
    // Released on exit: a new acquisition succeeds.
    assert!(guard.try_acquire());
}

#[test]
fn permission_denied_is_clipboard_only_without_synthesis() {
    let req = InjectionRequest { text: "private note".to_string(), permission_granted: false };
    let mut guard = SingleFlight::new();
    let mut clipboard = MemClipboard::new();
    let mut driver = ScriptedDriver { primary_ok_at: Some(1), ..ScriptedDriver::failing() };
    let mut focus = other_app_focus();
    let mut waiter = RecordingWaiter { sleeps: Vec::new() };
    let mut notifier = RecordingNotifier { messages: Vec::new() };

    let (outcome, report) = insert_text_impl(
        &req,
        &mut guard,
        &mut clipboard,
        &mut driver,
        &mut focus,
        &mut waiter,
        &mut notifier,
    );

    match outcome {
        Ok(InjectionOutcome::ClipboardOnly(reason)) => assert_eq!(reason, "no permission"),
        other => panic!("expected clipboard-only outcome, got {:?}", other),
    }
    // The clipboard was written, but no driver was touched, and the
    // focus wait and modifier reset were skipped outright.
    assert_eq!(clipboard.get_text().unwrap(), "private note");
    assert_eq!(report.synthesis_calls, 0);
    assert_eq!(report.focus_waits, 0);
    assert_eq!(report.modifier_resets, 0);
    assert_eq!(report.notifications, 0);
    assert_eq!(driver.synthesis_calls(), 0);
    assert!(notifier.messages.is_empty());
    assert!(waiter.sleeps.is_empty());
}

#[test]
fn third_attempt_success_pays_both_backoff_delays() {
    let req = InjectionRequest { text: "retry me".to_string(), permission_granted: true };
    let mut guard = SingleFlight::new();
    let mut clipboard = MemClipboard::new();
    let mut driver = ScriptedDriver { primary_ok_at: Some(3), ..ScriptedDriver::failing() };
    let mut focus = other_app_focus();
    let mut waiter = RecordingWaiter { sleeps: Vec::new() };
    let mut notifier = RecordingNotifier { messages: Vec::new() };

    let (outcome, report) = insert_text_impl(
        &req,
        &mut guard,
        &mut clipboard,
        &mut driver,
        &mut focus,
        &mut waiter,
        &mut notifier,
    );

    assert!(matches!(outcome, Ok(InjectionOutcome::Success(StrategyId::Primary))));
    assert_eq!(report.attempts, 3);
    // Two failed rounds cost exactly 50ms + 100ms of backoff.
    assert_eq!(report.backoff_total_ms, 150);
    // Modifier settle (10), settle delay (50), then the two backoffs.
    assert_eq!(waiter.sleeps, vec![10, 50, 50, 100]);
    assert_eq!(driver.primary_calls, 3);
    assert_eq!(driver.secondary_calls, 2);
    assert_eq!(clipboard.get_text().unwrap(), "retry me");
}

#[test]
fn secondary_strategy_reports_its_id() {
    let req = InjectionRequest { text: "fallback".to_string(), permission_granted: true };
    let mut guard = SingleFlight::new();
    let mut clipboard = MemClipboard::new();
    let mut driver = ScriptedDriver { secondary_ok_at: Some(2), ..ScriptedDriver::failing() };
    let mut focus = other_app_focus();
    let mut waiter = NoWait;
    let mut notifier = SilentNotifier;

    let (outcome, report) = insert_text_impl(
        &req,
        &mut guard,
        &mut clipboard,
        &mut driver,
        &mut focus,
        &mut waiter,
        &mut notifier,
    );

    assert!(matches!(outcome, Ok(InjectionOutcome::Success(StrategyId::Secondary))));
    assert_eq!(report.attempts, 2);
    assert_eq!(driver.primary_calls, 2);
    assert_eq!(driver.secondary_calls, 2);
}

#[test]
fn typing_fallback_reports_tertiary() {
    let req = InjectionRequest { text: "typed".to_string(), permission_granted: true };
    let mut guard = SingleFlight::new();
    let mut clipboard = MemClipboard::new();
    let mut driver = ScriptedDriver { type_ok: true, ..ScriptedDriver::failing() };
    let mut focus = other_app_focus();
    let mut waiter = NoWait;
    let mut notifier = SilentNotifier;

    let (outcome, report) = insert_text_impl(
        &req,
        &mut guard,
        &mut clipboard,
        &mut driver,
        &mut focus,
        &mut waiter,
        &mut notifier,
    );

    assert!(matches!(outcome, Ok(InjectionOutcome::Success(StrategyId::Tertiary))));
    assert_eq!(report.attempts, 3);
    assert_eq!(driver.primary_calls, 3);
    assert_eq!(driver.secondary_calls, 3);
    assert_eq!(driver.type_calls, 1);
}

#[test]
fn exhausted_fallbacks_keep_text_and_notify() {
    let req = InjectionRequest { text: "never lost".to_string(), permission_granted: true };
    let mut guard = SingleFlight::new();
    let mut clipboard = MemClipboard::new();
    let mut driver = ScriptedDriver::failing();
    let mut focus = other_app_focus();
    let mut waiter = RecordingWaiter { sleeps: Vec::new() };
    let mut notifier = RecordingNotifier { messages: Vec::new() };

    let (outcome, report) = insert_text_impl(
        &req,
        &mut guard,
        &mut clipboard,
        &mut driver,
        &mut focus,
        &mut waiter,
        &mut notifier,
    );

    // Non-error outcome even though every strategy failed.
    match outcome {
        Ok(InjectionOutcome::ClipboardOnly(reason)) => assert_eq!(reason, "typing failed"),
        other => panic!("expected clipboard-only outcome, got {:?}", other),
    }
    // The clipboard still holds exactly the requested text.
    assert_eq!(clipboard.get_text().unwrap(), "never lost");
    assert_eq!(report.attempts, 3);
    assert_eq!(report.synthesis_calls, 7);
    assert_eq!(report.notifications, 1);
    assert_eq!(driver.synthesis_calls(), 7);
    assert_eq!(notifier.messages, vec!["Paste failed - text copied to clipboard".to_string()]);
    // Released guard: a new run may start.
    assert!(guard.try_acquire());
}

#[test]
fn unsupported_driver_everything_unavailable() {
    let mut driver = UnsupportedDriver;
    assert!(driver.paste_primary().is_err());
    assert!(driver.paste_secondary().is_err());
    assert!(driver.type_text("x").is_err());
    assert!(driver.release_modifier(55).is_err());
}

#[test]
fn focus_wait_returns_foreign_app() {
    let mut focus = StubFocus {
        answers: vec![
            Ok("Verity".to_string()),
            Err("flaky".to_string()),
            Ok("verity".to_string()),
            Ok("TextEdit".to_string()),
        ],
    };
    let mut waiter = RecordingWaiter { sleeps: Vec::new() };
    let r = wait_for_focus_restoration(&mut focus, &mut waiter, 500);
    assert_eq!(r.unwrap(), "TextEdit");
    // Three polls saw the dictation window or an error and slept 10ms each.
    assert_eq!(waiter.sleeps, vec![10, 10, 10]);
}

#[test]
fn focus_wait_times_out() {
    let mut focus = NoFocusApi;
    let mut waiter = RecordingWaiter { sleeps: Vec::new() };
    let r = wait_for_focus_restoration(&mut focus, &mut waiter, 100);
    assert_eq!(r.unwrap_err(), "Timeout waiting for focus restoration");
    assert_eq!(waiter.sleeps.len(), 10);
}

#[test]
fn modifier_reset_releases_all_eight_keys() {
    let mut driver = ScriptedDriver::failing();
    let mut waiter = NoWait;
    assert!(release_all_modifier_keys(&mut driver, &mut waiter).is_ok());
    assert_eq!(driver.released, vec![55, 54, 56, 60, 58, 61, 59, 62]);
    assert_eq!(modifier_keycodes(), vec![55, 54, 56, 60, 58, 61, 59, 62]);
}

#[test]
fn clipboard_failure_is_fatal_and_releases_guard() {
    let req = InjectionRequest { text: "text".to_string(), permission_granted: true };
    let mut guard = SingleFlight::new();
    let mut clipboard = RefusingClipboard;
    let mut driver = ScriptedDriver { primary_ok_at: Some(1), ..ScriptedDriver::failing() };
    let mut focus = other_app_focus();
    let mut waiter = NoWait;
    let mut notifier = SilentNotifier;

    let (outcome, report) = insert_text_impl(
        &req,
        &mut guard,
        &mut clipboard,
        &mut driver,
        &mut focus,
        &mut waiter,
        &mut notifier,
    );

    match outcome {
        Err(InjectionError::ClipboardFailure(e)) => assert_eq!(e, "no clipboard here"),
        other => panic!("expected clipboard failure, got {:?}", other),
    }
    // The run ended before any preparation or synthesis.
    assert_eq!(report.synthesis_calls, 0);
    assert_eq!(report.focus_waits, 0);
    assert_eq!(report.modifier_resets, 0);
    assert_eq!(report.notifications, 0);
    assert!(guard.try_acquire());
}
