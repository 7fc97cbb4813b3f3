//! Capability ports the orchestrator is written against.
//!
//! Each port stands for one external mechanism: the system clipboard, the
//! platform input-synthesis drivers, the focus introspection API, delays,
//! and the user-facing notification channel. Platform builds supply the
//! variants they have; this module also provides the variants that need no
//! platform at all (an in-memory clipboard, the always-unavailable driver,
//! the no-op waiter and notifier), each of them verified.

use vstd::prelude::*;

verus! {

/// Read/write access to a clipboard. `content()` is the model of what the
/// clipboard holds: `Some(text)` once a write of `text` succeeded, `None`
/// while the content is unknown or empty.
pub trait ClipboardPort {
    /// The modelled clipboard content.
    spec fn content(&self) -> Option<Seq<char>>;

    /// Write `text` to the clipboard. On success the clipboard holds
    /// exactly `text`.
    fn set_text(&mut self, text: &str) -> (r: Result<(), String>)
        ensures
            r is Ok ==> final(self).content() == Some(text@),
    ;

    /// Read the clipboard. Reading never changes the content, and whatever
    /// the model knows is on the clipboard is what comes back.
    fn get_text(&mut self) -> (r: Result<String, String>)
        ensures
            final(self).content() == old(self).content(),
            old(self).content() matches Some(c) ==> (r matches Ok(s) ==> s@ == c),
    ;
}

/// A clipboard that lives in this process. Used by tests and by headless
/// builds where no system clipboard exists.
pub struct MemClipboard {
    text: Option<String>,
}

impl MemClipboard {
    /// An empty in-memory clipboard.
    pub fn new() -> (c: MemClipboard)
        ensures
            c.content() is None,
    {
        MemClipboard { text: None }
    }
}

impl ClipboardPort for MemClipboard {
    closed spec fn content(&self) -> Option<Seq<char>> {
        match self.text {
            Some(t) => Some(t@),
            None => None,
        }
    }

    fn set_text(&mut self, text: &str) -> (r: Result<(), String>) {
        self.text = Some(text.to_owned());
        Ok(())
    }

    fn get_text(&mut self) -> (r: Result<String, String>) {
        match &self.text {
            Some(t) => Ok(t.clone()),
            None => Err("clipboard is empty".to_owned()),
        }
    }
}

/// A clipboard that refuses every operation, as a desktop environment
/// without clipboard support would. Exercises the fatal
/// clipboard-failure path.
pub struct RefusingClipboard;

impl ClipboardPort for RefusingClipboard {
    closed spec fn content(&self) -> Option<Seq<char>> {
        None
    }

    fn set_text(&mut self, _text: &str) -> (r: Result<(), String>) {
        Err("no clipboard here".to_owned())
    }

    fn get_text(&mut self) -> (r: Result<String, String>) {
        Err("no clipboard here".to_owned())
    }
}

/// An input-synthesis mechanism set: the primary low-level paste, the
/// scripting-service paste, the character-typing fallback, and the posting
/// of a single modifier key-up event. A strategy a platform lacks returns
/// `Err` at once. Nothing is promised of the calls: whether a synthesized
/// keystroke reaches the focused application is the OS's business, and the
/// orchestrator treats every outcome as possible.
pub trait InputSynthesisDriver {
    /// Direct low-level paste keystroke.
    fn paste_primary(&mut self) -> (r: Result<(), String>);

    /// Paste keystroke through the OS scripting service.
    fn paste_secondary(&mut self) -> (r: Result<(), String>);

    /// Type the literal text character by character.
    fn type_text(&mut self, text: &str) -> (r: Result<(), String>);

    /// Post a key-up event for the modifier key with the given virtual
    /// keycode, releasing it if it was held.
    fn release_modifier(&mut self, keycode: u16) -> (r: Result<(), String>);
}

/// The driver for platforms with no input-synthesis mechanism at all: every
/// strategy reports itself unavailable.
pub struct UnsupportedDriver;

impl InputSynthesisDriver for UnsupportedDriver {
    fn paste_primary(&mut self) -> (r: Result<(), String>) {
        Err("primary synthesis unavailable on this platform".to_owned())
    }

    fn paste_secondary(&mut self) -> (r: Result<(), String>) {
        Err("scripting-service synthesis unavailable on this platform".to_owned())
    }

    fn type_text(&mut self, _text: &str) -> (r: Result<(), String>) {
        Err("character typing unavailable on this platform".to_owned())
    }

    fn release_modifier(&mut self, _keycode: u16) -> (r: Result<(), String>) {
        Err("modifier release unavailable on this platform".to_owned())
    }
}

/// Focus introspection: which application owns input focus right now. On
/// platforms without such an API the port returns `Err` and the focus wait
/// is effectively skipped.
pub trait FocusTracker {
    /// The name of the frontmost application.
    fn frontmost_app(&mut self) -> (r: Result<String, String>);
}

/// The focus tracker for platforms without a focus-introspection API.
pub struct NoFocusApi;

impl FocusTracker for NoFocusApi {
    fn frontmost_app(&mut self) -> (r: Result<String, String>) {
        Err("no focus-introspection API on this platform".to_owned())
    }
}

/// Sleeping is external work; the embedding program supplies a waiter that
/// really sleeps, tests supply one that records or counts.
pub trait Waiter {
    /// Pause the calling thread for about `ms` milliseconds.
    fn sleep_ms(&mut self, ms: u64);
}

/// A waiter that does not wait. For tests and for callers that want the
/// retry policy without the delays.
pub struct NoWait;

impl Waiter for NoWait {
    fn sleep_ms(&mut self, _ms: u64) {
    }
}

/// The channel for the user-facing "paste failed, text is on the clipboard"
/// notification, emitted when every strategy is exhausted.
pub trait Notifier {
    /// Deliver the paste-error notification. Best-effort.
    fn notify_paste_error(&mut self, message: &str);
}

/// A notifier that swallows the notification.
pub struct SilentNotifier;

impl Notifier for SilentNotifier {
    fn notify_paste_error(&mut self, _message: &str) {
    }
}

} // verus!
