//! The paste keystroke at the key-event level: the exact press/release
//! sequence the primary low-level driver posts, verified against an event
//! log. A platform supplies the port that posts one event; the sequence,
//! its order and its abort-on-failure behavior are the library's.

use vstd::prelude::*;

use crate::ports::{InputSynthesisDriver, Waiter};

verus! {

/// The keys taking part in a synthesized paste chord.
#[derive(Debug, Clone, Copy, PartialEq, Eq, Structural)]
pub enum PasteKey {
    /// The left control (or command) key.
    ControlLeft,
    /// The letter V.
    KeyV,
}

/// Posting one low-level keyboard event. `events()` is the log of events
/// successfully posted, in order; a failed post leaves the log as it was.
pub trait KeyEventPort {
    /// The events posted so far: the key and whether it went down.
    spec fn events(&self) -> Seq<(PasteKey, bool)>;

    /// Post one key press (`down == true`) or release.
    fn post_key(&mut self, key: PasteKey, down: bool) -> (r: Result<(), String>)
        ensures
            r is Ok ==> final(self).events() == old(self).events().push((key, down)),
            r is Err ==> final(self).events() == old(self).events(),
    ;
}

/// A port that only records, posting nothing to the OS. For tests and for
/// inspecting what a platform port would be asked to do.
pub struct RecordingKeyPort {
    log: Vec<(PasteKey, bool)>,
}

impl RecordingKeyPort {
    /// An empty log.
    pub fn new() -> (r: RecordingKeyPort)
        ensures
            r.events() =~= Seq::<(PasteKey, bool)>::empty(),
    {
        RecordingKeyPort { log: Vec::new() }
    }

    /// The recorded events, in order.
    pub fn recorded(&self) -> (r: &Vec<(PasteKey, bool)>)
        ensures
            r@ == self.events(),
    {
        &self.log
    }
}

impl KeyEventPort for RecordingKeyPort {
    closed spec fn events(&self) -> Seq<(PasteKey, bool)> {
        self.log@
    }

    fn post_key(&mut self, key: PasteKey, down: bool) -> (r: Result<(), String>) {
        self.log.push((key, down));
        Ok(())
    }
}

/// The paste chord, in posting order: control down, V down, V up, control
/// up.
pub open spec fn paste_event_sequence() -> Seq<(PasteKey, bool)> {
    seq![
        (PasteKey::ControlLeft, true),
        (PasteKey::KeyV, true),
        (PasteKey::KeyV, false),
        (PasteKey::ControlLeft, false),
    ]
}

/// Post one key event and give the OS a moment to process it.
pub fn send_key_event<K: KeyEventPort, W: Waiter>(
    port: &mut K,
    waiter: &mut W,
    key: PasteKey,
    down: bool,
) -> (r: Result<(), String>)
    ensures
        r is Ok ==> final(port).events() == old(port).events().push((key, down)),
        r is Err ==> final(port).events() == old(port).events(),
{
    let r = port.post_key(key, down);
    if r.is_ok() {
        // Let the OS catch up.
        waiter.sleep_ms(50);
    }
    r
}

/// Post the whole paste chord. On success exactly the four events of
/// [`paste_event_sequence`] were posted, in order; on failure the posting
/// stopped at the first event that failed, so at most a prefix of the
/// chord went out.
pub fn paste_keystroke_sequence<K: KeyEventPort, W: Waiter>(
    port: &mut K,
    waiter: &mut W,
) -> (r: Result<(), String>)
    ensures
        r is Ok ==> final(port).events() == old(port).events() + paste_event_sequence(),
        r is Err ==> exists|n: int|
            0 <= n < 4 && final(port).events() == old(port).events() + paste_event_sequence()
                .take(n),
{
    // Initial delay for stability.
    waiter.sleep_ms(50);
    if let Err(e) = send_key_event(port, waiter, PasteKey::ControlLeft, true) {
        proof {
            assert(port.events() =~= old(port).events() + paste_event_sequence().take(0));
        }
        return Err(e);
    }
    if let Err(e) = send_key_event(port, waiter, PasteKey::KeyV, true) {
        proof {
            assert(port.events() =~= old(port).events() + paste_event_sequence().take(1));
        }
        return Err(e);
    }
    if let Err(e) = send_key_event(port, waiter, PasteKey::KeyV, false) {
        proof {
            assert(port.events() =~= old(port).events() + paste_event_sequence().take(2));
        }
        return Err(e);
    }
    if let Err(e) = send_key_event(port, waiter, PasteKey::ControlLeft, false) {
        proof {
            assert(port.events() =~= old(port).events() + paste_event_sequence().take(3));
        }
        return Err(e);
    }
    proof {
        assert(port.events() =~= old(port).events() + paste_event_sequence());
    }
    Ok(())
}

/// The primary low-level driver assembled from a key-event port: the paste
/// strategy posts the chord; the scripting strategies are not this
/// driver's business, and a modifier release is one key-up event of the
/// port where the keycode names a key it knows.
pub struct KeySequenceDriver<K: KeyEventPort, W: Waiter> {
    /// The platform's key-event port.
    pub port: K,
    /// The waiter pacing the events.
    pub waiter: W,
}

impl<K: KeyEventPort, W: Waiter> InputSynthesisDriver for KeySequenceDriver<K, W> {
    fn paste_primary(&mut self) -> (r: Result<(), String>) {
        paste_keystroke_sequence(&mut self.port, &mut self.waiter)
    }

    fn paste_secondary(&mut self) -> (r: Result<(), String>) {
        Err("no scripting service behind the key-event port".to_owned())
    }

    fn type_text(&mut self, _text: &str) -> (r: Result<(), String>) {
        Err("no character typing behind the key-event port".to_owned())
    }

    fn release_modifier(&mut self, keycode: u16) -> (r: Result<(), String>) {
        // The port knows the paste chord's keys; 59 is the left control.
        if keycode == 59 {
            self.port.post_key(PasteKey::ControlLeft, false)
        } else {
            Ok(())
        }
    }
}

} // verus!
