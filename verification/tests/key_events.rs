use text_delivery::keys::{
    paste_keystroke_sequence, send_key_event, KeySequenceDriver, PasteKey, RecordingKeyPort,
};
use text_delivery::ports::{InputSynthesisDriver, NoWait, Waiter};

struct CountingWaiter {
    total_ms: u64,
}

impl Waiter for CountingWaiter {
    fn sleep_ms(&mut self, ms: u64) {
        self.total_ms += ms;
    }
}

#[test]
fn paste_chord_posts_in_order() {
    let mut port = RecordingKeyPort::new();
    let mut waiter = NoWait;
    assert!(paste_keystroke_sequence(&mut port, &mut waiter).is_ok());
    assert_eq!(
        port.recorded().as_slice(),
        &[
            (PasteKey::ControlLeft, true),
            (PasteKey::KeyV, true),
            (PasteKey::KeyV, false),
            (PasteKey::ControlLeft, false),
        ]
    );
}

#[test]
fn each_key_event_paces_the_os() {
    let mut port = RecordingKeyPort::new();
    let mut waiter = CountingWaiter { total_ms: 0 };
    assert!(send_key_event(&mut port, &mut waiter, PasteKey::KeyV, true).is_ok());
    assert_eq!(waiter.total_ms, 50);
    assert_eq!(port.recorded().as_slice(), &[(PasteKey::KeyV, true)]);
}

#[test]
fn key_sequence_driver_pastes_through_the_port() {
    let mut driver = KeySequenceDriver { port: RecordingKeyPort::new(), waiter: NoWait };
    assert!(driver.paste_primary().is_ok());
    assert_eq!(driver.port.recorded().len(), 4);
    assert!(driver.paste_secondary().is_err());
    assert!(driver.type_text("abc").is_err());
    // Releasing the control modifier posts its key-up; other keycodes are
    // not this port's business.
    assert!(driver.release_modifier(59).is_ok());
    assert_eq!(driver.port.recorded().last(), Some(&(PasteKey::ControlLeft, false)));
    let before = driver.port.recorded().len();
    assert!(driver.release_modifier(55).is_ok());
    assert_eq!(driver.port.recorded().len(), before);
}
