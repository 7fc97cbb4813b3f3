//! The system clipboard adapter, backed by the `arboard` crate.
//!
//! The OS clipboard is external state; `ArboardClipboard` carries a ghost
//! model of its text content alongside the live handle, and the trusted
//! wrappers around `arboard` state how each call moves that model. The
//! plain clipboard-only operation and the last-writer-wins law live here
//! too.

use vstd::prelude::*;

use crate::ports::ClipboardPort;

verus! {

/// The `arboard` clipboard handle, opaque to verification.
#[verifier::external_type_specification]
#[verifier::external_body]
pub struct ExClipboard(arboard::Clipboard);

/// A handle on the system clipboard. `model` mirrors what the OS clipboard
/// holds as text: `Some(t)` once a write of `t` has succeeded, `None` while
/// the content is unknown.
pub struct ArboardClipboard {
    inner: arboard::Clipboard,
    model: Ghost<Option<Seq<char>>>,
}

impl ArboardClipboard {
    /// Open the system clipboard. What it already holds is unknown, so the
    /// model starts out empty of knowledge.
    pub fn new() -> (r: Result<ArboardClipboard, String>)
        ensures
            r matches Ok(c) ==> c.content() is None,
    {
        match arboard_new() {
            Ok(inner) => Ok(ArboardClipboard { inner, model: Ghost(None) }),
            Err(e) => Err(e),
        }
    }

    /// Relies on `arboard::Clipboard::set_text`: on success the clipboard
    /// holds exactly the given text; on failure nothing is known of it.
    #[verifier::external_body]
    fn set_inner(&mut self, text: &str) -> (r: Result<(), String>)
        ensures
            r is Ok ==> final(self).model@ == Some(text@),
    {
        match self.inner.set_text(text) {
            Ok(()) => Ok(()),
            Err(e) => Err(format!("Failed to set clipboard: {}", e)),
        }
    }

    /// Relies on `arboard::Clipboard::get_text`: reading does not change
    /// the clipboard, and a successful read returns the text it holds.
    #[verifier::external_body]
    fn get_inner(&mut self) -> (r: Result<String, String>)
        ensures
            final(self).model == old(self).model,
            old(self).model@ matches Some(c) ==> (r matches Ok(s) ==> s@ == c),
    {
        match self.inner.get_text() {
            Ok(s) => Ok(s),
            Err(e) => Err(format!("Failed to read clipboard: {}", e)),
        }
    }
}

/// Relies on `arboard::Clipboard::new`: opens the system clipboard; on
/// platforms or desktop environments without clipboard support an error is
/// returned.
#[verifier::external_body]
fn arboard_new() -> (r: Result<arboard::Clipboard, String>) {
    match arboard::Clipboard::new() {
        Ok(c) => Ok(c),
        Err(e) => Err(format!("Failed to initialize clipboard: {}", e)),
    }
}

impl ClipboardPort for ArboardClipboard {
    closed spec fn content(&self) -> Option<Seq<char>> {
        self.model@
    }

    fn set_text(&mut self, text: &str) -> (r: Result<(), String>) {
        self.set_inner(text)
    }

    fn get_text(&mut self) -> (r: Result<String, String>) {
        self.get_inner()
    }
}

/// The clipboard-only operation: place `text` on the clipboard with no
/// synthesis attempt. On success the clipboard holds exactly `text`,
/// whatever it held before.
pub fn copy_text<C: ClipboardPort>(clipboard: &mut C, text: &str) -> (r: Result<(), String>)
    ensures
        r is Ok ==> final(clipboard).content() == Some(text@),
{
    clipboard.set_text(text)
}

/// Last writer wins: after one text and then another are written with
/// success, the clipboard holds the second text only — the first is gone
/// unless the two were equal.
pub proof fn lemma_copy_last_writer_wins<C: ClipboardPort>(
    after_first: C,
    after_second: C,
    first: Seq<char>,
    second: Seq<char>,
)
    requires
        after_first.content() == Some(first),
        after_second.content() == Some(second),
    ensures
        after_second.content() == Some(second),
        first != second ==> after_second.content() != Some(first),
{
}

} // verus!
