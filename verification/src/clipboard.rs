//! The system clipboard, as far as text goes.

use crate::error::{clipboard_failure, Error};
use vstd::prelude::*;

verus! {

/// `arboard::Clipboard`, the connection to the clipboard of the desktop
/// session. It is passed on to the calls below and never looked into.
#[verifier::external_type_specification]
#[verifier::external_body]
pub struct ExClipboard(arboard::Clipboard);

/// `arboard::Clipboard::new` opens a connection to the clipboard of the
/// desktop session; a failure comes back as the text that it has through
/// `Display`. Whether the call succeeds depends on the session, so nothing is
/// claimed of the result.
#[verifier::external_body]
fn open() -> (r: Result<arboard::Clipboard, String>) {
    match arboard::Clipboard::new() {
        Ok(clipboard) => Ok(clipboard),
        Err(e) => Err(e.to_string()),
    }
}

/// `arboard::Clipboard::get_text` asks the session for the clipboard's text; a
/// failure comes back as the text that it has through `Display`. What the
/// clipboard holds is the session's affair, so nothing is claimed of the
/// result.
#[verifier::external_body]
fn get_text(clipboard: &mut arboard::Clipboard) -> (r: Result<String, String>) {
    match clipboard.get_text() {
        Ok(text) => Ok(text),
        Err(e) => Err(e.to_string()),
    }
}

/// `arboard::Clipboard::set_text` puts `text` on the clipboard; a failure
/// comes back as the text that it has through `Display`. Whether the session
/// takes the text cannot be known beforehand, so nothing is claimed of the
/// result.
#[verifier::external_body]
fn set_text(clipboard: &mut arboard::Clipboard, text: String) -> (r: Result<(), String>) {
    match clipboard.set_text(text) {
        Ok(()) => Ok(()),
        Err(e) => Err(e.to_string()),
    }
}

/// `arboard::Clipboard::set_html` puts `html` on the clipboard, with `alt` as
/// the text for readers that take no HTML; a failure comes back as the text
/// that it has through `Display`. Nothing is claimed of the result.
#[verifier::external_body]
fn set_html(clipboard: &mut arboard::Clipboard, html: String, alt: Option<String>) -> (r: Result<
    (),
    String,
>) {
    match clipboard.set_html(html, alt) {
        Ok(()) => Ok(()),
        Err(e) => Err(e.to_string()),
    }
}

/// A connection to the system clipboard. Nothing is cached: every call goes
/// to the desktop session, so two reads may differ.
pub struct ClipboardHandle {
    inner: arboard::Clipboard,
}

impl ClipboardHandle {
    /// Opens a connection to the clipboard.
    pub fn acquire() -> (r: Result<ClipboardHandle, Error>)
        ensures
            r matches Err(e) ==> e is Clipboard,
    {
        match clipboard_failure(open()) {
            Ok(inner) => Ok(ClipboardHandle { inner }),
            Err(e) => Err(e),
        }
    }

    /// The text on the clipboard, as it is. A clipboard without text is an
    /// error, not an empty text.
    pub fn read_text(&mut self) -> (r: Result<String, Error>)
        ensures
            r matches Err(e) ==> e is Clipboard,
    {
        clipboard_failure(get_text(&mut self.inner))
    }

    /// Puts `text` on the clipboard.
    pub fn write_text(&mut self, text: String) -> (r: Result<(), Error>)
        ensures
            r matches Err(e) ==> e is Clipboard,
    {
        clipboard_failure(set_text(&mut self.inner, text))
    }

    /// Puts `html` on the clipboard, and beside it `plain_text_alt` for
    /// readers that take no HTML.
    pub fn write_html(&mut self, html: String, plain_text_alt: Option<String>) -> (r: Result<
        (),
        Error,
    >)
        ensures
            r matches Err(e) ==> e is Clipboard,
    {
        clipboard_failure(set_html(&mut self.inner, html, plain_text_alt))
    }
}

} // verus!
