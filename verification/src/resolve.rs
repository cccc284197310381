//! From what was observed to what the caller gets.
//!
//! The functions at the top decide on plain values and say exactly what they
//! return; `from_clipboard` and `from_stdin` make the observations of the
//! clipboard and then call them.

use crate::clipboard::ClipboardHandle;
use crate::error::Error;
use crate::text::{is_trimmed, lemma_trimmed_is_trimmed, normalize, trimmed};
use vstd::prelude::*;

verus! {

/// The text and the clipboard that the caller gets on success.
pub type Resolved<H> = (String, Option<H>);

/// Where the text is taken from.
#[derive(Debug, Clone, Copy, PartialEq, Eq)]
pub enum Source {
    /// From the system clipboard.
    Clipboard,
    /// From standard input, read to its end.
    Stdin,
}

/// The one decision: on an interactive terminal nothing is piped in, so the
/// text is the clipboard's; otherwise it is what standard input holds.
pub fn source_for(interactive: bool) -> (source: Source)
    ensures
        source == (if interactive {
            Source::Clipboard
        } else {
            Source::Stdin
        }),
{
    if interactive {
        Source::Clipboard
    } else {
        Source::Stdin
    }
}

/// The result on an interactive terminal, once the clipboard is open: `read`
/// is what reading it gave, `handle` the open clipboard. A text is trimmed and
/// handed out with the handle; a failure is handed on as it is.
pub fn text_with_handle<H>(read: Result<String, Error>, handle: H) -> (r: Result<Resolved<H>, Error>)
    ensures
        match read {
            Ok(raw) => r matches Ok((text, Some(h))) && text@ == trimmed(raw@) && h == handle,
            Err(e) => r == Err::<Resolved<H>, Error>(e),
        },
{
    match read {
        Ok(raw) => Ok((normalize(raw.as_str()), Some(handle))),
        Err(e) => Err(e),
    }
}

/// The result when standard input was read to its end: `raw` is what it held,
/// `acquired` what opening the clipboard gave. The text is trimmed; the
/// clipboard comes along where it could be opened, and its failure is dropped.
pub fn text_with_optional_handle<H>(raw: &str, acquired: Result<H, Error>) -> (r: Resolved<H>)
    ensures
        r.0@ == trimmed(raw@),
        r.1 == match acquired {
            Ok(handle) => Some(handle),
            Err(_) => None::<H>,
        },
{
    let handle = match acquired {
        Ok(handle) => Some(handle),
        Err(_) => None,
    };
    (normalize(raw), handle)
}

/// The text of the clipboard, trimmed, and the clipboard it came from. Any
/// failure of the clipboard ends the call: standard input is not touched.
pub fn from_clipboard() -> (r: Result<Resolved<ClipboardHandle>, Error>)
    ensures
        match r {
            Ok((text, handle)) => is_trimmed(text@) && handle is Some,
            Err(e) => e is Clipboard,
        },
{
    match ClipboardHandle::acquire() {
        Ok(mut handle) => {
            let read = handle.read_text();
            proof {
                if read is Ok {
                    lemma_trimmed_is_trimmed(read->Ok_0@);
                }
            }
            text_with_handle(read, handle)
        },
        Err(e) => Err(e),
    }
}

/// The result for standard input that is no terminal: `read` is what reading
/// it to its end gave. A text is trimmed, and a clipboard is opened to go with
/// it, if one can be; a failure is handed on as it is and leaves the clipboard
/// alone.
pub fn from_stdin(read: Result<String, Error>) -> (r: Result<Resolved<ClipboardHandle>, Error>)
    ensures
        match read {
            Ok(raw) => r matches Ok((text, _)) && text@ == trimmed(raw@),
            Err(e) => r == Err::<Resolved<ClipboardHandle>, Error>(e),
        },
{
    match read {
        Ok(raw) => Ok(text_with_optional_handle(raw.as_str(), ClipboardHandle::acquire())),
        Err(e) => Err(e),
    }
}

} // verus!
