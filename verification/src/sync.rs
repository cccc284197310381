//! The blocking entry point: every step runs on the calling thread.

use crate::clipboard::ClipboardHandle;
use crate::error::Error;
use crate::resolve::{from_clipboard, from_stdin, source_for, Source};
use crate::stdin::{is_interactive, read_all};
use crate::text::{is_trimmed, lemma_trimmed_is_trimmed};
use vstd::prelude::*;

verus! {

/// Fetches the text from the clipboard where `interactive` holds, and from
/// standard input, read to its end, where it does not. No failure is retried
/// and none makes the call turn to the other source.
pub fn resolve(interactive: bool) -> (r: Result<(String, Option<ClipboardHandle>), Error>)
    ensures
        match r {
            Ok((text, handle)) => is_trimmed(text@) && (interactive ==> handle is Some),
            Err(e) => if interactive {
                e is Clipboard
            } else {
                e is Io
            },
        },
{
    match source_for(interactive) {
        Source::Clipboard => from_clipboard(),
        Source::Stdin => {
            let read = read_all();
            proof {
                if read is Ok {
                    lemma_trimmed_is_trimmed(read->Ok_0@);
                }
            }
            from_stdin(read)
        },
    }
}

/// Fetches the text from the clipboard where standard input is a terminal,
/// and from standard input where it is not. The text comes back without the
/// whitespace at its ends. With it comes the clipboard: always on a terminal,
/// and otherwise if one could be opened.
pub fn get_text_from_stdin_or_clipboard() -> (r: Result<(String, Option<ClipboardHandle>), Error>)
    ensures
        r matches Ok((text, _)) ==> is_trimmed(text@),
{
    resolve(is_interactive())
}

} // verus!
