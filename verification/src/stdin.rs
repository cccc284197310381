//! Standard input: whether a person types into it, and all that it holds.

use crate::error::{io_failure, Error};
use vstd::prelude::*;

verus! {

/// `std::io::Stdin`, the handle to the standard input of this process. It is
/// passed on to the calls below and never looked into.
#[verifier::external_type_specification]
#[verifier::external_body]
pub struct ExStdin(std::io::Stdin);

/// `std::io::stdin` gives a handle to the standard input of this process.
/// Nothing is claimed of the handle.
pub assume_specification[ std::io::stdin ]() -> (input: std::io::Stdin)
;

/// `std::io::IsTerminal::is_terminal` tells whether `input` is attached to a
/// terminal. The answer depends on how the process was started, so nothing is
/// claimed of it.
#[verifier::external_body]
fn is_terminal(input: &std::io::Stdin) -> (interactive: bool) {
    std::io::IsTerminal::is_terminal(input)
}

/// `std::io::Read::read_to_string` reads `input` to the end of the stream and
/// appends what it read, as text, to `buf`, which comes back. A failure comes
/// back as the text that it has through `Display`. What is read depends on
/// the stream, so nothing is claimed of the result.
#[verifier::external_body]
fn read_to_string(input: &mut std::io::Stdin, buf: String) -> (r: Result<String, String>) {
    let mut text = buf;
    match std::io::Read::read_to_string(input, &mut text) {
        Ok(_) => Ok(text),
        Err(e) => Err(e.to_string()),
    }
}

/// Tells whether standard input is attached to an interactive terminal.
/// Where the platform cannot tell, the answer is no.
pub fn is_interactive() -> (interactive: bool) {
    let input = std::io::stdin();
    is_terminal(&input)
}

/// Reads standard input to the end of the stream, as UTF-8 text. The call
/// blocks until the stream ends. A read that fails, or bytes that are no
/// UTF-8, give an `Io` error; there is no partial result.
pub fn read_all() -> (r: Result<String, Error>)
    ensures
        r matches Err(e) ==> e is Io,
{
    let mut input = std::io::stdin();
    io_failure(read_to_string(&mut input, String::new()))
}

} // verus!
