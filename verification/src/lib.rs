//! Text for a command-line tool, taken from the system clipboard when standard
//! input is an interactive terminal and from standard input otherwise.
//!
//! The surrounding whitespace of the text is always removed. What "removed"
//! means is defined once, as a function on sequences of characters, in
//! [`text`]; every function that hands text out states its result over it.

pub mod clipboard;
pub mod error;
pub mod resolve;
pub mod stdin;
pub mod sync;
pub mod text;

pub use clipboard::ClipboardHandle;
pub use error::Error;
