use stdin_or_clipboard::error::{clipboard_failure, io_failure};
use stdin_or_clipboard::Error;

#[test]
fn clipboard_message() {
    let e = Error::Clipboard(String::from("no display"));
    assert_eq!(e.message(), "clipboard: no display");
}

#[test]
fn io_message() {
    let e = Error::Io(String::from("stream did not contain valid UTF-8"));
    assert_eq!(e.message(), "io: stream did not contain valid UTF-8");
}

#[test]
fn empty_detail() {
    assert_eq!(Error::Clipboard(String::new()).message(), "clipboard: ");
    assert_eq!(Error::Io(String::new()).message(), "io: ");
}

#[test]
fn kinds_differ() {
    assert_ne!(Error::Clipboard(String::from("x")), Error::Io(String::from("x")));
}

#[test]
fn failures_are_filed_by_kind() {
    assert_eq!(clipboard_failure(Ok::<u8, String>(1)), Ok(1));
    assert_eq!(io_failure(Ok::<u8, String>(2)), Ok(2));
    assert_eq!(
        clipboard_failure(Err::<u8, String>(String::from("occupied"))),
        Err(Error::Clipboard(String::from("occupied")))
    );
    assert_eq!(
        io_failure(Err::<u8, String>(String::from("broken pipe"))),
        Err(Error::Io(String::from("broken pipe")))
    );
}
