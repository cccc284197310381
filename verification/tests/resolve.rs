use std::io::{IsTerminal, Read};
use stdin_or_clipboard::resolve::{
    from_clipboard, from_stdin, source_for, text_with_handle, text_with_optional_handle, Source,
};
use stdin_or_clipboard::error::io_failure;
use stdin_or_clipboard::stdin::is_interactive;
use stdin_or_clipboard::sync::resolve;
use stdin_or_clipboard::{ClipboardHandle, Error};

#[derive(Debug, PartialEq, Eq)]
struct Mock(u32);

#[test]
fn terminal_means_clipboard() {
    assert_eq!(source_for(true), Source::Clipboard);
    assert_eq!(source_for(false), Source::Stdin);
}

#[test]
fn piped_hello_world() {
    let r = from_stdin(io_failure(Ok(String::from("hello world\n"))));
    let (text, _handle) = r.expect("a text that was read is handed out");
    assert_eq!(text, "hello world");
}

#[test]
fn piped_hello_world_on_plain_values() {
    let with = text_with_optional_handle("hello world\n", Ok(Mock(7)));
    assert_eq!(with, (String::from("hello world"), Some(Mock(7))));
    let without = text_with_optional_handle::<Mock>(
        "hello world\n",
        Err(Error::Clipboard(String::from("no display"))),
    );
    assert_eq!(without, (String::from("hello world"), None));
}

#[test]
fn piped_nothing() {
    let r = from_stdin(Ok(String::new()));
    let (text, _handle) = r.expect("an empty input is no failure");
    assert_eq!(text, "");
    let plain = text_with_optional_handle("", Ok(Mock(1)));
    assert_eq!(plain, (String::new(), Some(Mock(1))));
}

#[test]
fn clipboard_failure_is_dropped_when_piped() {
    let r = text_with_optional_handle::<Mock>(
        "  piped  ",
        Err(Error::Clipboard(String::from("held by another party"))),
    );
    assert_eq!(r.0, "piped");
    assert_eq!(r.1, None);
}

#[test]
fn terminal_with_clip_data() {
    let r = text_with_handle(Ok(String::from("clip data")), Mock(3));
    assert_eq!(r, Ok((String::from("clip data"), Some(Mock(3)))));
}

#[test]
fn terminal_clipboard_text_is_trimmed() {
    let r = text_with_handle(Ok(String::from("\n clip data \t")), Mock(4));
    assert_eq!(r, Ok((String::from("clip data"), Some(Mock(4)))));
}

#[test]
fn terminal_with_unreadable_clipboard() {
    let r = text_with_handle(Err(Error::Clipboard(String::from("empty"))), Mock(5));
    assert_eq!(r, Err(Error::Clipboard(String::from("empty"))));
}

#[test]
fn terminal_never_gives_an_io_error() {
    match from_clipboard() {
        Ok((text, handle)) => {
            assert_eq!(text, text.trim());
            assert!(handle.is_some());
        }
        Err(e) => assert!(matches!(e, Error::Clipboard(_))),
    }
    match resolve(true) {
        Ok((text, handle)) => {
            assert_eq!(text, text.trim());
            assert!(handle.is_some());
        }
        Err(e) => assert!(matches!(e, Error::Clipboard(_))),
    }
}

#[test]
fn piped_invalid_utf8() {
    let bytes: [u8; 4] = [0x68, 0x69, 0xff, 0xfe];
    let mut buf = String::new();
    let read = match (&bytes[..]).read_to_string(&mut buf) {
        Ok(_) => Ok(buf),
        Err(e) => Err(e.to_string()),
    };
    assert!(read.is_err());
    let detail = read.clone().unwrap_err();
    match from_stdin(io_failure(read)) {
        Err(e) => assert_eq!(e, Error::Io(detail)),
        Ok(_) => panic!("bytes that are no UTF-8 were taken for text"),
    }
}

#[test]
fn piped_read_failure() {
    match from_stdin(Err(Error::Io(String::from("broken pipe")))) {
        Err(e) => assert_eq!(e, Error::Io(String::from("broken pipe"))),
        Ok(_) => panic!("a failed read gave a text"),
    }
}

#[test]
fn acquire_fails_only_as_clipboard() {
    match ClipboardHandle::acquire() {
        Ok(_) => {}
        Err(e) => assert!(matches!(e, Error::Clipboard(_))),
    }
}

#[test]
fn interactive_is_what_the_terminal_says() {
    assert_eq!(is_interactive(), std::io::stdin().is_terminal());
}
