use wallee::foreign::ForeignError;
use wallee::kind::{DebugKind, ErrorKind, StdKind};
use wallee::location::Location;
use wallee::msg::Msg;

fn here(line: u32) -> Location {
    Location::new("tests/test_source.rs", line, 1)
}

#[test]
fn test_literal_source() {
    let error = wallee::format_err(Msg::Static("oh no!"), here(28));
    assert!(error.source().is_none());
}

#[test]
fn test_variable_source() {
    let msg = "oh no!";
    let error = (&msg).wallee_kind().make(msg, here(35));
    assert!(error.source().is_none());

    let msg = msg.to_owned();
    let error = (&msg).wallee_kind().make(msg, here(39));
    assert!(error.source().is_none());
}

#[test]
fn test_fmt_source() {
    let error = wallee::format_err(Msg::Owned(format!("{} {}!", "oh", "no")), here(45));
    assert!(error.source().is_none());
}

#[test]
fn test_io_source() {
    let io = ForeignError::new("oh no!".to_string());
    let test_error = ForeignError::caused_by("oh no!".to_string(), io);
    let error = (&test_error).wallee_kind().make(test_error, here(52));
    assert_eq!("oh no!", error.source().unwrap().render());
}

#[test]
fn test_wallee_from_wallee() {
    let error = wallee::format_err(Msg::Static("oh no!"), here(58)).context("context", here(58));
    let error = error.wallee_kind().make(error);
    assert_eq!("oh no!", error.source().unwrap().render());
}
