use wallee::foreign::{BoxedError, ForeignError};
use wallee::kind::{BoxedKind, ErrorKind, StdKind};
use wallee::location::Location;
use wallee::msg::Msg;

fn here(line: u32) -> Location {
    Location::new("tests/test_boxed.rs", line, 1)
}

// Stands in for a foreign error type displaying "outer" whose own source
// is an I/O failure displaying "oh no!".
fn my_error() -> ForeignError {
    ForeignError::caused_by(
        "outer".to_string(),
        ForeignError::new("oh no!".to_string()),
    )
}

#[test]
fn test_boxed_str() {
    let error = BoxedError::from_message("oh no!".to_string());
    let error = (&error).wallee_kind().make(error, here(18));
    assert_eq!("oh no!", error.display());
    assert_eq!(
        "oh no!",
        error
            .downcast_ref::<BoxedError>()
            .unwrap()
            .inner
            .message
            .as_str()
    );
}

#[test]
fn test_boxed_thiserror() {
    let error = my_error();
    let error = (&error).wallee_kind().make(error, here(32));
    assert_eq!("oh no!", error.source().unwrap().render());
}

#[test]
fn test_boxed_wallee() {
    let error =
        wallee::format_err(Msg::Static("oh no!"), here(41)).context("it failed", here(41));
    let error = error.wallee_kind().make(error);
    assert_eq!("oh no!", error.source().unwrap().render());
}
