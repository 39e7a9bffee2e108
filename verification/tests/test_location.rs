use wallee::context::Context;
use wallee::error::Error;
use wallee::foreign::ForeignError;
use wallee::kind::StdKind;
use wallee::location::Location;
use wallee::msg::Msg;

#[test]
fn test_new() {
    let error = ForeignError::new("oh no!".to_string());
    let (err, file, line) = (
        Error::new(error, Location::new("tests/test_location.rs", 8, 31)),
        "tests/test_location.rs",
        8,
    );
    assert_eq!(err.file(), file);
    assert_eq!(err.line(), line);
}

#[test]
fn test_msg() {
    let (err, file, line) = (
        Error::msg("oh no!", Location::new("tests/test_location.rs", 15, 31)),
        "tests/test_location.rs",
        15,
    );
    assert_eq!(err.file(), file);
    assert_eq!(err.line(), line);
}

#[test]
fn test_location_test_wallee_macro() {
    let (err, file, line) = (
        wallee::format_err(
            Msg::Static("oh no!"),
            Location::new("tests/test_location.rs", 23, 27),
        ),
        "tests/test_location.rs",
        23,
    );
    assert_eq!(err.file(), file);
    assert_eq!(err.line(), line);

    let (err, file, line) = (
        wallee::format_err(
            Msg::Owned(format!("oh no!: {}", 33)),
            Location::new("tests/test_location.rs", 27, 27),
        ),
        "tests/test_location.rs",
        27,
    );
    assert_eq!(err.file(), file);
    assert_eq!(err.line(), line);

    let io_error = ForeignError::new("oh no!".to_string());
    let (err, file) = (
        (&io_error)
            .wallee_kind()
            .make(io_error, Location::new("tests/test_location.rs", 31, 9)),
        "tests/test_location.rs",
    );
    assert_eq!(err.file(), file);
}

#[test]
fn test_bail_macro() {
    let err = || -> Result<(), Error> {
        return Err(wallee::format_err(
            Msg::Static("oh no!"),
            Location::new("tests/test_location.rs", 39, 36),
        ));
    }()
    .unwrap_err();
    assert_eq!(err.file(), "tests/test_location.rs");

    let err = || -> Result<(), Error> {
        return Err(wallee::format_err(
            Msg::Owned(format!("oh no!: {}", 33)),
            Location::new("tests/test_location.rs", 42, 36),
        ));
    }()
    .unwrap_err();
    assert_eq!(err.file(), "tests/test_location.rs");

    let err = || -> Result<(), Error> {
        let io_error = ForeignError::new("oh no!".to_string());
        return Err((&io_error)
            .wallee_kind()
            .make(io_error, Location::new("tests/test_location.rs", 46, 33)));
    }()
    .unwrap_err();
    assert_eq!(err.file(), "tests/test_location.rs");
}

#[test]
fn test_context() {
    let (err, file, line) = (
        Error::msg("oh no!", Location::new("tests/test_location.rs", 54, 32)).context(
            "it failed",
            Location::new("tests/test_location.rs", 54, 32),
        ),
        "tests/test_location.rs",
        54,
    );
    assert_eq!(err.file(), file);
    assert_eq!(err.line(), line);
}

#[test]
fn test_result_context() {
    let result: Result<(), ForeignError> = Err(ForeignError::new("oh no!".to_string()));
    let (err, file, line) = (
        result
            .context("it failed", Location::new("tests/test_location.rs", 61, 39))
            .unwrap_err(),
        "tests/test_location.rs",
        61,
    );
    assert_eq!(err.file(), file);
    assert_eq!(err.line(), line);

    let result: Result<(), ForeignError> = Err(ForeignError::new("oh no!".to_string()));
    let (err, file) = (
        result
            .with_context(|| "it failed", Location::new("tests/test_location.rs", 66, 39))
            .unwrap_err(),
        "tests/test_location.rs",
    );
    assert_eq!(err.file(), file);
}

#[test]
fn test_option_context() {
    let option = None::<()>;
    let (err, file, line) = (
        option
            .context("it's none", Location::new("tests/test_location.rs", 73, 39))
            .unwrap_err(),
        "tests/test_location.rs",
        73,
    );
    assert_eq!(err.file(), file);
    assert_eq!(err.line(), line);

    let option = None::<()>;
    let (err, file) = (
        option
            .with_context(|| "it's none", Location::new("tests/test_location.rs", 78, 39))
            .unwrap_err(),
        "tests/test_location.rs",
    );
    assert_eq!(err.file(), file);
}
