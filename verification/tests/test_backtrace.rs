use wallee::location::Location;
use wallee::msg::Msg;

#[test]
fn test_backtrace() {
    let error = wallee::format_err(
        Msg::Static("oh no!"),
        Location::new("tests/test_backtrace.rs", 12, 17),
    );
    let _ = error.backtrace();
}
