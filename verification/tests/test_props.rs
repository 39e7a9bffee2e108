use wallee::context::Context;
use wallee::error::Error;
use wallee::fmt::{render_location, u64_to_string};
use wallee::foreign::{BoxedError, ForeignError};
use wallee::location::Location;
use wallee::msg::Msg;

fn here(line: u32) -> Location {
    Location::new("tests/test_props.rs", line, 1)
}

#[test]
fn test_downcast_ref_after_each_construction() {
    let err = Error::msg("static text", here(13));
    assert_eq!("static text", *err.downcast_ref::<&'static str>().unwrap());
    assert!(err.downcast_ref::<String>().is_none());

    let err = Error::msg("owned text".to_string(), here(17));
    assert_eq!("owned text", err.downcast_ref::<String>().unwrap().as_str());
    assert!(err.downcast_ref::<&'static str>().is_none());

    let err = Error::new(ForeignError::new("foreign".to_string()), here(21));
    assert_eq!("foreign", err.downcast_ref::<ForeignError>().unwrap().message);
    assert!(err.downcast_ref::<BoxedError>().is_none());

    let err = Error::from_boxed(BoxedError::from_message("erased".to_string()), here(25));
    assert_eq!(
        "erased",
        err.downcast_ref::<BoxedError>().unwrap().inner.message
    );
    assert!(err.downcast_ref::<ForeignError>().is_none());
}

#[test]
fn test_downcast_mut_changes_payload() {
    let mut err = Error::msg("before".to_string(), here(34));
    assert!(err.downcast_mut::<&'static str>().is_none());
    *err.downcast_mut::<String>().unwrap() = "after".to_string();
    assert_eq!("after", err.display());
}

#[test]
fn test_downcast_value_mismatch_keeps_error() {
    let err = Error::msg("keep me".to_string(), here(42));
    let err = match err.downcast::<ForeignError>() {
        Ok(_) => panic!("downcast to a type that was never stored"),
        Err(original) => original,
    };
    assert_eq!("keep me", err.display());
    assert_eq!(42, err.line());
    assert_eq!("keep me", err.downcast::<String>().unwrap());
}

#[test]
fn test_downcast_through_context_layers() {
    let base = Error::new(ForeignError::new("root".to_string()), here(55));
    let wrapped = base.context("outer", here(56));
    // The outermost layer answers only for its own message type.
    assert!(wrapped.downcast_ref::<ForeignError>().is_none());
    assert_eq!("outer", *wrapped.downcast_ref::<&'static str>().unwrap());
    // Walking the chain reaches the wrapped payload, untouched.
    let mut chain = wrapped.chain();
    let _outer = chain.next().unwrap();
    let inner = chain.next().unwrap();
    assert_eq!("root", inner.downcast_ref::<ForeignError>().unwrap().message);
}

#[test]
fn test_context_keeps_chain_order() {
    let base = Error::msg("root cause", here(54));
    let wrapped = base.context("middle", here(55)).context("top", here(55));
    let mut chain = wrapped.chain();
    assert_eq!("top", chain.next().unwrap().render());
    assert_eq!("middle", chain.next().unwrap().render());
    assert_eq!("root cause", chain.next().unwrap().render());
    assert!(chain.next().is_none());
}

#[test]
fn test_chain_length_counts_layers() {
    let mut err = Error::msg("base", here(65));
    let layers = 3;
    for _ in 0..layers {
        err = err.context("layer", here(68));
    }
    let mut chain = err.chain();
    let mut count = 0;
    while chain.next().is_some() {
        count += 1;
    }
    assert_eq!(count, layers + 1);
}

#[test]
fn test_chain_is_restartable() {
    let err = Error::msg("base", here(80)).context("top", here(80));
    let mut first = err.chain();
    assert_eq!("top", first.next().unwrap().render());
    let mut fresh = err.chain();
    assert_eq!("top", fresh.next().unwrap().render());
}

#[test]
fn test_context_on_success_is_noop() {
    let result: Result<i32, ForeignError> = Ok(7);
    assert_eq!(7, result.context("unused", here(90)).unwrap());

    let option = Some("payload");
    assert_eq!("payload", option.context("unused", here(93)).unwrap());
}

#[test]
fn test_source_by_variant() {
    let adhoc = Error::msg("alone", here(98));
    assert!(adhoc.source().is_none());

    let cause = ForeignError::new("root".to_string());
    let standard = Error::new(
        ForeignError::caused_by("outer".to_string(), cause),
        here(103),
    );
    assert_eq!("root", standard.source().unwrap().render());
}

#[test]
fn test_chain_walks_foreign_causes() {
    let deepest = ForeignError::new("deepest".to_string());
    let middle = ForeignError::caused_by("middle".to_string(), deepest);
    let err = Error::new(middle, here(112)).context("top", here(112));
    let mut chain = err.chain();
    assert_eq!("top", chain.next().unwrap().render());
    assert_eq!("middle", chain.next().unwrap().render());
    assert_eq!("deepest", chain.next().unwrap().render());
    assert!(chain.next().is_none());
}

#[test]
fn test_empty_message_round_trip() {
    let err = Error::msg("", here(122));
    assert_eq!("", err.display());
    assert_eq!("", *err.downcast_ref::<&'static str>().unwrap());
}

#[test]
fn test_decimal_rendering() {
    assert_eq!("0", u64_to_string(0));
    assert_eq!("7", u64_to_string(7));
    assert_eq!("10", u64_to_string(10));
    assert_eq!("90107", u64_to_string(90107));
    assert_eq!("18446744073709551615", u64_to_string(u64::MAX));
}

#[test]
fn test_location_rendering() {
    assert_eq!(
        "src/main.rs(5:8)",
        render_location(&Location::new("src/main.rs", 5, 8))
    );
}

#[test]
fn test_boxed_backtrace_not_recaptured() {
    let carried = ForeignError::new("inner".to_string())
        .with_backtrace("frames the foreign error brought along".to_string());
    let err = Error::new(carried, here(146));
    assert!(err.backtrace().is_none());
}

#[test]
fn test_format_context_wraps() {
    let base = wallee::format_err(Msg::Static("oh no!"), here(153));
    let wrapped = wallee::format_context(base, Msg::Static("it failed"), here(154));
    assert_eq!("it failed", wrapped.display());
    assert_eq!("it failed: oh no!", wrapped.display_alt());
}

#[test]
fn test_must_use_and_ok() {
    let err = wallee::must_use(Error::msg("kept", here(161)));
    assert_eq!("kept", err.display());
    let fine: Result<i32, Error> = wallee::ok(3);
    assert_eq!(3, fine.unwrap());
}
