use wallee::context::Context;
use wallee::error::Error;
use wallee::foreign::ForeignError;
use wallee::location::Location;

fn f() -> Result<(), Error> {
    Err(Error::new(
        ForeignError::new("oh no!".to_string()),
        Location::new("tests/test_fmt.rs", 5, 5),
    ))
}

fn g() -> Result<(), Error> {
    f().context("f failed", Location::new("tests/test_fmt.rs", 9, 9))
}

fn h() -> Result<(), Error> {
    g().context("g failed", Location::new("tests/test_fmt.rs", 13, 9))
}

const EXPECTED_ALTDISPLAY_F: &str = "oh no!";

const EXPECTED_ALTDISPLAY_G: &str = "f failed: oh no!";

const EXPECTED_ALTDISPLAY_H: &str = "g failed: f failed: oh no!";

const EXPECTED_DEBUG_F: &str = "tests/test_fmt.rs(5:5): oh no!";

const EXPECTED_DEBUG_G: &str = "tests/test_fmt.rs(9:9): f failed";

const EXPECTED_DEBUG_H: &str = "tests/test_fmt.rs(13:9): g failed";

const EXPECTED_ALTDEBUG_G: &str = "\
tests/test_fmt.rs(9:9): f failed

Caused by:
    oh no!";

const EXPECTED_ALTDEBUG_H: &str = "\
tests/test_fmt.rs(13:9): g failed

Caused by:
    0: f failed
    1: oh no!";

#[test]
fn test_display() {
    assert_eq!("g failed", h().unwrap_err().display());
}

#[test]
fn test_altdisplay() {
    assert_eq!(EXPECTED_ALTDISPLAY_F, f().unwrap_err().display_alt());
    assert_eq!(EXPECTED_ALTDISPLAY_G, g().unwrap_err().display_alt());
    assert_eq!(EXPECTED_ALTDISPLAY_H, h().unwrap_err().display_alt());
}

#[test]
fn test_debug() {
    assert_eq!(EXPECTED_DEBUG_F, f().unwrap_err().debug());
    assert_eq!(EXPECTED_DEBUG_G, g().unwrap_err().debug());
    assert_eq!(EXPECTED_DEBUG_H, h().unwrap_err().debug());
}

#[test]
fn test_altdebug() {
    // The alternate debug form ends with a backtrace block when the
    // platform captured one; compare the part that does not depend on the
    // environment, as rendered ahead of any backtrace.
    let rendered_f = f().unwrap_err().debug_alt();
    assert_eq!(EXPECTED_DEBUG_F, &rendered_f[..EXPECTED_DEBUG_F.len()]);
    let rendered_g = g().unwrap_err().debug_alt();
    assert_eq!(EXPECTED_ALTDEBUG_G, &rendered_g[..EXPECTED_ALTDEBUG_G.len()]);
    let rendered_h = h().unwrap_err().debug_alt();
    assert_eq!(EXPECTED_ALTDEBUG_H, &rendered_h[..EXPECTED_ALTDEBUG_H.len()]);
}
