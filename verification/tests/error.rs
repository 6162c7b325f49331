use tokio_system_resolver::error::{gai_message, IoError};
use tokio_system_resolver::ResolveError;

#[test]
fn display_formats_cancelled_errors() {
    assert_eq!(ResolveError::Cancelled.message(None), "resolver cancelled");
}

#[test]
fn display_formats_timed_out_errors() {
    assert_eq!(ResolveError::TimedOut.message(None), "resolver timed out");
}

#[test]
fn display_formats_length_errors() {
    assert_eq!(ResolveError::LengthInvariantViolated.message(None), "Length invariant violated");
}

#[test]
fn display_formats_getaddrinfo_errors() {
    let rendered = ResolveError::Gai(libc::EAI_NONAME).message(Some(b"Name or service not known"));
    assert!(rendered.starts_with("getaddrinfo: "));
    assert!(rendered.len() > "getaddrinfo: ".len());
    assert_eq!(rendered, "getaddrinfo: Name or service not known");
}

#[test]
fn display_formats_getnameinfo_errors() {
    let rendered = ResolveError::Gni(libc::EAI_NONAME).message(Some(b"Name or service not known"));
    assert!(rendered.starts_with("getnameinfo: "));
    assert!(rendered.len() > "getnameinfo: ".len());
    assert_eq!(rendered, "getnameinfo: Name or service not known");
}

#[test]
fn display_formats_io_errors() {
    let rendered =
        ResolveError::Io(IoError::InvalidInput { message: "bad input".to_string() }).message(None);
    assert_eq!(rendered, "bad input");
}

#[test]
fn display_formats_other_io_errors() {
    let os = IoError::Os { code: 11, message: "Resource temporarily unavailable".to_string() };
    assert_eq!(ResolveError::Io(os).message(None), "Resource temporarily unavailable");
    let other = IoError::Other { message: "no stack".to_string() };
    assert_eq!(ResolveError::Io(other).message(Some(b"unused")), "no stack");
}

#[test]
fn unknown_codes_are_shown_in_decimal() {
    assert_eq!(gai_message(-2, None), "error code -2");
    assert_eq!(gai_message(0, None), "error code 0");
    assert_eq!(gai_message(1234567890, None), "error code 1234567890");
    assert_eq!(gai_message(i32::MIN, None), "error code -2147483648");
    assert_eq!(gai_message(i32::MAX, None), "error code 2147483647");
}

#[test]
fn system_texts_that_are_not_utf8_are_replaced() {
    assert_eq!(gai_message(-2, Some(b"a\xffb")), "a\u{fffd}b");
    assert_eq!(gai_message(-2, Some(b"")), "");
}

#[test]
fn only_system_call_failures_have_a_code() {
    assert_eq!(ResolveError::Gai(-2).gai_code(), Some(-2));
    assert_eq!(ResolveError::Gni(-6).gai_code(), Some(-6));
    assert_eq!(ResolveError::Cancelled.gai_code(), None);
    assert_eq!(ResolveError::TimedOut.gai_code(), None);
}

#[test]
fn io_errors_become_resolve_errors() {
    let err = ResolveError::from(IoError::Other { message: "broken".to_string() });
    assert!(matches!(err, ResolveError::Io(IoError::Other { .. })));
}
