use browsercookie::errors::{BrowsercookieError, ErrorKind};

#[test]
fn error_kind_follows_variant() {
    let e = BrowsercookieError::InvalidRecovery(String::from("bad"));
    assert_eq!(e.kind(), ErrorKind::InvalidRecovery);
    assert_eq!(e.message(), "bad");
    assert_eq!(e.description(), "Error in fetching browsercookies");
}
