use oidc_login::text::{decimal_text, owned, push_decimal, same_text};

#[test]
fn decimal_text_has_no_leading_zeros() {
    assert_eq!(decimal_text(0), "0");
    assert_eq!(decimal_text(7), "7");
    assert_eq!(decimal_text(10), "10");
    assert_eq!(decimal_text(200), "200");
    assert_eq!(decimal_text(403), "403");
    assert_eq!(decimal_text(65_535), "65535");
}

#[test]
fn push_decimal_appends() {
    let mut out = String::from("status ");
    push_decimal(&mut out, 502);
    assert_eq!(out, "status 502");
}

#[test]
fn same_text_compares_characters() {
    assert!(same_text("accepted", "accepted"));
    assert!(same_text("", ""));
    assert!(!same_text("accepted", "Accepted"));
    assert!(!same_text("accepted", "accepted "));
}

#[test]
fn owned_copies() {
    assert_eq!(owned("x_auth_token"), "x_auth_token");
}
