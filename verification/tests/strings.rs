use scoopit_api::oauth::AccessTokenRequest;
use scoopit_api::strutil::{bool_str, dec_i64, dec_u32, dec_u64, form_encode, join, str_eq};

#[test]
fn decimal_rendering_of_unsigned() {
    assert_eq!(dec_u64(0), "0");
    assert_eq!(dec_u64(7), "7");
    assert_eq!(dec_u64(10), "10");
    assert_eq!(dec_u64(123_456_789), "123456789");
    assert_eq!(dec_u64(u64::MAX), "18446744073709551615");
    assert_eq!(dec_u32(4_294_967_295), "4294967295");
}

#[test]
fn decimal_rendering_of_signed() {
    assert_eq!(dec_i64(0), "0");
    assert_eq!(dec_i64(42), "42");
    assert_eq!(dec_i64(-1), "-1");
    assert_eq!(dec_i64(-100), "-100");
    assert_eq!(dec_i64(i64::MAX), "9223372036854775807");
    assert_eq!(dec_i64(i64::MIN), "-9223372036854775808");
}

#[test]
fn form_encoding() {
    assert_eq!(form_encode(""), "");
    assert_eq!(form_encode("Abc019*-._"), "Abc019*-._");
    assert_eq!(form_encode("a b"), "a+b");
    assert_eq!(form_encode("100%"), "100%25");
    assert_eq!(form_encode("a&b=c"), "a%26b%3Dc");
    assert_eq!(form_encode("+"), "%2B");
    assert_eq!(form_encode("~"), "%7E");
    // Non-ASCII text is encoded byte-wise from its UTF-8 form.
    assert_eq!(form_encode("café"), "caf%C3%A9");
    assert_eq!(form_encode("日"), "%E6%97%A5");
}

#[test]
fn joining_strings() {
    let none: Vec<String> = vec![];
    assert_eq!(join(&none, ", "), "");
    assert_eq!(join(&vec!["a".to_string()], ", "), "a");
    assert_eq!(
        join(&vec!["a".to_string(), "b".to_string(), "c".to_string()], ", "),
        "a, b, c"
    );
}

#[test]
fn string_helpers() {
    assert!(str_eq("abc", "abc"));
    assert!(!str_eq("abc", "abd"));
    assert_eq!(bool_str(true), "true");
    assert_eq!(bool_str(false), "false");
}

#[test]
fn client_credentials_form_body() {
    let req = AccessTokenRequest::client_credentials("my id", "s&cret");
    assert_eq!(
        req.form_body(),
        "client_id=my+id&client_secret=s%26cret&grant_type=client_credentials"
    );
}

#[test]
fn refresh_token_form_body() {
    let req = AccessTokenRequest::refresh("id", "secret", "grant/1");
    assert_eq!(
        req.form_body(),
        "client_id=id&client_secret=secret&grant_type=refresh_token&refresh_token=grant%2F1"
    );
}
