use lsp_proxy::codec::{u64_to_dec, wrap_lsp_message};

#[test]
fn content_length_wrap_is_correct() {
    let message = "Hello World!";
    let actual = wrap_lsp_message(message);
    let expected = format!("Content-Length: {}", message.len());
    assert!(actual.contains(&expected))
}

#[test]
fn wrap_is_exact() {
    let actual = wrap_lsp_message("Hello World!");
    assert_eq!(actual, "Content-Length: 12\r\n\r\nHello World!");
}

#[test]
fn wrap_empty_payload_still_has_header() {
    let actual = wrap_lsp_message("");
    assert_eq!(actual, "Content-Length: 0\r\n\r\n");
}

#[test]
fn wrap_counts_bytes_not_characters() {
    // 'é' is two bytes in UTF-8, so the header must say 6, not 5.
    let actual = wrap_lsp_message("h\u{e9}llo");
    assert_eq!(actual, "Content-Length: 6\r\n\r\nh\u{e9}llo");
}

#[test]
fn decimal_rendering() {
    assert_eq!(u64_to_dec(0), "0");
    assert_eq!(u64_to_dec(7), "7");
    assert_eq!(u64_to_dec(10), "10");
    assert_eq!(u64_to_dec(10230), "10230");
    assert_eq!(u64_to_dec(u64::MAX), "18446744073709551615");
}
