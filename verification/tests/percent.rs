use dir_server::percent::{hex_digit, percent_decode, unescape};

#[test]
fn plain_segment_decodes_to_itself() {
    assert_eq!(percent_decode("index.html"), Some("index.html".to_string()));
    assert_eq!(percent_decode(""), Some(String::new()));
    assert_eq!(percent_decode("caf\u{e9}"), Some("caf\u{e9}".to_string()));
}

#[test]
fn escapes_decode_to_their_bytes() {
    assert_eq!(percent_decode("a%20b"), Some("a b".to_string()));
    assert_eq!(percent_decode("%41%62"), Some("Ab".to_string()));
    assert_eq!(percent_decode("%2F"), Some("/".to_string()));
    assert_eq!(percent_decode("%2f"), Some("/".to_string()));
    assert_eq!(percent_decode("100%25"), Some("100%".to_string()));
}

#[test]
fn escaped_utf8_is_put_together() {
    assert_eq!(percent_decode("caf%C3%A9"), Some("caf\u{e9}".to_string()));
    assert_eq!(percent_decode("%e2%82%ac"), Some("\u{20ac}".to_string()));
}

#[test]
fn malformed_escape_fails() {
    assert_eq!(percent_decode("%zz"), None);
    assert_eq!(percent_decode("a%"), None);
    assert_eq!(percent_decode("a%4"), None);
    assert_eq!(percent_decode("%4g"), None);
    assert_eq!(percent_decode("%%41"), None);
}

#[test]
fn bytes_that_are_not_utf8_fail() {
    assert_eq!(percent_decode("%ff"), None);
    assert_eq!(percent_decode("%C3"), None);
    assert_eq!(percent_decode("%C3%28"), None);
    assert_eq!(percent_decode("%ed%a0%80"), None);
}

#[test]
fn unescape_keeps_other_bytes() {
    assert_eq!(unescape(b"a%00b"), Some(vec![b'a', 0, b'b']));
    assert_eq!(unescape(b"%ff%FE"), Some(vec![0xff, 0xfe]));
    assert_eq!(unescape(b"%f"), None);
    assert_eq!(unescape(b""), Some(vec![]));
}

#[test]
fn hex_digits_have_their_values() {
    assert_eq!(hex_digit(b'0'), Some(0));
    assert_eq!(hex_digit(b'9'), Some(9));
    assert_eq!(hex_digit(b'a'), Some(10));
    assert_eq!(hex_digit(b'f'), Some(15));
    assert_eq!(hex_digit(b'A'), Some(10));
    assert_eq!(hex_digit(b'F'), Some(15));
    assert_eq!(hex_digit(b'g'), None);
    assert_eq!(hex_digit(b'G'), None);
    assert_eq!(hex_digit(b'/'), None);
    assert_eq!(hex_digit(b':'), None);
    assert_eq!(hex_digit(b'@'), None);
    assert_eq!(hex_digit(b'`'), None);
}
