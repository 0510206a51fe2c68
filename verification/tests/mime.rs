use dir_server::mime::{content_type, sniff_mime_type, SNIFF_LEN};

#[test]
fn a_guess_is_taken_as_it_is() {
    assert_eq!(content_type(Some("image/png".to_string()), &vec![0, 1, 2]), "image/png");
    assert_eq!(content_type(Some("text/css".to_string()), &vec![]), "text/css");
}

#[test]
fn without_a_guess_the_bytes_decide() {
    assert_eq!(content_type(None, &b"hello".to_vec()), "text/plain");
    assert_eq!(content_type(None, &vec![b'h', 0, b'i']), "application/octet-stream");
}

#[test]
fn an_empty_file_is_plain_text() {
    assert_eq!(sniff_mime_type(&vec![]), "text/plain");
}

#[test]
fn a_zero_byte_makes_binary_data() {
    assert_eq!(sniff_mime_type(&vec![0]), "application/octet-stream");
    assert_eq!(sniff_mime_type(&vec![1, 2, 3, 0]), "application/octet-stream");
    assert_eq!(sniff_mime_type(&vec![1, 2, 3, 4]), "text/plain");
}

#[test]
fn only_the_first_chunk_is_looked_at() {
    assert_eq!(SNIFF_LEN, 1024);
    let mut bytes = vec![b'a'; SNIFF_LEN + 1];
    bytes[SNIFF_LEN] = 0;
    assert_eq!(sniff_mime_type(&bytes), "text/plain");
    bytes[SNIFF_LEN - 1] = 0;
    assert_eq!(sniff_mime_type(&bytes), "application/octet-stream");
}
