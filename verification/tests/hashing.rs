use thumbnailify::hash::{compute_hash, to_hex};

#[test]
fn hash_of_file_uri_is_md5_in_lower_hex() {
    assert_eq!(compute_hash("hello world"), "5eb63bbbe01eeed093cb22bb8f5acdc3");
    assert_eq!(compute_hash(""), "d41d8cd98f00b204e9800998ecf8427e");
}

#[test]
fn hash_has_32_lower_case_hex_digits() {
    let hash = compute_hash("file:///home/user/Pictures/a%20b.png");
    assert_eq!(hash.len(), 32);
    assert!(hash.chars().all(|c| matches!(c, '0'..='9' | 'a'..='f')));
}

#[test]
fn hash_is_taken_over_utf8_bytes() {
    // U+00E9 is the two bytes c3 a9 in UTF-8.
    assert_eq!(compute_hash("\u{e9}"), "66ddcd97cfdeabb2f6fb8a999b4bc76f");
}

#[test]
fn hex_notation_has_two_digits_per_byte() {
    assert_eq!(to_hex(&[0x00, 0x0f, 0xa0, 0xff]), "000fa0ff");
    assert_eq!(to_hex(&[]), "");
    assert_eq!(to_hex(&[0x12, 0x34, 0x56, 0x78, 0x9a, 0xbc, 0xde, 0xf0]), "123456789abcdef0");
}
