use render_service::ident::{file_id, to_hex};

#[test]
fn hex_is_lower_case_and_two_digits_a_byte() {
    assert_eq!(to_hex(&[]), "");
    assert_eq!(to_hex(&[10, 20, 30]), "0a141e");
    assert_eq!(to_hex(&[0x00, 0x0f, 0xf0, 0xff]), "000ff0ff");
    assert_eq!(to_hex(&[0x01, 0x23, 0x45, 0x67, 0x89, 0xab, 0xcd, 0xef]), "0123456789abcdef");
}

#[test]
fn hex_tells_all_bytes_apart() {
    let mut seen: Vec<String> = Vec::new();
    for byte in 0..=255u8 {
        let text = to_hex(&[byte]);
        assert_eq!(text, format!("{:02x}", byte));
        assert!(!seen.contains(&text));
        seen.push(text);
    }
}

#[test]
fn file_id_is_the_sha256_digest_in_hex() {
    assert_eq!(
        file_id(b"hello world"),
        "b94d27b9934d3e08a52e52d7da7dabfac484efe37a5380ee9088f7ace2efcde9"
    );
    assert_eq!(
        file_id(b""),
        "e3b0c44298fc1c149afbf4c8996fb92427ae41e4649b934ca495991b7852b855"
    );
    assert_eq!(
        file_id(b"abc"),
        "ba7816bf8f01cfea414140de5dae2223b00361a396177a9cb410ff61f20015ad"
    );
}

#[test]
fn file_id_is_plain_text() {
    let id = file_id(&[7u8; 1000]);
    assert_eq!(id.len(), 64);
    assert!(id.chars().all(|c| c.is_ascii_digit() || ('a'..='f').contains(&c)));
}
