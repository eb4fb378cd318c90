use pyembed_xtask::hex::escape;

#[test]
fn escape_empty_is_empty() {
    assert_eq!(escape(&[]), "");
}

#[test]
fn escape_writes_high_nibble_first_in_lowercase() {
    assert_eq!(escape(&[0x00, 0x0f, 0xa5, 0xff]), "000fa5ff");
    assert_eq!(escape(&[0xbe, 0xef]), "beef");
}

#[test]
fn escape_removes_line_breaks() {
    let escaped = escape(b"version=3.8\nshared=true\n");
    assert!(!escaped.contains('\n'));
    assert_eq!(escaped.len(), 2 * "version=3.8\nshared=true\n".len());
    assert!(escaped.chars().all(|c| c.is_ascii_hexdigit() && !c.is_ascii_uppercase()));
    assert_eq!(&escaped[..4], "7665");
}

#[test]
fn escape_of_concatenation_is_concatenation_of_escapes() {
    let a = b"implementation=CPython\n";
    let b = b"version=3.11\n";
    let mut ab = a.to_vec();
    ab.extend_from_slice(b);
    assert_eq!(escape(&ab), format!("{}{}", escape(a), escape(b)));
}

#[test]
fn escape_distinguishes_different_buffers() {
    assert_ne!(escape(&[0x01, 0x23]), escape(&[0x12, 0x03]));
    assert_ne!(escape(&[0x10]), escape(&[0x01]));
}

#[test]
fn escape_every_byte_value() {
    let all: Vec<u8> = (0..=255u8).collect();
    let escaped = escape(&all);
    for (i, b) in all.iter().enumerate() {
        assert_eq!(&escaped[2 * i..2 * i + 2], format!("{:02x}", b));
    }
}
