use sticky_notes::password::{hash_password, to_hex_lower, LOWER_DIGITS};

#[test]
fn password_hash_is_sha256_in_hex() {
    assert_eq!(
        hash_password("secret1"),
        "5b11618c2e44027877d0cd0921ed166b9f176f50587fc91e7534dd2946db77d6"
    );
    assert_eq!(
        hash_password("abcdef"),
        "bef57ec7f53a6d40beb640a780a639c83bc29ac8a9816f1fc6c5c6dcd93c4721"
    );
}

#[test]
fn password_hash_of_nothing() {
    assert_eq!(
        hash_password(""),
        "e3b0c44298fc1c149afbf4c8996fb92427ae41e4649b934ca495991b7852b855"
    );
}

#[test]
fn password_hash_takes_utf8_bytes() {
    assert_eq!(
        hash_password("pässword"),
        "3478267b5612791b40988906b3a7897eb6ab501e04b95ed32f99d0afdf669d9c"
    );
}

#[test]
fn password_hash_is_not_the_password() {
    let hash = hash_password("secret1");
    assert_ne!(hash, "secret1");
    assert_eq!(hash.len(), 64);
}

#[test]
fn hex_has_two_digits_for_each_byte() {
    assert_eq!(to_hex_lower(&[]), "");
    assert_eq!(to_hex_lower(&[0x00]), "00");
    assert_eq!(to_hex_lower(&[0x0a, 0x14, 0x1e]), "0a141e");
    assert_eq!(to_hex_lower(&[0xff, 0x10, 0x01, 0xab]), "ff1001ab");
}

#[test]
fn hex_of_every_byte() {
    for b in 0..=255u8 {
        assert_eq!(to_hex_lower(&[b]), format!("{:02x}", b));
    }
}

#[test]
fn lower_digits_by_value() {
    assert_eq!(LOWER_DIGITS, "0123456789abcdef");
}
