use pingo_share::digest::{content_hash, to_hex};

#[test]
fn content_hash_of_known_input() {
    assert_eq!(
        content_hash(b"abc"),
        "ba7816bf8f01cfea414140de5dae2223b00361a396177a9cb410ff61f20015ad"
    );
}

#[test]
fn content_hash_of_empty_input() {
    assert_eq!(
        content_hash(b""),
        "e3b0c44298fc1c149afbf4c8996fb92427ae41e4649b934ca495991b7852b855"
    );
}

#[test]
fn content_hash_has_64_lowercase_hex_digits() {
    let h = content_hash(b"some image bytes");
    assert_eq!(h.len(), 64);
    assert!(h.chars().all(|c| c.is_ascii_digit() || ('a'..='f').contains(&c)));
}

#[test]
fn content_hash_is_the_same_for_the_same_bytes() {
    let a = content_hash(&[1u8, 2, 3, 4]);
    let b = content_hash(&[1u8, 2, 3, 4]);
    assert_eq!(a, b);
    assert_ne!(a, content_hash(&[1u8, 2, 3, 5]));
}

#[test]
fn to_hex_writes_two_digits_per_byte() {
    assert_eq!(to_hex(&[1, 2, 3, 15, 16]), "0102030f10");
    assert_eq!(to_hex(&[0x00, 0xff, 0xa5]), "00ffa5");
    assert_eq!(to_hex(&[]), "");
    assert_eq!(to_hex(b"Hello world!"), "48656c6c6f20776f726c6421");
}
