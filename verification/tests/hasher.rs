use snapper_keeper::digest::{hash_content, hex_digest};
use snapper_keeper::hasher::{hash_image_bytes, hash_text, normalize_whitespace};

#[test]
fn hash_text_normalizes_whitespace() {
    let a = hash_text("  hello   world  ");
    let b = hash_text("hello world");
    assert_eq!(a, b);
}

#[test]
fn hash_text_different_content_different_hash() {
    let a = hash_text("hello");
    let b = hash_text("world");
    assert_ne!(a, b);
}

#[test]
fn hash_image_bytes_deterministic() {
    let bytes = b"fake png data";
    let a = hash_image_bytes(bytes);
    let b = hash_image_bytes(bytes);
    assert_eq!(a, b);
}

#[test]
fn normalize_whitespace_collapses_and_trims() {
    assert_eq!(normalize_whitespace("  hello \t\n world  "), "hello world");
    assert_eq!(normalize_whitespace(""), "");
    assert_eq!(normalize_whitespace(" \u{3000} "), "");
    assert_eq!(normalize_whitespace("a\u{00a0}b"), "a b");
}

#[test]
fn sha256_hex_matches_known_vector() {
    assert_eq!(
        hex_digest(b"abc"),
        "ba7816bf8f01cfea414140de5dae2223b00361a396177a9cb410ff61f20015ad"
    );
    assert_eq!(hash_image_bytes(b"abc"), hex_digest(b"abc"));
    assert_eq!(hash_text(" abc "), hex_digest(b"abc"));
}

#[test]
fn hash_content_is_the_big_endian_prefix_of_sha256() {
    assert_eq!(hash_content(b"abc"), 0xba7816bf8f01cfea);
    assert_eq!(hash_content(b"hello world"), hash_content(b"hello world"));
    assert_ne!(hash_content(b"hello"), hash_content(b"world"));
}

#[test]
fn whitespace_is_what_std_calls_whitespace() {
    for code in 0u32..=0x10FFFF {
        if let Some(c) = char::from_u32(code) {
            let collapsed = normalize_whitespace(&format!("a{c}b"));
            if c.is_whitespace() {
                assert_eq!(collapsed, "a b", "U+{code:04X}");
            } else {
                assert_eq!(collapsed, format!("a{c}b"), "U+{code:04X}");
            }
        }
    }
}
