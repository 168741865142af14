use texcache::key::{hash, key_from_digest, KEY_BYTES, KEY_LEN};

fn is_lower_hex(c: char) -> bool {
    c.is_ascii_digit() || ('a'..='f').contains(&c)
}

#[test]
fn hash_of_empty_text_is_start_of_known_digest() {
    assert_eq!(hash(""), "e3b0c44298fc1c149afbf4c8");
}

#[test]
fn hash_of_abc_is_start_of_known_digest() {
    assert_eq!(hash("abc"), "ba7816bf8f01cfea414140de");
}

#[test]
fn hash_is_deterministic() {
    assert_eq!(hash("x^2 + 1"), hash("x^2 + 1"));
    let a = String::from("\\frac{a}{b}");
    let b = String::from("\\frac{a}{b}");
    assert_eq!(hash(&a), hash(&b));
}

#[test]
fn hash_tells_fixtures_apart() {
    let fixtures = ["", "a", "b", "x^2 + 1", "x^2 + 2", "x^2 + 1 ", "X^2 + 1", "\u{3b1}+\u{3b2}"];
    for (i, a) in fixtures.iter().enumerate() {
        for (j, b) in fixtures.iter().enumerate() {
            if i != j {
                assert_ne!(hash(a), hash(b));
            }
        }
    }
}

#[test]
fn hash_has_twenty_four_lowercase_hex_characters() {
    for text in ["", "x", "x^2 + 1", "\u{e9}\u{4e2d}\u{1f600}", "line one\nline two\n"] {
        let key = hash(text);
        assert_eq!(key.chars().count(), 24);
        assert_eq!(key.len(), KEY_LEN);
        assert!(key.chars().all(is_lower_hex));
    }
}

#[test]
fn hash_reads_the_utf8_bytes() {
    // SHA-256 of the two bytes c3 a9.
    assert_eq!(hash("\u{e9}"), "4a99557e4033c3539de2eb65");
}

#[test]
fn key_from_digest_takes_the_first_twelve_bytes() {
    let digest: Vec<u8> = (0u8..32).collect();
    assert_eq!(key_from_digest(&digest), "000102030405060708090a0b");
    assert_eq!(KEY_BYTES * 2, KEY_LEN);
}

#[test]
fn key_from_digest_writes_high_half_first() {
    assert_eq!(key_from_digest(&[0xaf, 0x09, 0x90, 0xff, 0x00]), "af0990ff00");
}

#[test]
fn key_from_digest_of_nothing_is_empty() {
    assert_eq!(key_from_digest(&[]), "");
}

#[test]
fn key_from_digest_of_exactly_twelve_bytes() {
    let digest = [0xde, 0xad, 0xbe, 0xef, 0x01, 0x23, 0x45, 0x67, 0x89, 0xab, 0xcd, 0xef];
    assert_eq!(key_from_digest(&digest), "deadbeef0123456789abcdef");
}
