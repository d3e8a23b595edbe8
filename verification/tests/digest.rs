use backend::digest::{hex_lower_text, sha256_digest_bytes};
use sha2::{Digest, Sha256};

#[test]
fn digest_of_the_empty_payload() {
    assert_eq!(
        sha256_digest_bytes(&Vec::new()),
        "e3b0c44298fc1c149afbf4c8996fb92427ae41e4649b934ca495991b7852b855"
    );
}

#[test]
fn digest_of_a_short_payload() {
    assert_eq!(
        sha256_digest_bytes(&b"hello world".to_vec()),
        "b94d27b9934d3e08a52e52d7da7dabfac484efe37a5380ee9088f7ace2efcde9"
    );
}

#[test]
fn digest_is_the_same_on_every_call() {
    let payload = b"the same bytes".to_vec();
    assert_eq!(sha256_digest_bytes(&payload), sha256_digest_bytes(&payload));
    assert_eq!(sha256_digest_bytes(&payload), sha256_digest_bytes(&payload.clone()));
}

#[test]
fn digests_of_distinct_payloads_differ() {
    let first = sha256_digest_bytes(&b"payload one".to_vec());
    let second = sha256_digest_bytes(&b"payload two".to_vec());
    let third = sha256_digest_bytes(&b"payload one ".to_vec());
    assert_ne!(first, second);
    assert_ne!(first, third);
    assert_ne!(second, third);
}

#[test]
fn digest_is_sixty_four_hex_digits() {
    let digest = sha256_digest_bytes(&vec![0u8, 1, 2, 3, 254, 255]);
    assert_eq!(digest.len(), 64);
    assert!(digest.chars().all(|c| c.is_ascii_digit() || ('a'..='f').contains(&c)));
}

#[test]
fn digest_agrees_with_the_hasher_s_own_hexadecimal() {
    for payload in [&b""[..], &b"a"[..], &b"photo bytes"[..], &[0u8, 255, 16, 15][..]] {
        let expected = format!("{:x}", Sha256::digest(payload));
        assert_eq!(sha256_digest_bytes(&payload.to_vec()), expected);
    }
}

#[test]
fn hex_lower_writes_two_digits_for_each_byte() {
    assert_eq!(hex_lower_text(&vec![]), "");
    assert_eq!(hex_lower_text(&vec![0x0a, 0x14, 0x1e]), "0a141e");
    assert_eq!(hex_lower_text(&vec![0x00, 0x0f, 0xf0, 0xff]), "000ff0ff");
    assert_eq!(hex_lower_text(&vec![0x12, 0x34, 0x56, 0x78, 0x9a, 0xbc, 0xde]), "123456789abcde");
}
