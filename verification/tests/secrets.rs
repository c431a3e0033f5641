use api_tokens::secret::{
    digests_match, generate_secure_alphanumeric_string, generate_token, hash_token, symbol_at,
    ALPHABET_SIZE, TOKEN_LENGTH,
};
use sha2::{Digest, Sha256};

const ALPHABET: &str = "abcdefghijklmnopqrstuvwxyzABCDEFGHIJKLMNOPQRSTUVWXYZ0123456789";

fn from_hex(text: &str) -> Vec<u8> {
    let digits: Vec<u8> = text.chars().map(|c| c.to_digit(16).unwrap() as u8).collect();
    digits.chunks(2).map(|pair| pair[0] * 16 + pair[1]).collect()
}

#[test]
fn alphabet_is_letters_then_digits() {
    assert_eq!(ALPHABET_SIZE, 62);
    let symbols: String = (0..ALPHABET_SIZE).map(symbol_at).collect();
    assert_eq!(symbols, ALPHABET);
}

#[test]
fn alphabet_edges() {
    assert_eq!(symbol_at(0), 'a');
    assert_eq!(symbol_at(25), 'z');
    assert_eq!(symbol_at(26), 'A');
    assert_eq!(symbol_at(51), 'Z');
    assert_eq!(symbol_at(52), '0');
    assert_eq!(symbol_at(61), '9');
}

#[test]
fn random_string_has_the_length_asked_for() {
    for len in [0usize, 1, 2, 31, 32, 33, 500] {
        let text = generate_secure_alphanumeric_string(len);
        assert_eq!(text.chars().count(), len);
        assert_eq!(text.len(), len);
    }
}

#[test]
fn random_string_stays_in_the_alphabet() {
    let text = generate_secure_alphanumeric_string(4000);
    assert!(text.chars().all(|c| ALPHABET.contains(c)));
}

#[test]
fn random_string_uses_the_whole_alphabet() {
    let text = generate_secure_alphanumeric_string(20000);
    for symbol in ALPHABET.chars() {
        assert!(text.contains(symbol), "{symbol} never drawn");
    }
}

#[test]
fn random_strings_differ() {
    let first = generate_secure_alphanumeric_string(32);
    let second = generate_secure_alphanumeric_string(32);
    assert_ne!(first, second);
}

#[test]
fn token_has_prefix_and_length() {
    assert_eq!(TOKEN_LENGTH, 32);
    let token = generate_token();
    assert!(token.starts_with("pub_"));
    assert_eq!(token.len(), 36);
    assert!(token[4..].chars().all(|c| c.is_ascii_alphanumeric()));
}

#[test]
fn tokens_differ() {
    assert_ne!(generate_token(), generate_token());
}

#[test]
fn digest_of_abc() {
    assert_eq!(
        hash_token("abc"),
        from_hex("ba7816bf8f01cfea414140de5dae2223b00361a396177a9cb410ff61f20015ad")
    );
}

#[test]
fn digest_of_the_empty_text() {
    assert_eq!(
        hash_token(""),
        from_hex("e3b0c44298fc1c149afbf4c8996fb92427ae41e4649b934ca495991b7852b855")
    );
}

#[test]
fn digest_is_sha256_of_the_utf8_bytes() {
    for text in ["pub_AbC123", "pub_0123456789abcdefghijABCDEFGHIJ01", "h\u{e9}llo \u{1f511}"] {
        assert_eq!(hash_token(text), Sha256::digest(text.as_bytes()).to_vec());
    }
}

#[test]
fn digest_is_32_bytes_and_not_the_text() {
    let token = generate_token();
    let digest = hash_token(&token);
    assert_eq!(digest.len(), 32);
    assert_ne!(digest.as_slice(), token.as_bytes());
}

#[test]
fn digest_depends_on_every_character() {
    let token = generate_token();
    let longer = format!("{token}x");
    assert_ne!(hash_token(&token), hash_token(&longer));
}

#[test]
fn equal_digests_match() {
    let digest = hash_token("abc");
    assert!(digests_match(&digest, &digest.clone()));
    assert!(digests_match(&[], &[]));
}

#[test]
fn digests_that_differ_in_one_byte_do_not_match() {
    let digest = hash_token("abc");
    for at in [0usize, 1, 15, 30, 31] {
        let mut other = digest.clone();
        other[at] ^= 0x80;
        assert!(!digests_match(&digest, &other));
        other[at] ^= 0x81;
        assert!(!digests_match(&digest, &other));
    }
}

#[test]
fn digests_of_different_length_do_not_match() {
    let digest = hash_token("abc");
    assert!(!digests_match(&digest, &digest[..31]));
    assert!(!digests_match(&digest[..31], &digest));
    assert!(!digests_match(&[], &[0]));
}
