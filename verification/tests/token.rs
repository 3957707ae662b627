use session_store::session::Session;
use session_store::token::{generate_secure_alphanumeric_string, alphabet_at, DIGEST_LENGTH, TOKEN_LENGTH};

fn hex(bytes: &[u8]) -> String {
    let mut out = String::new();
    for byte in bytes {
        out.push_str(&format!("{:02x}", byte));
    }
    out
}

#[test]
fn digest_of_abc_is_the_known_sha256_value() {
    let digest = Session::hash_token("abc");
    assert_eq!(
        hex(&digest),
        "ba7816bf8f01cfea414140de5dae2223b00361a396177a9cb410ff61f20015ad"
    );
}

#[test]
fn digest_of_empty_token_is_the_known_sha256_value() {
    let digest = Session::hash_token("");
    assert_eq!(
        hex(&digest),
        "e3b0c44298fc1c149afbf4c8996fb92427ae41e4649b934ca495991b7852b855"
    );
}

#[test]
fn digest_hashes_the_utf8_bytes_of_the_token() {
    // "é" is the two bytes c3 a9 in UTF-8.
    let digest = Session::hash_token("\u{e9}");
    assert_eq!(
        hex(&digest),
        "4a99557e4033c3539de2eb65472017cad5f9557f7a0625a09f1c3f6e2ba69c4c"
    );
}

#[test]
fn digest_is_always_32_bytes() {
    assert_eq!(DIGEST_LENGTH, 32);
    assert_eq!(Session::hash_token("").len(), 32);
    assert_eq!(Session::hash_token("some-other-token").len(), 32);
    let long = "x".repeat(10_000);
    assert_eq!(Session::hash_token(&long).len(), 32);
}

#[test]
fn digest_differs_from_the_token_bytes() {
    let token = "0123456789abcdef0123456789abcdef";
    assert_eq!(token.len(), 32);
    assert_ne!(Session::hash_token(token), token.as_bytes().to_vec());
}

#[test]
fn digesting_twice_gives_the_same_digest() {
    let token = Session::generate_token();
    assert_eq!(Session::hash_token(&token), Session::hash_token(&token));
    let copy = token.clone();
    assert_eq!(Session::hash_token(&token), Session::hash_token(&copy));
}

#[test]
fn ten_thousand_tokens_have_distinct_digests() {
    let mut digests = std::collections::HashSet::new();
    let mut tokens = std::collections::HashSet::new();
    for _ in 0..10_000 {
        let token = Session::generate_token();
        assert!(digests.insert(Session::hash_token(&token)));
        assert!(tokens.insert(token));
    }
    assert_eq!(digests.len(), 10_000);
}

#[test]
fn generated_token_has_32_alphanumeric_characters() {
    assert_eq!(TOKEN_LENGTH, 32);
    for _ in 0..200 {
        let token = Session::generate_token();
        assert_eq!(token.chars().count(), 32);
        assert_eq!(token.len(), 32);
        assert!(token.chars().all(|c| c.is_ascii_alphanumeric()));
    }
}

#[test]
fn generated_string_has_the_requested_length() {
    assert_eq!(generate_secure_alphanumeric_string(0), "");
    for len in [1usize, 2, 31, 32, 33, 100] {
        let s = generate_secure_alphanumeric_string(len);
        assert_eq!(s.chars().count(), len);
        assert!(s.chars().all(|c| c.is_ascii_alphanumeric()));
    }
}

#[test]
fn generated_strings_use_the_whole_alphabet() {
    let s = generate_secure_alphanumeric_string(20_000);
    let seen: std::collections::HashSet<char> = s.chars().collect();
    assert_eq!(seen.len(), 62);
}

#[test]
fn alphabet_is_lower_then_upper_then_digits() {
    assert_eq!(alphabet_at(0), 'a');
    assert_eq!(alphabet_at(25), 'z');
    assert_eq!(alphabet_at(26), 'A');
    assert_eq!(alphabet_at(51), 'Z');
    assert_eq!(alphabet_at(52), '0');
    assert_eq!(alphabet_at(61), '9');
    let all: String = (0..62).map(alphabet_at).collect();
    assert_eq!(
        all,
        "abcdefghijklmnopqrstuvwxyzABCDEFGHIJKLMNOPQRSTUVWXYZ0123456789"
    );
}
