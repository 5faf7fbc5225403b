use larkstack::token::{pkce_challenge, rand_token, random_bytes, token_text};

#[test]
fn token_text_is_unpadded_url_safe_base64() {
    assert_eq!(token_text(b""), "");
    assert_eq!(token_text(b"f"), "Zg");
    assert_eq!(token_text(b"fo"), "Zm8");
    assert_eq!(token_text(b"foo"), "Zm9v");
    assert_eq!(token_text(&[0xfb, 0xff, 0xfe]), "-__-");
    assert_eq!(token_text(&[0, 16, 131, 16, 81, 135]), "ABCDEFGH");
}

#[test]
fn token_texts_tell_bytes_apart() {
    assert_ne!(token_text(&[0]), token_text(&[0, 0]));
    assert_ne!(token_text(&[0, 1]), token_text(&[0, 2]));
}

#[test]
fn rand_token_has_the_length_of_its_bytes() {
    let state = rand_token(24);
    let verifier = rand_token(48);
    assert_eq!(state.len(), 32);
    assert_eq!(verifier.len(), 64);
    for c in state.chars().chain(verifier.chars()) {
        assert!(c.is_ascii_alphanumeric() || c == '-' || c == '_');
    }
    assert_ne!(rand_token(24), rand_token(24));
    assert_eq!(rand_token(0), "");
}

#[test]
fn random_bytes_fills_the_buffer() {
    assert_eq!(random_bytes(64).len(), 64);
    assert!(random_bytes(64).iter().any(|b| *b != 0));
    assert_ne!(random_bytes(64), random_bytes(64));
}

#[test]
fn challenge_is_the_digest_not_the_verifier() {
    // the SHA-256 digest of the empty text
    assert_eq!(
        pkce_challenge(""),
        "47DEQpj8HBSa-_TImW-5JCeuQeRkm5NMpJWZG3hSuFU"
    );
    assert_eq!(pkce_challenge("é").len(), 43);
}
