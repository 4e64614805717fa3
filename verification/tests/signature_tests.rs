use hmac::{Hmac, Mac};
use sha2::Sha256;
use simple_git_cicd::signature::verify_github_signature;

fn signed_header(secret: &str, payload: &[u8]) -> String {
    let mut mac = Hmac::<Sha256>::new_from_slice(secret.as_bytes()).unwrap();
    mac.update(payload);
    let tag = mac.finalize().into_bytes();
    format!("sha256={}", hex::encode(tag))
}

#[test]
fn round_trip_verifies() {
    let secret = "s3cr3t";
    let payload = b"{\"ref\":\"refs/heads/main\"}";
    let header = signed_header(secret, payload);
    assert!(verify_github_signature(secret, payload, &header));
}

#[test]
fn empty_secret_round_trip_verifies() {
    let payload = b"payload";
    let header = signed_header("", payload);
    assert!(verify_github_signature("", payload, &header));
}

#[test]
fn uppercase_hex_verifies() {
    let secret = "k";
    let payload = b"data";
    let mut mac = Hmac::<Sha256>::new_from_slice(secret.as_bytes()).unwrap();
    mac.update(payload);
    let header = format!("sha256={}", hex::encode_upper(mac.finalize().into_bytes()));
    assert!(verify_github_signature(secret, payload, &header));
}

#[test]
fn flipped_bit_fails() {
    let secret = "s3cr3t";
    let payload = b"payload-bytes";
    let header = signed_header(secret, payload);
    // flip one bit in the first hex digit of the tag
    let mut bytes = header.into_bytes();
    let i = "sha256=".len();
    bytes[i] = if bytes[i] == b'0' { b'1' } else { b'0' };
    let tampered = String::from_utf8(bytes).unwrap();
    assert!(!verify_github_signature(secret, payload, &tampered));
}

#[test]
fn changed_payload_fails() {
    let secret = "s3cr3t";
    let header = signed_header(secret, b"payload-a");
    assert!(!verify_github_signature(secret, b"payload-b", &header));
}

#[test]
fn wrong_secret_fails() {
    let header = signed_header("one", b"payload");
    assert!(!verify_github_signature("two", b"payload", &header));
}

#[test]
fn missing_prefix_fails() {
    let secret = "s";
    let payload = b"p";
    let header = signed_header(secret, payload);
    let bare = header.strip_prefix("sha256=").unwrap().to_string();
    assert!(!verify_github_signature(secret, payload, &bare));
}

#[test]
fn wrong_prefix_fails() {
    let secret = "s";
    let payload = b"p";
    let header = signed_header(secret, payload).replace("sha256=", "sha512=");
    assert!(!verify_github_signature(secret, payload, &header));
}

#[test]
fn odd_length_hex_fails() {
    assert!(!verify_github_signature("s", b"p", "sha256=abc"));
}

#[test]
fn non_hex_character_fails() {
    assert!(!verify_github_signature(
        "s",
        b"p",
        "sha256=zz00000000000000000000000000000000000000000000000000000000000000"
    ));
}

#[test]
fn short_header_fails() {
    assert!(!verify_github_signature("s", b"p", "sha"));
    assert!(!verify_github_signature("s", b"p", ""));
}
