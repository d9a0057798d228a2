use albert::signature::verify_signature;
use ed25519_dalek::{Signer, SigningKey};

fn keys() -> (SigningKey, String) {
    let sk = SigningKey::from_bytes(&[7u8; 32]);
    let pk = hex::encode(sk.verifying_key().to_bytes());
    (sk, pk)
}

#[test]
fn valid_signature_accepted() {
    let (sk, pk) = keys();
    let sig = hex::encode(sk.sign(b"1700000000{\"type\":1}").to_bytes());
    assert!(verify_signature(&pk, &sig, "1700000000", "{\"type\":1}"));
    assert!(verify_signature(&pk.to_uppercase(), &sig.to_uppercase(), "1700000000", "{\"type\":1}"));
}

#[test]
fn tampered_request_rejected() {
    let (sk, pk) = keys();
    let sig = hex::encode(sk.sign(b"1700000000{\"type\":1}").to_bytes());
    assert!(!verify_signature(&pk, &sig, "1700000001", "{\"type\":1}"));
    assert!(!verify_signature(&pk, &sig, "1700000000", "{\"type\":2}"));
}

#[test]
fn malformed_keys_and_signatures_rejected() {
    let (sk, pk) = keys();
    let sig = hex::encode(sk.sign(b"tb").to_bytes());
    assert!(!verify_signature("zz", &sig, "t", "b"));
    assert!(!verify_signature(&pk[..62], &sig, "t", "b"));
    assert!(!verify_signature(&pk, &sig[..126], "t", "b"));
    assert!(!verify_signature(&pk, "", "t", "b"));
    assert!(!verify_signature(&format!("{}0", pk), &sig, "t", "b"));
    assert!(verify_signature(&pk, &sig, "t", "b"));
}
