use event_relay::signer::Signer;

fn test_key() -> [u8; 32] {
    // RFC 8032 section 7.1, test 1 secret key.
    let bytes = hex::decode("9d61b19deffd5a60ba844af492ec2cc44449c5697b326919703bac031cae7f60")
        .unwrap();
    let mut key = [0u8; 32];
    key.copy_from_slice(&bytes);
    key
}

#[test]
fn sign_matches_rfc8032_test_vector() {
    // Empty timestamp and empty body sign the empty message.
    let signer = Signer::new(&test_key());
    let sig = signer.sign(&Vec::new(), &Vec::new());
    assert_eq!(
        sig,
        "e5564300c360ac729086e2cc806e828a84877f1eb8e5d974d873e065224901555fb8821590a33bacc61e39701cf9b46bd25bf5f0595bbe24655141438e7a100b"
    );
}

#[test]
fn sign_is_deterministic() {
    let signer = Signer::new(&test_key());
    let timestamp = b"2024-05-01T12:00:00Z".to_vec();
    let body = b"{\"t\":\"MESSAGE_CREATE\",\"d\":{}}".to_vec();
    let first = signer.sign(&timestamp, &body);
    let second = signer.sign(&timestamp, &body);
    assert_eq!(first, second);
}

#[test]
fn sign_changes_with_one_body_byte() {
    let signer = Signer::new(&test_key());
    let timestamp = b"2024-05-01T12:00:00Z".to_vec();
    let body = b"{\"t\":\"MESSAGE_CREATE\",\"d\":{}}".to_vec();
    let mut altered = body.clone();
    altered[1] ^= 1;
    assert_ne!(signer.sign(&timestamp, &body), signer.sign(&timestamp, &altered));
}

#[test]
fn sign_changes_with_timestamp() {
    let signer = Signer::new(&test_key());
    let body = b"{}".to_vec();
    let t1 = b"2024-05-01T12:00:00Z".to_vec();
    let t2 = b"2024-05-01T12:00:01Z".to_vec();
    assert_ne!(signer.sign(&t1, &body), signer.sign(&t2, &body));
}

#[test]
fn sign_covers_plain_concatenation() {
    // No delimiter stands between timestamp and body, so moving the
    // boundary leaves the signed message unchanged.
    let signer = Signer::new(&test_key());
    assert_eq!(
        signer.sign(&b"ab".to_vec(), &b"c".to_vec()),
        signer.sign(&b"a".to_vec(), &b"bc".to_vec())
    );
}

#[test]
fn signature_is_128_lowercase_hex_chars() {
    let signer = Signer::new(&test_key());
    let sig = signer.sign(&b"t".to_vec(), &b"body".to_vec());
    assert_eq!(sig.len(), 128);
    assert!(sig.chars().all(|c| c.is_ascii_hexdigit() && !c.is_ascii_uppercase()));
}
