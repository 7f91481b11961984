use sha2::{Digest, Sha256};
use flowlink::pairing::{code::generate_pairing_code, flow::PairingFlow};

#[test]
fn pairing_code_is_stable_for_same_inputs() {
    let code_a = generate_pairing_code("a", "b", &[1, 2], &[3, 4], &[5, 6], &[7, 8]);
    let code_b = generate_pairing_code("b", "a", &[3, 4], &[1, 2], &[7, 8], &[5, 6]);
    assert_eq!(code_a, code_b);
    assert_eq!(code_a.len(), 6);
}

#[test]
fn pairing_flow_expires_after_timeout() {
    let flow = PairingFlow::new();
    assert!(flow.is_expired(flow.expires_at_ms + 1));
}

#[test]
fn pairing_flow_is_open_until_its_expiry_instant() {
    let flow = PairingFlow::new();
    assert_eq!(flow.expires_at_ms - flow.requested_at_ms, 120_000);
    assert!(!flow.is_expired(flow.expires_at_ms));
    assert!(!flow.is_expired(flow.requested_at_ms));
    assert_eq!(flow.pairing_id.len(), 36);
}

#[test]
fn pairing_code_matches_known_digest_value() {
    // The code is the first four bytes of the SHA-256 of the labelled,
    // length-prefixed record, modulo one million, with the smaller id first.
    let mut record = Vec::new();
    for (label, value) in [
        (&b"left_device_id"[..], &b"alpha"[..]),
        (b"left_nonce", b"n1"),
        (b"left_public_key", b"k1"),
        (b"right_device_id", b"beta"),
        (b"right_nonce", b"n2"),
        (b"right_public_key", b"k2"),
    ] {
        record.extend_from_slice(&(label.len() as u32).to_be_bytes());
        record.extend_from_slice(label);
        record.extend_from_slice(&(value.len() as u32).to_be_bytes());
        record.extend_from_slice(value);
    }
    let digest = Sha256::digest(&record);
    let value = u32::from_be_bytes([digest[0], digest[1], digest[2], digest[3]]) % 1_000_000;
    let expected = format!("{value:06}");

    assert_eq!(generate_pairing_code("beta", "alpha", b"n2", b"n1", b"k2", b"k1"), expected);
    assert_eq!(generate_pairing_code("alpha", "beta", b"n1", b"n2", b"k1", b"k2"), expected);
}

#[test]
fn pairing_id_is_a_hyphenated_random_uuid() {
    let flow = PairingFlow::new();
    let id: Vec<char> = flow.pairing_id.chars().collect();
    assert_eq!(id.len(), 36);
    for (i, c) in id.iter().enumerate() {
        if i == 8 || i == 13 || i == 18 || i == 23 {
            assert_eq!(*c, '-');
        } else {
            assert!(c.is_ascii_digit() || ('a'..='f').contains(c));
        }
    }
    assert_eq!(id[14], '4');
    assert!(matches!(id[19], '8' | '9' | 'a' | 'b'));
    assert_ne!(PairingFlow::new().pairing_id, flow.pairing_id);
}
