use flowlink::identity::{DeviceIdentity, PrivateKeyRef};
use flowlink::protocol::messages::{ArchType, OsType};
use flowlink::identity::keys::{
    generate_device_keypair, keypair_from_private_key, serialize_private_key, serialize_public_key,
    verifying_key_from_public_key, KeyError, PrivateKeyBytes, ED25519_PRIVATE_KEY_LEN,
    ED25519_PUBLIC_KEY_LEN,
};

#[test]
fn generated_device_keypair_has_stable_serialized_public_key() {
    let keypair = generate_device_keypair();
    let public_key = serialize_public_key(&keypair);

    assert_eq!(public_key.len(), ED25519_PUBLIC_KEY_LEN);
    let verifying = verifying_key_from_public_key(&public_key).expect("valid verifying key");
    assert_eq!(verifying.to_bytes().to_vec(), public_key);
}

#[test]
fn private_key_round_trip_recovers_same_public_key() {
    let keypair = generate_device_keypair();
    let private_key = serialize_private_key(&keypair);
    let public_key = serialize_public_key(&keypair);

    assert_eq!(private_key.expose().len(), ED25519_PRIVATE_KEY_LEN);
    let restored = keypair_from_private_key(private_key.expose()).expect("private key restores");

    assert_eq!(serialize_public_key(&restored), public_key);
}

#[test]
fn private_key_of_wrong_length_is_refused() {
    assert!(matches!(
        PrivateKeyBytes::from_slice(&[1, 2, 3]),
        Err(KeyError::InvalidPrivateKeyLength(3))
    ));
    assert!(matches!(
        keypair_from_private_key(&[0u8; 33]),
        Err(KeyError::InvalidPrivateKeyLength(33))
    ));
}

#[test]
fn public_key_of_wrong_length_is_refused_with_message() {
    match verifying_key_from_public_key(&[1, 2, 3]) {
        Err(KeyError::InvalidPublicKey(message)) => {
            assert_eq!(message, "expected 32 bytes, got 3")
        }
        other => panic!("unexpected: {:?}", other.map(|k| k.to_bytes())),
    }
}

#[test]
fn known_secret_gives_known_public_key() {
    // RFC 8032, test 1.
    let secret: Vec<u8> = (0..32)
        .map(|i| u8::from_str_radix(&"9d61b19deffd5a60ba844af492ec2cc44449c5697b326919703bac031cae7f60"[2 * i..2 * i + 2], 16).unwrap())
        .collect();
    let public: Vec<u8> = (0..32)
        .map(|i| u8::from_str_radix(&"d75a980182b10ab7d54bfed3c964073a0ee172f3daa62325af021a68f707511a"[2 * i..2 * i + 2], 16).unwrap())
        .collect();

    let keypair = keypair_from_private_key(&secret).expect("restore");

    assert_eq!(serialize_public_key(&keypair), public);
    assert_eq!(serialize_private_key(&keypair).to_vec(), secret);
}

#[test]
fn generated_identity_names_platform_and_key() {
    let identity = DeviceIdentity::generate("Desk".to_string(), "macos", "aarch64");
    assert_eq!(identity.schema_version, 1);
    assert_eq!(identity.device_id.len(), 36);
    assert_eq!(identity.device_name, "Desk");
    assert_eq!(identity.os, OsType::Macos);
    assert_eq!(identity.arch, ArchType::Aarch64);
    assert_eq!(identity.app_version, "0.1.0");
    assert_eq!(identity.protocol_version, 1);
    assert_eq!(identity.public_key.len(), ED25519_PUBLIC_KEY_LEN);
    assert!(verifying_key_from_public_key(&identity.public_key).is_ok());
    let PrivateKeyRef::FileEncrypted { path } = &identity.private_key_ref;
    assert_eq!(path, "identity.key");

    let other = DeviceIdentity::generate("Desk".to_string(), "linux", "riscv64");
    assert_eq!(other.os, OsType::Unknown);
    assert_eq!(other.arch, ArchType::Unknown);
    assert_ne!(other.device_id, identity.device_id);
}

#[test]
fn verifying_key_keeps_the_bytes_it_was_read_from() {
    let keypair = generate_device_keypair();
    let public_key = serialize_public_key(&keypair);
    let key = verifying_key_from_public_key(&public_key).expect("valid key");
    assert_eq!(key.to_bytes().to_vec(), public_key);

    let other = generate_device_keypair();
    let other_key = verifying_key_from_public_key(&serialize_public_key(&other)).expect("valid key");
    assert_ne!(other_key.to_bytes(), key.to_bytes());
}
