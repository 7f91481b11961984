use flowlink::identity::PrivateKeyRef;
use flowlink::storage::secret::{
    private_key_ref, temp_file_name, SecretStoreError, DEFAULT_PRIVATE_KEY_FILE,
};

#[test]
fn secret_store_error_messages() {
    assert_eq!(
        SecretStoreError::Io("disk full".to_string()).message(),
        "io error: disk full"
    );
    assert_eq!(SecretStoreError::InvalidPath.message(), "invalid private key path");
}

#[test]
fn key_reference_names_the_key_file() {
    let PrivateKeyRef::FileEncrypted { path } = private_key_ref(DEFAULT_PRIVATE_KEY_FILE);
    assert_eq!(path, "identity.key");
    let PrivateKeyRef::FileEncrypted { path } = private_key_ref("custom.key");
    assert_eq!(path, "custom.key");
}

#[test]
fn key_is_staged_under_a_tmp_name() {
    assert_eq!(temp_file_name("identity.key"), "identity.key.tmp");
    assert_eq!(temp_file_name(""), ".tmp");
}
