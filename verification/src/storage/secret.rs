//! Where the device's private key is kept: the errors of a key store, the
//! store's interface, and how a key file is named and referred to.
use vstd::prelude::*;
use crate::identity::PrivateKeyRef;

verus! {

/// The file the private key is kept in when no other name is given.
pub const DEFAULT_PRIVATE_KEY_FILE: &'static str = "identity.key";

#[derive(Debug)]
pub enum SecretStoreError {
    Io(String),
    InvalidPath,
}

impl SecretStoreError {
    /// The text that explains the error.
    pub fn message(&self) -> (text: String)
        ensures
            text@ == match self {
                SecretStoreError::Io(detail) => "io error: "@ + detail@,
                SecretStoreError::InvalidPath => "invalid private key path"@,
            },
    {
        match self {
            SecretStoreError::Io(detail) => {
                let mut text = String::from_str("io error: ");
                text.append(detail.as_str());
                text
            },
            SecretStoreError::InvalidPath => String::from_str("invalid private key path"),
        }
    }
}

/// A place that keeps the private key.
pub trait SecretStore {
    fn load_private_key(&self) -> Result<Vec<u8>, SecretStoreError>;

    fn save_private_key(&self, key: &[u8]) -> Result<PrivateKeyRef, SecretStoreError>;
}

/// How an identity refers to a key kept in the file `key_file_name`.
pub fn private_key_ref(key_file_name: &str) -> (key_ref: PrivateKeyRef)
    ensures
        key_ref matches PrivateKeyRef::FileEncrypted { path } && path@ == key_file_name@,
{
    PrivateKeyRef::FileEncrypted { path: key_file_name.to_string() }
}

/// The name of the file a key is written to before it replaces `file_name`.
pub fn temp_file_name(file_name: &str) -> (name: String)
    ensures
        name@ == file_name@ + ".tmp"@,
{
    let mut name = file_name.to_string();
    name.append(".tmp");
    name
}

} // verus!
