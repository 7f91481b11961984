//! Who this device is: its id, name, platform and key material.
pub mod keys;

use vstd::prelude::*;
use crate::discovery::{os_label, os_text};
use crate::identity::keys::{generate_device_keypair, serialize_public_key};
use crate::pairing::flow::{is_v4_uuid_text, new_uuid_string};
use crate::storage::files::now_ms;
use crate::protocol::messages::{ArchType, OsType, TimestampMs};

verus! {

#[derive(Debug, Clone)]
pub struct DeviceIdentity {
    pub schema_version: u16,
    pub device_id: String,
    pub device_name: String,
    pub os: OsType,
    pub arch: ArchType,
    pub app_version: String,
    pub protocol_version: u16,
    pub public_key: Vec<u8>,
    pub private_key_ref: PrivateKeyRef,
    pub created_at_ms: TimestampMs,
}

/// Where the private key is kept.
#[derive(Debug, Clone)]
pub enum PrivateKeyRef {
    FileEncrypted { path: String },
}

pub trait OsArchExt {
    /// The text name of the operating system.
    fn os_name(&self) -> &'static str;
}

impl OsArchExt for DeviceIdentity {
    fn os_name(&self) -> (name: &'static str)
        ensures
            name@ == os_text(self.os),
    {
        os_label(self.os)
    }
}

/// The operating system that a target name (as in `std::env::consts::OS`) stands for.
pub fn os_from_target(name: &str) -> (os: OsType)
    ensures
        os == crate::discovery::os_of_text(name@),
{
    crate::discovery::parse_os(name)
}

/// The architecture that a target name (as in `std::env::consts::ARCH`) stands for.
pub fn arch_from_target(name: &str) -> (arch: ArchType)
    ensures
        arch == crate::discovery::arch_of_text(name@),
{
    crate::discovery::parse_arch(name)
}

impl DeviceIdentity {
    /// A new identity for this device: a random id, a fresh key pair's
    /// public key, the platform named by the target names, and the current
    /// application and protocol versions.
    pub fn generate(device_name: String, os_name: &str, arch_name: &str) -> (identity: Self)
        ensures
            identity.schema_version == 1,
            is_v4_uuid_text(identity.device_id@),
            identity.device_name == device_name,
            identity.os == crate::discovery::os_of_text(os_name@),
            identity.arch == crate::discovery::arch_of_text(arch_name@),
            identity.app_version@ == "0.1.0"@,
            identity.protocol_version == crate::protocol::version::PROTOCOL_VERSION,
            identity.public_key@.len() == 32,
            exists|secret: Seq<u8>| secret.len() == 32 && identity.public_key@
                == crate::identity::keys::ed25519_public_key_of(secret),
            crate::identity::keys::ed25519_point_decompresses(identity.public_key@),
            identity.private_key_ref matches PrivateKeyRef::FileEncrypted { path } && path@
                == "identity.key"@,
    {
        let keypair = generate_device_keypair();
        let public_key = serialize_public_key(&keypair);
        assert(public_key@ == crate::identity::keys::ed25519_public_key_of(keypair.signing@));
        DeviceIdentity {
            schema_version: 1,
            device_id: new_uuid_string(),
            device_name,
            os: os_from_target(os_name),
            arch: arch_from_target(arch_name),
            app_version: String::from_str("0.1.0"),
            protocol_version: crate::protocol::version::PROTOCOL_VERSION,
            public_key,
            private_key_ref: PrivateKeyRef::FileEncrypted { path: String::from_str("identity.key") },
            created_at_ms: now_ms(),
        }
    }
}

} // verus!
