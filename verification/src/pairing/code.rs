//! The six-digit code that both devices show while pairing. Both sides hash
//! the same ordered record of device ids, nonces and public keys, so the code
//! does not depend on which side computes it.
use vstd::prelude::*;
use sha2::{Digest, Sha256};
use vstd::string::StringSliceAdditionalSpecFns;
use crate::protocol::frame::{be32, read_be32};
use crate::text::{bytes_le, bytes_le_exec, digit_char, is_ascii_digit, six_digit_chars, six_digit_string, lemma_bytes_le_antisymmetric, lemma_bytes_le_total};

verus! {

/// The SHA-256 digest of a byte string.
pub uninterp spec fn sha256_digest(data: Seq<u8>) -> Seq<u8>;

/// `Sha256::digest` from the `sha2` crate: the SHA-256 digest of `data`,
/// which is 32 bytes long. That it is SHA-256 is not stated beyond the name.
#[verifier::external_body]
fn sha256(data: &[u8]) -> (digest: Vec<u8>)
    ensures
        digest@ == sha256_digest(data@),
        digest@.len() == 32,
{
    Sha256::digest(data).to_vec()
}

/// One labelled field of the hashed record: the label's length, the label,
/// the value's length, the value. Lengths are 32-bit big-endian.
pub open spec fn field_bytes(label: Seq<u8>, value: Seq<u8>) -> Seq<u8> {
    be32(label.len() as u32) + label + be32(value.len() as u32) + value
}

/// The hashed record with the devices in the given order.
pub open spec fn ordered_record(
    left_id: Seq<u8>,
    left_nonce: Seq<u8>,
    left_key: Seq<u8>,
    right_id: Seq<u8>,
    right_nonce: Seq<u8>,
    right_key: Seq<u8>,
) -> Seq<u8> {
    field_bytes("left_device_id".spec_bytes(), left_id) + field_bytes("left_nonce".spec_bytes(), left_nonce)
        + field_bytes("left_public_key".spec_bytes(), left_key) + field_bytes(
        "right_device_id".spec_bytes(),
        right_id,
    ) + field_bytes("right_nonce".spec_bytes(), right_nonce) + field_bytes(
        "right_public_key".spec_bytes(),
        right_key,
    )
}

/// The hashed record: the device whose id sorts first (byte-wise) goes left.
pub open spec fn pairing_record(
    id_a: Seq<u8>,
    id_b: Seq<u8>,
    nonce_a: Seq<u8>,
    nonce_b: Seq<u8>,
    key_a: Seq<u8>,
    key_b: Seq<u8>,
) -> Seq<u8> {
    if bytes_le(id_a, id_b) {
        ordered_record(id_a, nonce_a, key_a, id_b, nonce_b, key_b)
    } else {
        ordered_record(id_b, nonce_b, key_b, id_a, nonce_a, key_a)
    }
}

/// The pairing code: the first four digest bytes as a big-endian number,
/// modulo one million, written as six zero-padded digits.
pub open spec fn pairing_code_chars(
    id_a: Seq<u8>,
    id_b: Seq<u8>,
    nonce_a: Seq<u8>,
    nonce_b: Seq<u8>,
    key_a: Seq<u8>,
    key_b: Seq<u8>,
) -> Seq<char> {
    six_digit_chars(
        (read_be32(sha256_digest(pairing_record(id_a, id_b, nonce_a, nonce_b, key_a, key_b)))
            % 1_000_000) as nat,
    )
}

fn push_be32(record: &mut Vec<u8>, n: u32)
    ensures
        final(record)@ == old(record)@ + be32(n),
{
    record.push((n / 0x100_0000) as u8);
    record.push(((n / 0x1_0000) % 256) as u8);
    record.push(((n / 256) % 256) as u8);
    record.push((n % 256) as u8);
    assert(final(record)@ =~= old(record)@ + be32(n));
}

/// Appends one labelled field to the record that will be hashed.
fn hash_field(record: &mut Vec<u8>, label: &[u8], value: &[u8])
    ensures
        final(record)@ == old(record)@ + field_bytes(label@, value@),
{
    push_be32(record, label.len() as u32);
    record.extend_from_slice(label);
    push_be32(record, value.len() as u32);
    record.extend_from_slice(value);
    assert(final(record)@ =~= old(record)@ + field_bytes(label@, value@));
}

/// The six-digit code that two devices compare while pairing.
pub fn generate_pairing_code(
    device_id_a: &str,
    device_id_b: &str,
    nonce_a: &[u8],
    nonce_b: &[u8],
    public_key_a: &[u8],
    public_key_b: &[u8],
) -> (code: String)
    ensures
        code@ == pairing_code_chars(
            device_id_a.spec_bytes(),
            device_id_b.spec_bytes(),
            nonce_a@,
            nonce_b@,
            public_key_a@,
            public_key_b@,
        ),
        code@.len() == 6,
        forall|i: int| 0 <= i < 6 ==> is_ascii_digit(#[trigger] code@[i]),
{
    let id_a = device_id_a.as_bytes();
    let id_b = device_id_b.as_bytes();
    let a_first = bytes_le_exec(id_a, id_b);
    let (left_id, left_nonce, left_key, right_id, right_nonce, right_key) = if a_first {
        (id_a, nonce_a, public_key_a, id_b, nonce_b, public_key_b)
    } else {
        (id_b, nonce_b, public_key_b, id_a, nonce_a, public_key_a)
    };

    let mut record: Vec<u8> = Vec::new();
    hash_field(&mut record, "left_device_id".as_bytes(), left_id);
    hash_field(&mut record, "left_nonce".as_bytes(), left_nonce);
    hash_field(&mut record, "left_public_key".as_bytes(), left_key);
    hash_field(&mut record, "right_device_id".as_bytes(), right_id);
    hash_field(&mut record, "right_nonce".as_bytes(), right_nonce);
    hash_field(&mut record, "right_public_key".as_bytes(), right_key);
    assert(record@ =~= pairing_record(
        id_a@,
        id_b@,
        nonce_a@,
        nonce_b@,
        public_key_a@,
        public_key_b@,
    ));

    let digest = sha256(record.as_slice());
    let value = (digest[0] as u32) * 0x100_0000 + (digest[1] as u32) * 0x1_0000 + (digest[2] as u32)
        * 256 + (digest[3] as u32);
    let digits = value % 1_000_000;
    proof {
        lemma_six_digits_are_digits(digits as nat);
    }
    six_digit_string(digits)
}

/// Every character of a zero-padded six-digit spelling is an ASCII digit.
pub proof fn lemma_six_digits_are_digits(n: nat)
    ensures
        six_digit_chars(n).len() == 6,
        forall|i: int| 0 <= i < 6 ==> is_ascii_digit(#[trigger] six_digit_chars(n)[i]),
{
    assert forall|d: int| 0 <= d < 10 implies is_ascii_digit(#[trigger] digit_char(d)) by {
        assert(48 <= 48 + d <= 57);
    }
    assert forall|i: int| 0 <= i < 6 implies is_ascii_digit(#[trigger] six_digit_chars(n)[i]) by {
        let d = if i == 0 {
            (n / 100000) % 10
        } else if i == 1 {
            (n / 10000) % 10
        } else if i == 2 {
            (n / 1000) % 10
        } else if i == 3 {
            (n / 100) % 10
        } else if i == 4 {
            (n / 10) % 10
        } else {
            n % 10
        };
        assert(six_digit_chars(n)[i] == digit_char(d as int));
        assert(is_ascii_digit(digit_char(d as int)));
    }
}

/// Swapping the two devices, each with its nonce and key, gives the same
/// code, as long as the two device ids differ.
pub proof fn lemma_pairing_code_symmetric(
    id_a: Seq<u8>,
    id_b: Seq<u8>,
    nonce_a: Seq<u8>,
    nonce_b: Seq<u8>,
    key_a: Seq<u8>,
    key_b: Seq<u8>,
)
    requires
        id_a != id_b,
    ensures
        pairing_code_chars(id_a, id_b, nonce_a, nonce_b, key_a, key_b) == pairing_code_chars(
            id_b,
            id_a,
            nonce_b,
            nonce_a,
            key_b,
            key_a,
        ),
{
    lemma_bytes_le_total(id_a, id_b);
    if bytes_le(id_a, id_b) && bytes_le(id_b, id_a) {
        lemma_bytes_le_antisymmetric(id_a, id_b);
    }
    assert(pairing_record(id_a, id_b, nonce_a, nonce_b, key_a, key_b) == pairing_record(
        id_b,
        id_a,
        nonce_b,
        nonce_a,
        key_b,
        key_a,
    ));
}

} // verus!
