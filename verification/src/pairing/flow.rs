//! A pairing attempt and its two-minute window.
use vstd::prelude::*;
use uuid::Uuid;
use crate::storage::files::now_ms;

verus! {

/// How long a pairing attempt stays open, in milliseconds.
pub const PAIRING_WINDOW_MS: u64 = 120_000;

#[derive(Debug)]
pub struct PairingFlow {
    pub pairing_id: String,
    pub requested_at_ms: u64,
    pub expires_at_ms: u64,
}

/// A lowercase hexadecimal digit.
pub open spec fn is_lower_hex(c: char) -> bool {
    ('0' <= c && c <= '9') || ('a' <= c && c <= 'f')
}

/// The hyphenated lowercase text of a random (version 4, RFC 4122 variant)
/// UUID: 36 characters, hyphens at 8, 13, 18 and 23, hex digits elsewhere,
/// `4` at 14 and one of `8`, `9`, `a`, `b` at 19.
pub open spec fn is_v4_uuid_text(s: Seq<char>) -> bool {
    &&& s.len() == 36
    &&& forall|i: int| 0 <= i < 36 ==> (#[trigger] s[i] == '-' <==> (i == 8 || i == 13 || i == 18 || i == 23))
    &&& forall|i: int| 0 <= i < 36 && i != 8 && i != 13 && i != 18 && i != 23 ==> is_lower_hex(#[trigger] s[i])
    &&& s[14] == '4'
    &&& (s[19] == '8' || s[19] == '9' || s[19] == 'a' || s[19] == 'b')
}

/// `Uuid::new_v4` written out with `to_string`: a random UUID with the
/// version and variant bits set, in hyphenated lowercase form. Which UUID
/// comes out is chance.
#[verifier::external_body]
pub(crate) fn new_uuid_string() -> (id: String)
    ensures
        is_v4_uuid_text(id@),
{
    Uuid::new_v4().to_string()
}

impl PairingFlow {
    /// A pairing attempt requested now, with a fresh random id, expiring two
    /// minutes later.
    pub fn new() -> (flow: Self)
        ensures
            is_v4_uuid_text(flow@),
            flow.requested_at_ms + PAIRING_WINDOW_MS <= u64::MAX ==> flow.expires_at_ms
                == flow.requested_at_ms + PAIRING_WINDOW_MS,
            flow.requested_at_ms + PAIRING_WINDOW_MS > u64::MAX ==> flow.expires_at_ms == u64::MAX,
    {
        let requested_at_ms = now_ms();
        PairingFlow {
            pairing_id: new_uuid_string(),
            requested_at_ms,
            expires_at_ms: requested_at_ms.saturating_add(PAIRING_WINDOW_MS),
        }
    }

    /// Whether the window has closed at `now_ms` (the expiry instant itself
    /// still counts as open).
    pub fn is_expired(&self, now_ms: u64) -> (expired: bool)
        ensures
            expired == (now_ms > self.expires_at_ms),
    {
        now_ms > self.expires_at_ms
    }
}

impl View for PairingFlow {
    type V = Seq<char>;

    /// The pairing id.
    open spec fn view(&self) -> Seq<char> {
        self.pairing_id@
    }
}

impl Default for PairingFlow {
    fn default() -> (flow: Self)
        ensures
            is_v4_uuid_text(flow@),
            flow.requested_at_ms + PAIRING_WINDOW_MS <= u64::MAX ==> flow.expires_at_ms
                == flow.requested_at_ms + PAIRING_WINDOW_MS,
    {
        Self::new()
    }
}

} // verus!
