use vstd::prelude::*;

verus! {

/// Version of the binary framing protocol spoken between two FlowLink peers.
pub const PROTOCOL_VERSION: u16 = 1;

} // verus!
