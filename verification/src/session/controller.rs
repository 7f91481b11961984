use vstd::prelude::*;
use crate::session::state::{is_idle_session, ControlOwner, SessionSnapshot, SessionState};
use crate::storage::files::now_ms;

verus! {

/// Drops the link at once and gives the pointer back to this device; the
/// session id and the last heartbeat round trip are kept for diagnostics.
pub fn emergency_disconnect(snapshot: &mut SessionSnapshot)
    ensures
        is_idle_session(&*final(snapshot)),
        final(snapshot).session_id == old(snapshot).session_id,
        final(snapshot).last_heartbeat_rtt_ms == old(snapshot).last_heartbeat_rtt_ms,
{
    snapshot.state = SessionState::Disconnected;
    snapshot.control_owner = ControlOwner::Local;
    snapshot.peer_id = None;
    snapshot.peer_name = None;
    snapshot.connected_since_ms = None;
    snapshot.updated_at_ms = now_ms();
}

} // verus!
