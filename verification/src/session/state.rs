//! The state of the link with the peer, as shown to the user.
use vstd::prelude::*;
use crate::protocol::messages::TimestampMs;
use crate::storage::files::now_ms;

verus! {

#[derive(Debug, Clone, Copy, PartialEq, Eq, Structural)]
pub enum SessionState {
    Disconnected,
    Discovered,
    Pairing,
    Paired,
    Connecting,
    ConnectedIdle,
    ControllingRemote,
    ControlledByRemote,
    Reconnecting,
    Error,
}

/// Which side's pointer is being driven.
#[derive(Debug, Clone, Copy, PartialEq, Eq, Structural)]
pub enum ControlOwner {
    Local,
    Remote,
    /// Neither side (named `None` in the user interface's text).
    NoOwner,
}

/// The session as the user interface shows it. (Pointer positions, which
/// are floating point, are kept beside it by the application.)
#[derive(Debug, Clone)]
pub struct SessionSnapshot {
    pub session_id: Option<String>,
    pub peer_id: Option<String>,
    pub peer_name: Option<String>,
    pub state: SessionState,
    pub control_owner: ControlOwner,
    pub last_heartbeat_rtt_ms: Option<u32>,
    pub connected_since_ms: Option<TimestampMs>,
    pub updated_at_ms: TimestampMs,
}

/// No peer, disconnected, the local pointer in charge.
pub open spec fn is_idle_session(s: &SessionSnapshot) -> bool {
    &&& s.peer_id is None
    &&& s.peer_name is None
    &&& s.state == SessionState::Disconnected
    &&& s.control_owner == ControlOwner::Local
    &&& s.connected_since_ms is None
}

impl Default for SessionSnapshot {
    fn default() -> (s: Self)
        ensures
            is_idle_session(&s),
            s.session_id is None,
            s.last_heartbeat_rtt_ms is None,
    {
        SessionSnapshot {
            session_id: None,
            peer_id: None,
            peer_name: None,
            state: SessionState::Disconnected,
            control_owner: ControlOwner::Local,
            last_heartbeat_rtt_ms: None,
            connected_since_ms: None,
            updated_at_ms: now_ms(),
        }
    }
}

} // verus!
