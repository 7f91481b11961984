pub mod buffer;
pub mod framing;
pub mod heartbeat;
pub mod reconnect;
