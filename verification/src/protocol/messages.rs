use vstd::prelude::*;

verus! {

/// Milliseconds since the Unix epoch.
pub type TimestampMs = u64;

#[derive(Debug, Clone, Copy, PartialEq, Eq, Structural)]
pub enum OsType {
    Macos,
    Windows,
    Unknown,
}

#[derive(Debug, Clone, Copy, PartialEq, Eq, Structural)]
pub enum ArchType {
    X86_64,
    Aarch64,
    Unknown,
}

#[derive(Debug, Clone, Copy, PartialEq, Eq, Structural)]
pub enum LayoutDirection {
    Left,
    Right,
    Top,
    Bottom,
}

#[derive(Debug, Clone, Copy, PartialEq, Eq, Structural)]
pub enum MouseButton {
    Left,
    Right,
    Middle,
    Back,
    Forward,
    Other(u8),
}

#[derive(Debug, Clone, Copy, PartialEq, Eq, Structural)]
pub enum DiscoverySource {
    Mdns,
    UdpBroadcast,
    ManualIp,
}

/// Kinds of messages carried in a frame header's `message_type` field.
#[derive(Debug, Clone, Copy, PartialEq, Eq, Structural)]
pub enum MessageType {
    Hello,
    HelloAck,
    PairingRequest,
    PairingResponse,
    PairingConfirm,
    PairingReject,
    SessionStart,
    SessionState,
    ControlEnter,
    ControlLeave,
    MouseMove,
    MouseButton,
    MouseWheel,
    HeartbeatPing,
    HeartbeatPong,
    Error,
    Goodbye,
}

/// The wire code of each message type.
pub open spec fn message_type_code(t: MessageType) -> u16 {
    match t {
        MessageType::Hello => 1,
        MessageType::HelloAck => 2,
        MessageType::PairingRequest => 10,
        MessageType::PairingResponse => 11,
        MessageType::PairingConfirm => 12,
        MessageType::PairingReject => 13,
        MessageType::SessionStart => 20,
        MessageType::SessionState => 21,
        MessageType::ControlEnter => 30,
        MessageType::ControlLeave => 31,
        MessageType::MouseMove => 40,
        MessageType::MouseButton => 41,
        MessageType::MouseWheel => 42,
        MessageType::HeartbeatPing => 50,
        MessageType::HeartbeatPong => 51,
        MessageType::Error => 90,
        MessageType::Goodbye => 99,
    }
}

impl MessageType {
    /// The number that identifies this message type on the wire.
    pub fn code(&self) -> (c: u16)
        ensures
            c == message_type_code(*self),
    {
        match self {
            MessageType::Hello => 1,
            MessageType::HelloAck => 2,
            MessageType::PairingRequest => 10,
            MessageType::PairingResponse => 11,
            MessageType::PairingConfirm => 12,
            MessageType::PairingReject => 13,
            MessageType::SessionStart => 20,
            MessageType::SessionState => 21,
            MessageType::ControlEnter => 30,
            MessageType::ControlLeave => 31,
            MessageType::MouseMove => 40,
            MessageType::MouseButton => 41,
            MessageType::MouseWheel => 42,
            MessageType::HeartbeatPing => 50,
            MessageType::HeartbeatPong => 51,
            MessageType::Error => 90,
            MessageType::Goodbye => 99,
        }
    }

    /// The message type that a wire code stands for, if any.
    pub fn from_code(code: u16) -> (t: Option<MessageType>)
        ensures
            t matches Some(m) ==> message_type_code(m) == code,
            t is None ==> forall|m: MessageType| message_type_code(m) != code,
    {
        let t = match code {
            1 => Some(MessageType::Hello),
            2 => Some(MessageType::HelloAck),
            10 => Some(MessageType::PairingRequest),
            11 => Some(MessageType::PairingResponse),
            12 => Some(MessageType::PairingConfirm),
            13 => Some(MessageType::PairingReject),
            20 => Some(MessageType::SessionStart),
            21 => Some(MessageType::SessionState),
            30 => Some(MessageType::ControlEnter),
            31 => Some(MessageType::ControlLeave),
            40 => Some(MessageType::MouseMove),
            41 => Some(MessageType::MouseButton),
            42 => Some(MessageType::MouseWheel),
            50 => Some(MessageType::HeartbeatPing),
            51 => Some(MessageType::HeartbeatPong),
            90 => Some(MessageType::Error),
            99 => Some(MessageType::Goodbye),
            _ => None,
        };
        proof {
            if t is None {
                assert forall|m: MessageType| message_type_code(m) != code by {
                    match m {
                        _ => {},
                    }
                }
            }
        }
        t
    }
}

} // verus!
