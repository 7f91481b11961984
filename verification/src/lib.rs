//! FlowLink core: the wire protocol, pairing codes, peer discovery records,
//! configuration rules and the session/permission models of a cross-device
//! mouse hand-off tool.

pub mod protocol;
pub mod network;
pub mod text;
pub mod pairing;
pub mod discovery;
pub mod storage;
pub mod config;
pub mod identity;
pub mod platform;
pub mod input;
pub mod session;
pub mod app;
pub mod telemetry;
pub mod ui_api;
