pub mod frame;
pub mod messages;
pub mod version;
