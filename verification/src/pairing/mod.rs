pub mod code;
pub mod flow;
