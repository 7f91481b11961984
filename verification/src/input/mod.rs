//! Pointer input: the kinds of permission it needs, its errors, and the
//! small pieces of platform logic that do not touch the operating system.
pub mod macos;
pub mod noop;
pub mod types;
pub mod windows;
