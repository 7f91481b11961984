pub mod files;
pub mod secret;
