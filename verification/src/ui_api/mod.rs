pub mod commands;
pub mod models;
