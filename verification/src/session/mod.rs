pub mod controller;
pub mod state;
