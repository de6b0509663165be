pub mod cli;
pub mod client;
pub mod config;
pub mod error;
pub mod laws;
pub mod model;
pub mod text;
