//! Logic behind the command-line commands.
pub mod config;
pub mod models;
