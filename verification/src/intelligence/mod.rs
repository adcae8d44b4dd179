//! Per-speaker memory: response cache settings, preferences, and what a
//! speaker can see of the data kept about them.
pub mod cache;
pub mod user_model;
pub mod voice_memory;
