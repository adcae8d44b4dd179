//! Audio sample buffering.
pub mod buffer;
