//! Speaker diarization: embedding settings, model integrity, enrolment ids.
pub mod database;
pub mod embedding;
pub mod pipeline;
pub mod registry;
