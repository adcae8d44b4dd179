//! Voice activity detection: the frame geometry of the Silero model and the
//! segmentation of a stream of speech/silence decisions into utterances.
pub mod silero;
