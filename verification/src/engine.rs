//! Configuration of the voice pipeline and the decisions it takes for each
//! stretch of captured audio: how many VAD frames it holds, when a streaming
//! recognition session is opened and finished, when an utterance falls back
//! to one-piece transcription, and which transcripts reach the caller.
use vstd::prelude::*;
use crate::types::SttResult;

verus! {

/// Configuration for the voice pipeline.
#[derive(Debug, Clone, Copy)]
pub struct VoxConfig {
    /// Sample rate for audio capture.
    pub sample_rate: u32,
    /// Number of audio channels (1 is mono).
    pub channels: u16,
    /// Whether spoken output is enabled.
    pub enable_tts: bool,
}

impl Default for VoxConfig {
    /// 16 kHz mono capture, no spoken output.
    fn default() -> (r: Self)
        ensures
            r.sample_rate == 16000,
            r.channels == 1,
            !r.enable_tts,
    {
        VoxConfig { sample_rate: 16000, channels: 1, enable_tts: false }
    }
}


/// Number of whole VAD frames of `frame` samples in `len` samples; a
/// partial frame at the end is dropped.
pub fn whole_frames(len: usize, frame: usize) -> (r: usize)
    requires
        frame > 0,
    ensures
        r == len / frame,
{
    len / frame
}

/// What happened in the pipeline, as reported by the caller.
#[derive(Debug)]
pub enum PipelineEvent {
    /// The VAD detected the start of speech.
    SpeechStart,
    /// Opening a streaming session succeeded (`true`) or failed.
    SessionOpened(bool),
    /// A frame was fed to the streaming session; it gave this new partial
    /// text, or none yet.
    Partial(Option<String>),
    /// Feeding a frame to the streaming session failed.
    PushFailed,
    /// The VAD detected the end of an utterance.
    SpeechEnd,
    /// The streaming session was finished with this result, or failed.
    SessionFinished(Option<SttResult>),
    /// The utterance was transcribed in one piece.
    Transcribed(SttResult),
}

/// What the caller is to do next.
#[derive(Debug)]
pub enum PipelineAction {
    Nothing,
    /// Open a streaming recognition session.
    OpenSession,
    /// Hand this partial text to the partial-result callback.
    ReportPartial(String),
    /// Finish the streaming session to get the utterance's transcript.
    FinishSession,
    /// Transcribe the utterance in one piece.
    TranscribeBatch,
    /// Hand this transcript to the utterance callback.
    Deliver(SttResult),
}

/// The pipeline's state between events.
#[derive(Debug)]
pub struct PipelineState {
    /// Whether a streaming recogniser is configured.
    pub streaming_available: bool,
    /// Whether a streaming session is open.
    pub session_open: bool,
    /// Number of utterances handed to the callback.
    pub utterances: u64,
}

/// A transcript is delivered exactly when its text is not empty.
pub open spec fn delivers(r: SttResult) -> bool {
    r.text@.len() > 0
}

impl PipelineState {
    /// A pipeline with no session open and nothing delivered.
    pub fn new(streaming_available: bool) -> (r: Self)
        ensures
            r.streaming_available == streaming_available,
            !r.session_open,
            r.utterances == 0,
    {
        PipelineState { streaming_available, session_open: false, utterances: 0 }
    }

    /// Takes one event and says what to do.
    pub fn step(&mut self, event: PipelineEvent) -> (action: PipelineAction)
        requires
            old(self).utterances < u64::MAX,
        ensures
            final(self).streaming_available == old(self).streaming_available,
            match event {
                PipelineEvent::SpeechStart => {
                    &&& action == if old(self).streaming_available {
                        PipelineAction::OpenSession
                    } else {
                        PipelineAction::Nothing
                    }
                    &&& final(self).session_open == old(self).session_open
                    &&& final(self).utterances == old(self).utterances
                },
                PipelineEvent::SessionOpened(ok) => {
                    &&& action == PipelineAction::Nothing
                    &&& final(self).session_open == (ok || old(self).session_open)
                    &&& final(self).utterances == old(self).utterances
                },
                PipelineEvent::Partial(p) => {
                    &&& action == match p {
                        Some(t) => if old(self).session_open {
                            PipelineAction::ReportPartial(t)
                        } else {
                            PipelineAction::Nothing
                        },
                        None => PipelineAction::Nothing,
                    }
                    &&& final(self).session_open == old(self).session_open
                    &&& final(self).utterances == old(self).utterances
                },
                PipelineEvent::PushFailed => {
                    &&& action == PipelineAction::Nothing
                    &&& !final(self).session_open
                    &&& final(self).utterances == old(self).utterances
                },
                PipelineEvent::SpeechEnd => {
                    &&& action == if old(self).session_open {
                        PipelineAction::FinishSession
                    } else {
                        PipelineAction::TranscribeBatch
                    }
                    &&& !final(self).session_open
                    &&& final(self).utterances == old(self).utterances
                },
                PipelineEvent::SessionFinished(None) => {
                    &&& action == PipelineAction::TranscribeBatch
                    &&& final(self).session_open == old(self).session_open
                    &&& final(self).utterances == old(self).utterances
                },
                PipelineEvent::SessionFinished(Some(res)) | PipelineEvent::Transcribed(res) => {
                    &&& final(self).session_open == old(self).session_open
                    &&& if delivers(res) {
                        action == PipelineAction::Deliver(res) && final(self).utterances == old(self).utterances + 1
                    } else {
                        action == PipelineAction::Nothing && final(self).utterances == old(self).utterances
                    }
                },
            },
    {
        match event {
            PipelineEvent::SpeechStart => {
                if self.streaming_available {
                    PipelineAction::OpenSession
                } else {
                    PipelineAction::Nothing
                }
            },
            PipelineEvent::SessionOpened(ok) => {
                if ok {
                    self.session_open = true;
                }
                PipelineAction::Nothing
            },
            PipelineEvent::Partial(p) => match p {
                Some(t) => {
                    if self.session_open {
                        PipelineAction::ReportPartial(t)
                    } else {
                        PipelineAction::Nothing
                    }
                },
                None => PipelineAction::Nothing,
            },
            PipelineEvent::PushFailed => {
                self.session_open = false;
                PipelineAction::Nothing
            },
            PipelineEvent::SpeechEnd => {
                let open = self.session_open;
                self.session_open = false;
                if open {
                    PipelineAction::FinishSession
                } else {
                    PipelineAction::TranscribeBatch
                }
            },
            PipelineEvent::SessionFinished(None) => PipelineAction::TranscribeBatch,
            PipelineEvent::SessionFinished(Some(res)) => self.deliver(res),
            PipelineEvent::Transcribed(res) => self.deliver(res),
        }
    }

    /// Hands a non-empty transcript on and counts it.
    fn deliver(&mut self, res: SttResult) -> (action: PipelineAction)
        requires
            old(self).utterances < u64::MAX,
        ensures
            final(self).streaming_available == old(self).streaming_available,
            final(self).session_open == old(self).session_open,
            if delivers(res) {
                action == PipelineAction::Deliver(res) && final(self).utterances == old(self).utterances + 1
            } else {
                action == PipelineAction::Nothing && final(self).utterances == old(self).utterances
            },
    {
        if res.text.as_str().unicode_len() > 0 {
            self.utterances = self.utterances + 1;
            PipelineAction::Deliver(res)
        } else {
            PipelineAction::Nothing
        }
    }
}

} // verus!
