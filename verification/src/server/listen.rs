//! Decisions of a transcription (listen) WebSocket connection: whether
//! speaker labelling is on, which transcript stands for an utterance, and
//! how a recognised speaker is labelled. The connection loop performs the
//! I/O and the model calls and hands the outcomes back here.
use vstd::prelude::*;
use vstd::string::StringExecFns;
use crate::server::ws::{color_for, color_index, palette};
use crate::types::SttResult;
use crate::text::{concat2, str_eq};

verus! {

/// Error sent when a client asks for speaker labelling that this server
/// cannot do.
pub const DIARIZATION_UNAVAILABLE: &'static str = "diarization unavailable on server";

/// The speaker id a recogniser gives to an utterance it could not attribute.
pub const UNKNOWN_SPEAKER_ID: &'static str = "unknown";

/// The answer to a client's `config` command.
#[derive(Debug, Clone, Copy, PartialEq, Eq, Structural)]
pub enum ConfigReply {
    /// The command did not mention diarization; nothing changes.
    Ignored,
    /// Diarization was asked for but the server has no pipeline for it;
    /// the client is sent `DIARIZATION_UNAVAILABLE`.
    Unavailable,
    /// Diarization is now `on`; when it was switched on, the client is sent
    /// the list of known speakers.
    Toggled { on: bool },
}

/// State of one listen connection.
#[derive(Debug)]
pub struct ListenSession {
    diarization_available: bool,
    diarization_on: bool,
    streaming_open: bool,
}

/// The speaker attached to a transcript.
#[derive(Debug, Clone)]
pub struct SpeakerLabel {
    /// Stable speaker identifier.
    pub id: String,
    /// Display name.
    pub name: String,
    /// Display colour.
    pub color: String,
}

impl ListenSession {
    /// Whether the server can label speakers.
    pub closed spec fn available(&self) -> bool {
        self.diarization_available
    }

    /// Whether speaker labelling is on for this connection.
    pub closed spec fn labelling(&self) -> bool {
        self.diarization_on
    }

    /// Whether a streaming recognition session is open.
    pub closed spec fn streaming(&self) -> bool {
        self.streaming_open
    }

    /// A new connection; labelling starts off (it is opt-in) and no
    /// streaming session is open.
    pub fn new(diarization_available: bool) -> (r: Self)
        ensures
            r.available() == diarization_available,
            !r.labelling(),
            !r.streaming(),
    {
        ListenSession { diarization_available, diarization_on: false, streaming_open: false }
    }

    /// Whether the server can label speakers (sent in the ready event).
    pub fn diarization_available(&self) -> (r: bool)
        ensures
            r == self.available(),
    {
        self.diarization_available
    }

    /// Whether speaker labelling is on.
    pub fn diarization_on(&self) -> (r: bool)
        ensures
            r == self.labelling(),
    {
        self.diarization_on
    }

    /// Whether a streaming recognition session is open.
    pub fn streaming_open(&self) -> (r: bool)
        ensures
            r == self.streaming(),
    {
        self.streaming_open
    }

    /// A `config` command with the requested diarization setting.
    pub fn on_config(&mut self, diarization: Option<bool>) -> (r: ConfigReply)
        ensures
            final(self).available() == old(self).available(),
            final(self).streaming() == old(self).streaming(),
            match diarization {
                None => r == ConfigReply::Ignored && final(self).labelling() == old(self).labelling(),
                Some(e) => if e && !old(self).available() {
                    r == ConfigReply::Unavailable && final(self).labelling() == old(self).labelling()
                } else {
                    r == (ConfigReply::Toggled { on: e }) && final(self).labelling() == e
                },
            },
    {
        match diarization {
            None => ConfigReply::Ignored,
            Some(enabled) => {
                if enabled && !self.diarization_available {
                    ConfigReply::Unavailable
                } else {
                    self.diarization_on = enabled;
                    ConfigReply::Toggled { on: enabled }
                }
            },
        }
    }

    /// The outcome of opening a streaming session: an open session
    /// receives every following frame; a failed attempt changes nothing.
    pub fn on_session_opened(&mut self, ok: bool)
        ensures
            final(self).streaming() == (ok || old(self).streaming()),
            final(self).available() == old(self).available(),
            final(self).labelling() == old(self).labelling(),
    {
        if ok {
            self.streaming_open = true;
        }
    }

    /// Feeding a frame to the streaming session failed: the session is
    /// dropped and the utterance will be transcribed in one piece.
    pub fn on_stream_error(&mut self)
        ensures
            !final(self).streaming(),
            final(self).available() == old(self).available(),
            final(self).labelling() == old(self).labelling(),
    {
        self.streaming_open = false;
    }

    /// Speech ended. Returns whether a streaming session is to be finished
    /// for the transcript; the session is closed either way.
    pub fn on_speech_end(&mut self) -> (r: bool)
        ensures
            r == old(self).streaming(),
            !final(self).streaming(),
            final(self).available() == old(self).available(),
            final(self).labelling() == old(self).labelling(),
    {
        let r = self.streaming_open;
        self.streaming_open = false;
        r
    }
}

/// The transcript that stands for an utterance from the streaming session's
/// result: a non-empty one is kept; a missing or empty one is `None`, and
/// the utterance is then transcribed in one piece.
pub fn streaming_transcript(finished: Option<SttResult>) -> (r: Option<SttResult>)
    ensures
        match finished {
            Some(s) => if s.text@.len() > 0 {
                r == Some(s)
            } else {
                r is None
            },
            None => r is None,
        },
{
    match finished {
        Some(s) => {
            if s.text.as_str().unicode_len() > 0 {
                Some(s)
            } else {
                None
            }
        },
        None => None,
    }
}

/// The label of the speaker a recogniser gave: none without an id or for
/// the unknown-speaker sentinel; otherwise the id, the registered name (the
/// id when the speaker has none), and the id's colour.
pub fn speaker_label(id: Option<&str>, registered_name: Option<&str>) -> (r: Option<SpeakerLabel>)
    ensures
        match id {
            None => r is None,
            Some(i) => if i@ == UNKNOWN_SPEAKER_ID@ {
                r is None
            } else {
                r matches Some(l) && l.id@ == i@ && l.name@ == (match registered_name {
                    Some(n) => n@,
                    None => i@,
                }) && l.color@ == palette(color_index(i@))
            },
        },
{
    match id {
        None => None,
        Some(i) => {
            if str_eq(i, UNKNOWN_SPEAKER_ID) {
                None
            } else {
                let name = match registered_name {
                    Some(n) => String::from_str(n),
                    None => String::from_str(i),
                };
                Some(SpeakerLabel { id: String::from_str(i), name, color: color_for(i) })
            }
        },
    }
}

/// Whether recognising an utterance enrolled a new speaker: the registry
/// holds more speakers afterwards than before.
pub fn enrolled_new_speaker(count_before: usize, count_after: usize) -> (r: bool)
    ensures
        r == (count_after > count_before),
{
    count_after > count_before
}

/// The error message sent when the one-piece transcription fails.
pub fn stt_error_message(detail: &str) -> (r: String)
    ensures
        r@ == "STT error: "@ + detail@,
{
    concat2("STT error: ", detail)
}

/// The error message sent when voice-activity detection fails.
pub fn vad_error_message(detail: &str) -> (r: String)
    ensures
        r@ == "VAD error: "@ + detail@,
{
    concat2("VAD error: ", detail)
}

/// The error message sent when renaming a speaker fails.
pub fn rename_error_message(detail: &str) -> (r: String)
    ensures
        r@ == "rename failed: "@ + detail@,
{
    concat2("rename failed: ", detail)
}

/// The error message sent when forgetting a speaker fails.
pub fn forget_error_message(detail: &str) -> (r: String)
    ensures
        r@ == "forget failed: "@ + detail@,
{
    concat2("forget failed: ", detail)
}

} // verus!
