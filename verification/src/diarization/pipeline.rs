//! Decisions of the multi-speaker pipeline: which utterances are too short
//! to identify, and the ids given to speakers enrolled automatically.
use vstd::prelude::*;
use vstd::string::StringExecFns;
use crate::text::{chars_of, dec, has_prefix, parse_u64, parse_u64_spec, push_decimal, starts_with};

verus! {

/// Configuration for the multi-speaker pipeline.
#[derive(Debug, Clone, Copy)]
pub struct DiarizationConfig {
    /// Whether to automatically enroll unknown speakers.
    pub auto_enroll: bool,
    /// Minimum audio duration (ms) for speaker identification.
    pub min_audio_ms: u64,
    /// Whether to skip identification for very short utterances.
    pub skip_short_utterances: bool,
}

impl Default for DiarizationConfig {
    /// No auto-enrolment; utterances under 500 ms are not identified.
    fn default() -> (r: Self)
        ensures
            !r.auto_enroll,
            r.min_audio_ms == 500,
            r.skip_short_utterances,
    {
        DiarizationConfig { auto_enroll: false, min_audio_ms: 500, skip_short_utterances: true }
    }
}

impl DiarizationConfig {
    /// Whether an utterance of `duration_ms` is labelled "unknown" without
    /// being identified.
    pub fn skips(&self, duration_ms: u64) -> (r: bool)
        ensures
            r == (self.skip_short_utterances && duration_ms < self.min_audio_ms),
    {
        self.skip_short_utterances && duration_ms < self.min_audio_ms
    }
}

/// The number of an auto-enrolled id "speaker_N" (`N` as `u32::from_str`
/// reads it), if the id has that form.
pub open spec fn enrolled_number(id: Seq<char>) -> Option<u32> {
    if has_prefix(id, "speaker_"@) {
        match parse_u64_spec(id.skip("speaker_"@.len() as int)) {
            Some(n) => if n <= u32::MAX {
                Some(n as u32)
            } else {
                None
            },
            None => None,
        }
    } else {
        None
    }
}

/// The largest number among the auto-enrolled ids, 0 when there is none.
pub open spec fn max_enrolled(ids: Seq<Seq<char>>) -> u32
    decreases ids.len(),
{
    if ids.len() == 0 {
        0
    } else {
        let rest = max_enrolled(ids.drop_last());
        match enrolled_number(ids.last()) {
            Some(n) => if n > rest {
                n
            } else {
                rest
            },
            None => rest,
        }
    }
}

/// The number of `id` if it is an auto-enrolled id.
pub fn enrolled_number_of(id: &str) -> (r: Option<u32>)
    ensures
        r == enrolled_number(id@),
{
    proof {
        reveal_strlit("speaker_");
    }
    if !starts_with(id, "speaker_") {
        return None;
    }
    let c = chars_of(id);
    assert(id@.skip(8) =~= c@.subrange(8, c@.len() as int));
    match parse_u64(c.as_slice(), 8, c.len()) {
        Some(n) => if n <= u32::MAX as u64 {
            Some(n as u32)
        } else {
            None
        },
        None => None,
    }
}

/// The counter to continue auto-enrolment from, given the ids already
/// enrolled, so that new ids do not collide with loaded ones.
pub fn max_speaker_number(ids: &Vec<String>) -> (r: u32)
    ensures
        r == max_enrolled(ids@.map_values(|s: String| s@)),
{
    let mut best: u32 = 0;
    let mut i: usize = 0;
    while i < ids.len()
        invariant
            i <= ids@.len(),
            best == max_enrolled(ids@.map_values(|s: String| s@).take(i as int)),
        decreases ids@.len() - i,
    {
        let ghost v = ids@.map_values(|s: String| s@);
        assert(v.take(i + 1).drop_last() =~= v.take(i as int));
        assert(v.take(i + 1).last() == ids@[i as int]@);
        match enrolled_number_of(ids[i].as_str()) {
            Some(n) => {
                if n > best {
                    best = n;
                }
            },
            None => {},
        }
        i = i + 1;
    }
    assert(ids@.map_values(|s: String| s@).take(ids@.len() as int) =~= ids@.map_values(|s: String| s@));
    best
}

/// The next auto-enrolled speaker after `counter`: the new counter, its id
/// "speaker_N" and its name "Speaker N".
pub fn next_enrolled(counter: u32) -> (r: (u32, String, String))
    requires
        counter < u32::MAX,
    ensures
        r.0 == counter + 1,
        r.1@ == "speaker_"@ + dec(r.0 as nat),
        r.2@ == "Speaker "@ + dec(r.0 as nat),
{
    let n = counter + 1;
    let mut id = String::from_str("speaker_");
    push_decimal(&mut id, n as u64);
    let mut name = String::from_str("Speaker ");
    push_decimal(&mut name, n as u64);
    (n, id, name)
}

/// The label of an utterance whose speaker is not identified.
pub const UNKNOWN_SPEAKER: &'static str = "unknown";

/// What becomes of a speaker the registry does not recognise.
#[derive(Debug)]
pub enum UnknownSpeaker {
    /// Enrol as a new speaker: the new counter, the id and the name.
    Enroll { counter: u32, id: String, name: String },
    /// Label the utterance "unknown".
    Unlabelled,
}

impl DiarizationConfig {
    /// For an unrecognised speaker: enrol the next auto-enrolled speaker when
    /// auto-enrolment is on, else leave the utterance unlabelled.
    pub fn on_unknown(&self, counter: u32) -> (r: UnknownSpeaker)
        requires
            counter < u32::MAX,
        ensures
            self.auto_enroll ==> (r matches UnknownSpeaker::Enroll { counter: c, id, name } && c == counter + 1
                && id@ == "speaker_"@ + dec(c as nat) && name@ == "Speaker "@ + dec(c as nat)),
            !self.auto_enroll ==> r is Unlabelled,
    {
        if self.auto_enroll {
            let (c, id, name) = next_enrolled(counter);
            UnknownSpeaker::Enroll { counter: c, id, name }
        } else {
            UnknownSpeaker::Unlabelled
        }
    }

    /// The label of an utterance before any identification: `UNKNOWN_SPEAKER`
    /// for one too short to identify (see `skips`); none when identification
    /// goes ahead.
    pub fn label_before_identification(&self, duration_ms: u64) -> (r: Option<String>)
        ensures
            self.skip_short_utterances && duration_ms < self.min_audio_ms ==> (r matches Some(l) && l@
                == UNKNOWN_SPEAKER@),
            !(self.skip_short_utterances && duration_ms < self.min_audio_ms) ==> r is None,
    {
        if self.skips(duration_ms) {
            Some(String::from_str(UNKNOWN_SPEAKER))
        } else {
            None
        }
    }
}

} // verus!
