//! Segmentation around the Silero VAD model: frame geometry and the
//! pre-speech lookback buffer.
use vstd::prelude::*;
use std::collections::VecDeque;

verus! {

/// Frame size expected by Silero VAD v5 at 16 kHz, in samples.
pub const FRAME_SIZE: usize = 512;

/// Sample rate expected by Silero VAD, in Hz.
pub const SAMPLE_RATE: u32 = 16000;

/// Duration of one frame in milliseconds (512 samples at 16 kHz).
pub const FRAME_MS: u32 = 32;

/// Number of samples kept before speech onset for a pad of `pad_ms`.
pub open spec fn lookback_capacity_spec(pad_ms: u32) -> nat {
    ((pad_ms as nat) * (SAMPLE_RATE as nat) / 1000) as nat
}

/// Number of samples kept before speech onset for a pad of `pad_ms`
/// milliseconds (300 ms at 16 kHz is 4800 samples).
pub fn lookback_capacity(pad_ms: u32) -> (r: usize)
    requires
        lookback_capacity_spec(pad_ms) <= usize::MAX,
    ensures
        r == lookback_capacity_spec(pad_ms),
{
    assert((pad_ms as nat) * 16000 / 1000 == (pad_ms as nat) * 16) by (nonlinear_arith);
    (pad_ms as usize) * 16
}

/// Largest frame count whose duration in milliseconds fits in a `u32`.
pub const MAX_TRACKED_FRAMES: u32 = 134217727;

/// Segmentation settings: silence that ends speech, shortest speech that
/// is reported, and audio kept from before speech onset.
#[derive(Debug, Clone, Copy)]
pub struct SegmenterConfig {
    /// How many ms of silence end speech.
    pub silence_duration_ms: u32,
    /// Minimum speech duration in ms for an utterance to be reported.
    pub min_speech_ms: u32,
    /// Milliseconds of audio kept before speech onset and prepended to the
    /// utterance, so that the first syllable is not clipped.
    pub pre_speech_pad_ms: u32,
}

impl Default for SegmenterConfig {
    /// 500 ms of silence end speech; speech under 250 ms is dropped; 300 ms
    /// of pre-roll.
    fn default() -> (r: Self)
        ensures
            r.silence_duration_ms == 500,
            r.min_speech_ms == 250,
            r.pre_speech_pad_ms == 300,
    {
        SegmenterConfig { silence_duration_ms: 500, min_speech_ms: 250, pre_speech_pad_ms: 300 }
    }
}

/// What a frame produced.
#[derive(Debug)]
pub enum SegmentEvent<T> {
    /// Speech has started.
    SpeechStart,
    /// Speech has ended: the utterance's samples and its duration in ms.
    SpeechEnd { samples: Vec<T>, duration_ms: u64 },
    /// No speech in this frame.
    Silence,
}

/// An event as plain values.
pub enum EventView<T> {
    Start,
    End(Seq<T>, u64),
    Silence,
}

/// The plain-value form of an event.
pub open spec fn event_view<T>(e: SegmentEvent<T>) -> EventView<T> {
    match e {
        SegmentEvent::SpeechStart => EventView::Start,
        SegmentEvent::SpeechEnd { samples, duration_ms } => EventView::End(samples@, duration_ms),
        SegmentEvent::Silence => EventView::Silence,
    }
}

/// The state of a segmenter as plain values.
pub struct SegView<T> {
    pub speaking: bool,
    pub silence_frames: u32,
    pub speech_frames: u32,
    pub speech: Seq<T>,
    pub lookback: Seq<T>,
}

/// The last `n` elements of `s` (all of `s` when it is shorter).
pub open spec fn last_n<T>(s: Seq<T>, n: nat) -> Seq<T> {
    if s.len() <= n {
        s
    } else {
        s.skip(s.len() - n)
    }
}

/// Duration in ms of `n` samples at the model's sample rate.
pub open spec fn duration_of(n: nat) -> u64 {
    (n * 1000 / (SAMPLE_RATE as nat)) as u64
}

/// One frame of segmentation: the next state and the events, given whether
/// the model judged the frame to be speech. Speech onset prepends the
/// lookback; silence while speaking is buffered until it lasts long enough
/// to end the utterance, which is reported only if its speech lasted long
/// enough; silence otherwise feeds the lookback ring.
pub open spec fn step<T>(
    cfg: SegmenterConfig,
    cap: nat,
    s: SegView<T>,
    frame: Seq<T>,
    is_speech: bool,
) -> (SegView<T>, Seq<EventView<T>>) {
    if is_speech {
        if !s.speaking {
            (
                SegView {
                    speaking: true,
                    silence_frames: 0,
                    speech_frames: (s.speech_frames + 1) as u32,
                    speech: (if cap > 0 {
                        s.speech + s.lookback
                    } else {
                        s.speech
                    }) + frame,
                    lookback: if cap > 0 {
                        Seq::empty()
                    } else {
                        s.lookback
                    },
                },
                seq![EventView::Start],
            )
        } else {
            (
                SegView {
                    speaking: true,
                    silence_frames: 0,
                    speech_frames: (s.speech_frames + 1) as u32,
                    speech: s.speech + frame,
                    lookback: s.lookback,
                },
                seq![],
            )
        }
    } else if s.speaking {
        let speech = s.speech + frame;
        let silence = s.silence_frames + 1;
        if silence * (FRAME_MS as int) >= cfg.silence_duration_ms {
            (
                SegView {
                    speaking: false,
                    silence_frames: 0,
                    speech_frames: 0,
                    speech: Seq::empty(),
                    lookback: s.lookback,
                },
                if s.speech_frames * (FRAME_MS as int) >= cfg.min_speech_ms {
                    seq![EventView::End(speech, duration_of(speech.len()))]
                } else {
                    seq![]
                },
            )
        } else {
            (
                SegView {
                    speaking: true,
                    silence_frames: silence as u32,
                    speech_frames: s.speech_frames,
                    speech: speech,
                    lookback: s.lookback,
                },
                seq![],
            )
        }
    } else {
        (
            SegView {
                speaking: s.speaking,
                silence_frames: s.silence_frames,
                speech_frames: s.speech_frames,
                speech: s.speech,
                lookback: if cap > 0 {
                    last_n(s.lookback + frame, cap)
                } else {
                    s.lookback
                },
            },
            seq![EventView::Silence],
        )
    }
}

/// Between utterances nothing is buffered but the lookback and the
/// counters are at zero.
pub open spec fn idle<T>(s: SegView<T>) -> bool {
    &&& !s.speaking
    &&& s.speech.len() == 0
    &&& s.speech_frames == 0
    &&& s.silence_frames == 0
}

/// Turns per-frame speech decisions into utterances (the segmentation of
/// the Silero VAD backend; the model's probability and its threshold are
/// the caller's, which passes whether the frame is speech).
#[derive(Debug)]
pub struct VadSegmenter<T> {
    config: SegmenterConfig,
    is_speaking: bool,
    silence_frames: u32,
    speech_buffer: Vec<T>,
    speech_frames: u32,
    lookback_buffer: VecDeque<T>,
    lookback_capacity: usize,
}

fn feed_lookback<T: Copy>(lb: &mut VecDeque<T>, frame: &[T], cap: usize)
    requires
        cap > 0,
        old(lb)@.len() <= cap,
    ensures
        final(lb)@ == last_n(old(lb)@ + frame@, cap as nat),
        final(lb)@.len() <= cap,
{
    let ghost start = lb@;
    let mut i: usize = 0;
    assert(start + frame@.take(0) =~= start);
    while i < frame.len()
        invariant
            cap > 0,
            start.len() <= cap,
            i <= frame@.len(),
            lb@ == last_n(start + frame@.take(i as int), cap as nat),
            lb@.len() <= cap,
        decreases frame@.len() - i,
    {
        let ghost x = start + frame@.take(i as int);
        let ghost x2 = start + frame@.take(i + 1);
        assert(x2 =~= x.push(frame@[i as int]));
        if lb.len() >= cap {
            lb.pop_front();
            lb.push_back(frame[i]);
            assert(x.len() >= cap);
            assert(lb@ =~= x2.skip(x2.len() - cap));
        } else {
            lb.push_back(frame[i]);
            assert(x.len() < cap);
            assert(lb@ =~= x2);
        }
        i = i + 1;
    }
    assert(frame@.take(frame@.len() as int) =~= frame@);
}

fn append_slice<T: Copy>(v: &mut Vec<T>, s: &[T])
    ensures
        final(v)@ == old(v)@ + s@,
{
    let ghost start = v@;
    let mut i: usize = 0;
    while i < s.len()
        invariant
            i <= s@.len(),
            v@ == start + s@.take(i as int),
        decreases s@.len() - i,
    {
        v.push(s[i]);
        i = i + 1;
        assert(v@ =~= start + s@.take(i as int));
    }
    assert(s@.take(s@.len() as int) =~= s@);
}

fn append_deque<T: Copy>(v: &mut Vec<T>, d: &VecDeque<T>)
    ensures
        final(v)@ == old(v)@ + d@,
{
    let ghost start = v@;
    let mut i: usize = 0;
    while i < d.len()
        invariant
            i <= d@.len(),
            v@ == start + d@.take(i as int),
        decreases d@.len() - i,
    {
        v.push(d[i]);
        i = i + 1;
        assert(v@ =~= start + d@.take(i as int));
    }
    assert(d@.take(d@.len() as int) =~= d@);
}

impl<T: Copy> VadSegmenter<T> {
    /// The state as plain values.
    pub closed spec fn state(&self) -> SegView<T> {
        SegView {
            speaking: self.is_speaking,
            silence_frames: self.silence_frames,
            speech_frames: self.speech_frames,
            speech: self.speech_buffer@,
            lookback: self.lookback_buffer@,
        }
    }

    /// The settings in use.
    pub closed spec fn settings(&self) -> SegmenterConfig {
        self.config
    }

    /// Samples kept before speech onset.
    pub closed spec fn capacity(&self) -> nat {
        self.lookback_capacity as nat
    }

    /// The lookback never holds more than its capacity, and its capacity is
    /// the configured pre-roll.
    pub closed spec fn wf(&self) -> bool {
        &&& self.lookback_buffer@.len() <= self.lookback_capacity
        &&& self.lookback_capacity == lookback_capacity_spec(self.config.pre_speech_pad_ms)
        &&& !self.is_speaking ==> idle(self.state())
    }

    /// The frame counters are small enough for the next frame.
    pub open spec fn can_step(&self) -> bool {
        &&& self.state().speech_frames < MAX_TRACKED_FRAMES
        &&& self.state().silence_frames < MAX_TRACKED_FRAMES
    }

    /// A segmenter that has heard nothing yet.
    pub fn new(config: SegmenterConfig) -> (r: Self)
        requires
            lookback_capacity_spec(config.pre_speech_pad_ms) <= usize::MAX,
        ensures
            r.wf(),
            r.settings() == config,
            r.capacity() == lookback_capacity_spec(config.pre_speech_pad_ms),
            !r.state().speaking,
            r.state().silence_frames == 0,
            r.state().speech_frames == 0,
            r.state().speech.len() == 0,
            r.state().lookback.len() == 0,
    {
        let cap = lookback_capacity(config.pre_speech_pad_ms);
        VadSegmenter {
            config,
            is_speaking: false,
            silence_frames: 0,
            speech_buffer: Vec::new(),
            speech_frames: 0,
            lookback_buffer: VecDeque::new(),
            lookback_capacity: cap,
        }
    }

    /// Frames of speech so far in the current utterance.
    pub fn speech_frames(&self) -> (r: u32)
        ensures
            r == self.state().speech_frames,
    {
        self.speech_frames
    }

    /// Consecutive silent frames in the current utterance.
    pub fn silence_frames(&self) -> (r: u32)
        ensures
            r == self.state().silence_frames,
    {
        self.silence_frames
    }

    /// The audio kept from before speech onset, oldest first.
    pub fn lookback(&self) -> (r: &VecDeque<T>)
        ensures
            r@ == self.state().lookback,
    {
        &self.lookback_buffer
    }

    /// A well-formed segmenter that is not speaking is idle.
    pub proof fn lemma_not_speaking_is_idle(&self)
        requires
            self.wf(),
            !self.state().speaking,
        ensures
            idle(self.state()),
            self.state().lookback.len() <= self.capacity(),
    {
    }

    /// Whether speech is in progress.
    pub fn is_speaking(&self) -> (r: bool)
        ensures
            r == self.state().speaking,
    {
        self.is_speaking
    }

    /// Processes one frame that the model did (`is_speech`) or did not judge
    /// to be speech, and returns what it produced.
    pub fn process_frame(&mut self, frame: &[T], is_speech: bool) -> (events: Vec<SegmentEvent<T>>)
        requires
            old(self).wf(),
            old(self).can_step(),
        ensures
            final(self).wf(),
            final(self).settings() == old(self).settings(),
            final(self).capacity() == old(self).capacity(),
            (final(self).state(), events@.map_values(|e: SegmentEvent<T>| event_view(e))) == step(
                old(self).settings(),
                old(self).capacity(),
                old(self).state(),
                frame@,
                is_speech,
            ),
    {
        let ghost cap = self.lookback_capacity as nat;
        let mut events: Vec<SegmentEvent<T>> = Vec::new();
        if is_speech {
            if !self.is_speaking {
                self.is_speaking = true;
                if self.lookback_capacity > 0 {
                    append_deque(&mut self.speech_buffer, &self.lookback_buffer);
                    self.lookback_buffer.clear();
                }
                events.push(SegmentEvent::SpeechStart);
            }
            append_slice(&mut self.speech_buffer, frame);
            self.speech_frames = self.speech_frames + 1;
            self.silence_frames = 0;
        } else if self.is_speaking {
            append_slice(&mut self.speech_buffer, frame);
            self.silence_frames = self.silence_frames + 1;
            let silence_ms = self.silence_frames * FRAME_MS;
            if silence_ms >= self.config.silence_duration_ms {
                let speech_ms = self.speech_frames * FRAME_MS;
                if speech_ms >= self.config.min_speech_ms {
                    let n = self.speech_buffer.len();
                    assert((n as nat) * 1000 / 16000 == (n as nat) / 16) by (nonlinear_arith);
                    let duration_ms = (n / 16) as u64;
                    let mut samples: Vec<T> = Vec::new();
                    std::mem::swap(&mut samples, &mut self.speech_buffer);
                    events.push(SegmentEvent::SpeechEnd { samples, duration_ms });
                }
                self.is_speaking = false;
                self.silence_frames = 0;
                self.speech_buffer = Vec::new();
                self.speech_frames = 0;
            }
        } else {
            if self.lookback_capacity > 0 {
                feed_lookback(&mut self.lookback_buffer, frame, self.lookback_capacity);
            }
            events.push(SegmentEvent::Silence);
        }
        assert(events@.map_values(|e: SegmentEvent<T>| event_view(e)) =~= step(
            old(self).settings(),
            old(self).capacity(),
            old(self).state(),
            frame@,
            is_speech,
        ).1);
        events
    }

    /// Forgets any speech in progress and the lookback.
    pub fn reset(&mut self)
        requires
            old(self).wf(),
        ensures
            final(self).wf(),
            final(self).settings() == old(self).settings(),
            final(self).capacity() == old(self).capacity(),
            !final(self).state().speaking,
            final(self).state().silence_frames == 0,
            final(self).state().speech_frames == 0,
            final(self).state().speech.len() == 0,
            final(self).state().lookback.len() == 0,
    {
        self.is_speaking = false;
        self.silence_frames = 0;
        self.speech_buffer = Vec::new();
        self.speech_frames = 0;
        self.lookback_buffer.clear();
    }

    /// The speech buffered so far, while speech is in progress and the
    /// buffer is not empty.
    pub fn current_speech(&self) -> (r: Option<&Vec<T>>)
        ensures
            match r {
                Some(v) => self.state().speaking && self.state().speech.len() > 0 && v@ == self.state().speech,
                None => !self.state().speaking || self.state().speech.len() == 0,
            },
    {
        if self.is_speaking && self.speech_buffer.len() > 0 {
            Some(&self.speech_buffer)
        } else {
            None
        }
    }
}

/// When speech starts after silence, the utterance begins with the audio
/// kept from before onset (at most the capacity, the most recent samples)
/// followed by the frame, and the lookback is emptied.
pub proof fn lemma_onset_prepends_lookback<T>(cfg: SegmenterConfig, cap: nat, s: SegView<T>, frame: Seq<T>)
    requires
        idle(s),
        cap > 0,
        s.lookback.len() <= cap,
    ensures
        step(cfg, cap, s, frame, true).0.speech == s.lookback + frame,
        step(cfg, cap, s, frame, true).0.lookback.len() == 0,
        step(cfg, cap, s, frame, true).1 == seq![EventView::<T>::Start],
{
    assert(s.speech + s.lookback =~= s.lookback);
}

/// Silence between utterances keeps exactly the most recent `cap` samples
/// heard (all of them while fewer have been heard).
pub proof fn lemma_silence_keeps_recent<T>(cfg: SegmenterConfig, cap: nat, s: SegView<T>, frame: Seq<T>)
    requires
        idle(s),
        cap > 0,
        s.lookback.len() <= cap,
    ensures
        step(cfg, cap, s, frame, false).0.lookback.len() == if s.lookback.len() + frame.len() <= cap {
            s.lookback.len() + frame.len()
        } else {
            cap
        },
        step(cfg, cap, s, frame, false).0.lookback == last_n(s.lookback + frame, cap),
        step(cfg, cap, s, frame, false).0.lookback.is_suffix_of(s.lookback + frame),
{
    let x = s.lookback + frame;
    if x.len() > cap {
        assert(x.skip(x.len() - cap) =~= x.subrange(x.len() - cap, x.len() as int));
    }
    let l = last_n(x, cap);
    assert(l.is_suffix_of(x)) by {
        assert(x.subrange(x.len() - l.len(), x.len() as int) =~= l);
    }
}

/// An utterance that ends carries every sample buffered since onset plus
/// the closing frame, and its duration is its length at 16 samples per ms.
pub proof fn lemma_end_reports_whole_utterance<T>(cfg: SegmenterConfig, cap: nat, s: SegView<T>, frame: Seq<T>)
    requires
        s.speaking,
        (s.silence_frames + 1) * (FRAME_MS as int) >= cfg.silence_duration_ms,
        s.speech_frames * (FRAME_MS as int) >= cfg.min_speech_ms,
    ensures
        step(cfg, cap, s, frame, false).1 == seq![
            EventView::End(s.speech + frame, ((s.speech.len() + frame.len()) / 16) as u64),
        ],
        idle(step(cfg, cap, s, frame, false).0),
        step(cfg, cap, s, frame, false).0.lookback == s.lookback,
{
    let n = (s.speech + frame).len();
    assert(n * 1000 / 16000 == n / 16) by (nonlinear_arith);
}


/// Law: while speaking, a silent frame that leaves the pause shorter than
/// the silence timeout produces no event and keeps the utterance open with
/// the frame appended; a pause that reaches the timeout after less than the
/// minimum speech length closes the utterance with no event at all.
pub proof fn lemma_pause_and_short_burst<T>(cfg: SegmenterConfig, cap: nat, s: SegView<T>, frame: Seq<T>)
    requires
        s.speaking,
        s.silence_frames < u32::MAX,
    ensures
        (s.silence_frames + 1) * (FRAME_MS as int) < cfg.silence_duration_ms ==> {
            &&& step(cfg, cap, s, frame, false).1.len() == 0
            &&& step(cfg, cap, s, frame, false).0.speaking
            &&& step(cfg, cap, s, frame, false).0.speech == s.speech + frame
            &&& step(cfg, cap, s, frame, false).0.silence_frames == s.silence_frames + 1
            &&& step(cfg, cap, s, frame, false).0.speech_frames == s.speech_frames
        },
        (s.silence_frames + 1) * (FRAME_MS as int) >= cfg.silence_duration_ms
            && s.speech_frames * (FRAME_MS as int) < cfg.min_speech_ms ==> {
            &&& step(cfg, cap, s, frame, false).1.len() == 0
            &&& idle(step(cfg, cap, s, frame, false).0)
        },
{
}

/// The state after each frame of `frames` has been segmented in turn,
/// starting from `s`, the model having judged frame `i` speech when
/// `speech[i]` holds.
pub open spec fn run_frames<T>(cfg: SegmenterConfig, cap: nat, s: SegView<T>, frames: Seq<Seq<T>>, speech: Seq<bool>) -> SegView<T>
    decreases speech.len(),
{
    if speech.len() == 0 || frames.len() != speech.len() {
        s
    } else {
        step(cfg, cap, run_frames(cfg, cap, s, frames.drop_last(), speech.drop_last()), frames.last(), speech.last()).0
    }
}

/// Number of silent frames at the end of `speech`, since the last speech
/// frame.
pub open spec fn trailing_silence(speech: Seq<bool>) -> nat
    decreases speech.len(),
{
    if speech.len() == 0 || speech.last() {
        0
    } else {
        trailing_silence(speech.drop_last()) + 1
    }
}

/// Law: a speech frame always resets the count of consecutive silent
/// frames, whatever the state.
pub proof fn lemma_speech_resets_silence<T>(cfg: SegmenterConfig, cap: nat, s: SegView<T>, frame: Seq<T>)
    ensures
        step(cfg, cap, s, frame, true).0.silence_frames == 0,
        step(cfg, cap, s, frame, true).0.speaking,
{
}

/// Law: the silence counter never exceeds the number of silent frames
/// since the last speech frame.
pub proof fn lemma_silence_counts_trailing<T>(cfg: SegmenterConfig, cap: nat, s: SegView<T>, frames: Seq<Seq<T>>, speech: Seq<bool>)
    requires
        s.silence_frames == 0,
        frames.len() == speech.len(),
        speech.len() < u32::MAX,
    ensures
        run_frames(cfg, cap, s, frames, speech).silence_frames <= trailing_silence(speech),
    decreases speech.len(),
{
    if speech.len() > 0 {
        let fd = frames.drop_last();
        let sd = speech.drop_last();
        lemma_silence_counts_trailing(cfg, cap, s, fd, sd);
        lemma_trailing_silence_bound(sd);
        let prev = run_frames(cfg, cap, s, fd, sd);
        assert(prev.silence_frames <= trailing_silence(sd));
    }
}

/// The silent frames at the end are among the frames.
proof fn lemma_trailing_silence_bound(speech: Seq<bool>)
    ensures
        trailing_silence(speech) <= speech.len(),
    decreases speech.len(),
{
    if speech.len() > 0 {
        lemma_trailing_silence_bound(speech.drop_last());
    }
}

/// Law: an utterance ends only after the configured silence has lasted
/// without interruption: when a frame closes an utterance, the silent
/// frames since the last speech frame (this one included) span at least
/// `silence_duration_ms`.
pub proof fn lemma_end_only_after_silence<T>(
    cfg: SegmenterConfig,
    cap: nat,
    s: SegView<T>,
    frames: Seq<Seq<T>>,
    speech: Seq<bool>,
)
    requires
        s.silence_frames == 0,
        frames.len() == speech.len(),
        0 < speech.len() < u32::MAX,
    ensures
        ({
            let prev = run_frames(cfg, cap, s, frames.drop_last(), speech.drop_last());
            let out = step(cfg, cap, prev, frames.last(), speech.last()).1;
            out.len() > 0 && out[0] is End ==> trailing_silence(speech) * (FRAME_MS as int)
                >= cfg.silence_duration_ms
        }),
{
    let fd = frames.drop_last();
    let sd = speech.drop_last();
    lemma_silence_counts_trailing(cfg, cap, s, fd, sd);
}

} // verus!
