//! The decisions of a `/v1/live-talk` session: when audio goes to the VAD,
//! when push-to-talk audio becomes a turn, and when a running turn is
//! cancelled. The connection, the VAD model and the turns themselves are
//! run by the caller, which performs the actions returned here.
use vstd::prelude::*;
use vstd::string::StringExecFns;
use crate::text::{concat2, is_blank, trim};
use crate::server::models::{mode_of, settings_updated, CancelReason, LiveTalkConfig, LiveTalkMode, LiveTalkSettings};

verus! {

/// What the caller is to do, in order.
#[derive(Debug)]
pub enum LiveTalkAction<T> {
    /// The running turn has finished: reset the VAD and its framing residual.
    ResetVad,
    /// Cancel the running turn, reset the VAD and its residual, and report
    /// the cancellation with this reason.
    CancelTurn(CancelReason),
    /// Cancel the running turn (nothing else).
    StopTurn,
    /// Report a cancellation with this reason.
    ReportCancelled(CancelReason),
    /// Report that speech started.
    SpeechStart,
    /// Pass these samples through VAD framing.
    FeedVad(Vec<T>),
    /// Start a turn on this push-to-talk utterance of `duration_ms`.
    Dispatch { samples: Vec<T>, duration_ms: u64 },
}

/// An action as plain values.
pub enum ActionView<T> {
    Reset,
    Cancel(CancelReason),
    Stop,
    Cancelled(CancelReason),
    Start,
    Feed(Seq<T>),
    Dispatch(Seq<T>, u64),
}

/// The plain-value form of an action.
pub open spec fn action_view<T>(a: LiveTalkAction<T>) -> ActionView<T> {
    match a {
        LiveTalkAction::ResetVad => ActionView::Reset,
        LiveTalkAction::CancelTurn(r) => ActionView::Cancel(r),
        LiveTalkAction::StopTurn => ActionView::Stop,
        LiveTalkAction::ReportCancelled(r) => ActionView::Cancelled(r),
        LiveTalkAction::SpeechStart => ActionView::Start,
        LiveTalkAction::FeedVad(s) => ActionView::Feed(s@),
        LiveTalkAction::Dispatch { samples, duration_ms } => ActionView::Dispatch(samples@, duration_ms),
    }
}

/// The views of a list of actions.
pub open spec fn actions_view<T>(v: Seq<LiveTalkAction<T>>) -> Seq<ActionView<T>> {
    v.map_values(|a: LiveTalkAction<T>| action_view(a))
}

/// Duration in ms of `n` samples at 16 kHz.
pub open spec fn ms_of(n: nat) -> u64 {
    (n * 1000 / 16000) as u64
}

/// The state of a live-talk session.
#[derive(Debug)]
pub struct LiveTalkSession<T> {
    settings: LiveTalkSettings,
    ptt_active: bool,
    ptt_buffer: Vec<T>,
    turn_active: bool,
}

impl<T: Copy> LiveTalkSession<T> {
    /// Model, host, voice, mode, barge-in and system prompt in effect.
    pub closed spec fn current(&self) -> LiveTalkSettings {
        self.settings
    }

    /// Model, host, voice, mode, barge-in and system prompt in effect.
    pub fn settings(&self) -> (r: &LiveTalkSettings)
        ensures
            *r == self.current(),
    {
        &self.settings
    }

    /// Whether push-to-talk is held.
    pub closed spec fn holding(&self) -> bool {
        self.ptt_active
    }

    /// Push-to-talk audio collected so far.
    pub closed spec fn held_audio(&self) -> Seq<T> {
        self.ptt_buffer@
    }

    /// Whether a turn is running.
    pub closed spec fn in_turn(&self) -> bool {
        self.turn_active
    }

    /// A session with these settings, nothing held and no turn running.
    pub fn new(settings: LiveTalkSettings) -> (r: Self)
        ensures
            r.current() == settings,
            !r.holding(),
            r.held_audio().len() == 0,
            !r.in_turn(),
    {
        LiveTalkSession { settings, ptt_active: false, ptt_buffer: Vec::new(), turn_active: false }
    }

    /// Whether a turn is running.
    pub fn turn_running(&self) -> (r: bool)
        ensures
            r == self.in_turn(),
    {
        self.turn_active
    }

    /// A binary audio message. In push-to-talk mode the samples are kept
    /// while the button is held and dropped otherwise. In VAD mode a turn
    /// that has finished (`turn_done`) is retired first (the VAD is reset);
    /// while a turn is still running the audio is ignored, so that the
    /// assistant's own voice is not heard as speech; otherwise it goes to
    /// the VAD.
    pub fn on_audio(&mut self, samples: Vec<T>, turn_done: bool) -> (actions: Vec<LiveTalkAction<T>>)
        ensures
            final(self).current() == old(self).current(),
            final(self).holding() == old(self).holding(),
            old(self).current().mode == LiveTalkMode::PushToTalk ==> {
                &&& actions@.len() == 0
                &&& final(self).in_turn() == old(self).in_turn()
                &&& final(self).held_audio() == if old(self).holding() {
                    old(self).held_audio() + samples@
                } else {
                    old(self).held_audio()
                }
            },
            old(self).current().mode == LiveTalkMode::Vad ==> {
                let retire = old(self).in_turn() && turn_done;
                let busy = old(self).in_turn() && !turn_done;
                &&& final(self).held_audio() == old(self).held_audio()
                &&& final(self).in_turn() == busy
                &&& actions_view(actions@) == (if retire {
                    seq![ActionView::Reset]
                } else {
                    seq![]
                }) + (if busy {
                    seq![]
                } else {
                    seq![ActionView::Feed(samples@)]
                })
            },
    {
        let mut actions: Vec<LiveTalkAction<T>> = Vec::new();
        if self.settings.mode == LiveTalkMode::PushToTalk {
            if self.ptt_active {
                let ghost before = self.ptt_buffer@;
                let mut i: usize = 0;
                while i < samples.len()
                    invariant
                        i <= samples@.len(),
                        self.ptt_buffer@ == before + samples@.take(i as int),
                        self.settings == old(self).settings,
                        self.ptt_active == old(self).ptt_active,
                        self.turn_active == old(self).turn_active,
                    decreases samples@.len() - i,
                {
                    self.ptt_buffer.push(samples[i]);
                    i = i + 1;
                    assert(self.ptt_buffer@ =~= before + samples@.take(i as int));
                }
                assert(samples@.take(samples@.len() as int) =~= samples@);
            }
            return actions;
        }
        if self.turn_active && turn_done {
            self.turn_active = false;
            actions.push(LiveTalkAction::ResetVad);
        }
        if !self.turn_active {
            actions.push(LiveTalkAction::FeedVad(samples));
        }
        assert(actions_view(actions@) =~= (if old(self).in_turn() && turn_done {
            seq![ActionView::Reset]
        } else {
            seq![]
        }) + (if old(self).in_turn() && !turn_done {
            seq![]
        } else {
            seq![ActionView::Feed(samples@)]
        }));
        actions
    }

    /// The VAD ended an utterance and the caller started a turn on it.
    pub fn begin_turn(&mut self)
        ensures
            final(self).in_turn(),
            final(self).current() == old(self).current(),
            final(self).holding() == old(self).holding(),
            final(self).held_audio() == old(self).held_audio(),
    {
        self.turn_active = true;
    }

    /// A configuration message: the model or voice it names and its mode
    /// apply from now on; host, barge-in and system prompt stay.
    pub fn on_config(&mut self, config: LiveTalkConfig)
        ensures
            settings_updated(old(self).current(), final(self).current(), config),
            final(self).holding() == old(self).holding(),
            final(self).held_audio() == old(self).held_audio(),
            final(self).in_turn() == old(self).in_turn(),
    {
        self.settings.apply_update(config);
    }

    /// The client asks to cancel: a running turn is stopped; in any case the
    /// VAD and its residual are reset and the cancellation is reported.
    pub fn on_cancel(&mut self) -> (actions: Vec<LiveTalkAction<T>>)
        ensures
            !final(self).in_turn(),
            final(self).current() == old(self).current(),
            final(self).holding() == old(self).holding(),
            final(self).held_audio() == old(self).held_audio(),
            actions_view(actions@) == (if old(self).in_turn() {
                seq![ActionView::<T>::Stop]
            } else {
                seq![]
            }) + seq![ActionView::<T>::Reset, ActionView::<T>::Cancelled(CancelReason::ClientRequest)],
    {
        let mut actions: Vec<LiveTalkAction<T>> = Vec::new();
        if self.turn_active {
            self.turn_active = false;
            actions.push(LiveTalkAction::StopTurn);
        }
        actions.push(LiveTalkAction::ResetVad);
        actions.push(LiveTalkAction::ReportCancelled(CancelReason::ClientRequest));
        assert(actions_view(actions@) =~= (if old(self).in_turn() {
            seq![ActionView::<T>::Stop]
        } else {
            seq![]
        }) + seq![ActionView::<T>::Reset, ActionView::<T>::Cancelled(CancelReason::ClientRequest)]);
        actions
    }

    /// Push-to-talk pressed: collection starts afresh, a running turn is
    /// interrupted (barge-in), and speech is reported as started.
    pub fn on_ptt_start(&mut self) -> (actions: Vec<LiveTalkAction<T>>)
        ensures
            final(self).holding(),
            final(self).held_audio().len() == 0,
            !final(self).in_turn(),
            final(self).current() == old(self).current(),
            actions_view(actions@) == (if old(self).in_turn() {
                seq![ActionView::<T>::Cancel(CancelReason::UserBargeIn)]
            } else {
                seq![]
            }) + seq![ActionView::Start],
    {
        self.ptt_active = true;
        self.ptt_buffer = Vec::new();
        let mut actions: Vec<LiveTalkAction<T>> = Vec::new();
        if self.turn_active {
            self.turn_active = false;
            actions.push(LiveTalkAction::CancelTurn(CancelReason::UserBargeIn));
        }
        actions.push(LiveTalkAction::SpeechStart);
        assert(actions_view(actions@) =~= (if old(self).in_turn() {
            seq![ActionView::<T>::Cancel(CancelReason::UserBargeIn)]
        } else {
            seq![]
        }) + seq![ActionView::<T>::Start]);
        actions
    }

    /// Push-to-talk released: in push-to-talk mode the collected audio, if
    /// any, becomes a turn.
    pub fn on_ptt_end(&mut self) -> (actions: Vec<LiveTalkAction<T>>)
        ensures
            !final(self).holding(),
            final(self).current() == old(self).current(),
            ({
                let fire = old(self).current().mode == LiveTalkMode::PushToTalk && old(self).held_audio().len() > 0;
                &&& fire ==> final(self).held_audio().len() == 0 && final(self).in_turn()
                    && actions_view(actions@) == seq![
                        ActionView::Dispatch(old(self).held_audio(), ms_of(old(self).held_audio().len())),
                    ]
                &&& !fire ==> final(self).held_audio() == old(self).held_audio()
                    && final(self).in_turn() == old(self).in_turn() && actions@.len() == 0
            }),
    {
        self.ptt_active = false;
        let mut actions: Vec<LiveTalkAction<T>> = Vec::new();
        if self.settings.mode == LiveTalkMode::PushToTalk && self.ptt_buffer.len() > 0 {
            let mut samples: Vec<T> = Vec::new();
            std::mem::swap(&mut samples, &mut self.ptt_buffer);
            let n = samples.len();
            assert((n as nat) * 1000 / 16000 == (n as nat) / 16) by (nonlinear_arith);
            let duration_ms = (n / 16) as u64;
            actions.push(LiveTalkAction::Dispatch { samples, duration_ms });
            self.turn_active = true;
            assert(actions_view(actions@) =~= seq![
                ActionView::Dispatch(old(self).held_audio(), ms_of(old(self).held_audio().len())),
            ]);
        }
        actions
    }
}


/// How the language model's reply to a turn ended.
#[derive(Debug, Clone)]
pub enum StopOutcome {
    /// The reply was complete.
    Finished,
    /// The turn was cancelled.
    Cancelled,
    /// The reply failed with this message.
    Failed(String),
}

/// How a turn starts once its utterance is transcribed.
#[derive(Debug, Clone, Copy, PartialEq, Eq, Structural)]
pub enum TurnStart {
    /// Nothing was said: the turn is over, with no sentence spoken.
    Done { sentences: usize },
    /// Send the transcript, then the "thinking" event, and ask the model.
    Proceed,
}

/// The event that closes a turn, if any.
#[derive(Debug, Clone)]
pub enum TurnEnd {
    /// The turn is complete after this many spoken sentences.
    TurnDone { sentences: usize },
    /// The turn was cancelled; nothing more is sent.
    Silent,
    /// A turn error; `fatal` is whether the session ends with it.
    Error { message: String, fatal: bool },
}

/// How an utterance that was transcribed as `text` starts its turn.
pub fn on_transcript(text: &str) -> (r: TurnStart)
    ensures
        trim(text@).len() == 0 ==> r == (TurnStart::Done { sentences: 0 }),
        trim(text@).len() != 0 ==> r == TurnStart::Proceed,
{
    if is_blank(text) {
        TurnStart::Done { sentences: 0 }
    } else {
        TurnStart::Proceed
    }
}

/// The event that ends a turn whose transcription failed with `detail`.
pub fn stt_failure(detail: &str) -> (r: TurnEnd)
    ensures
        r matches TurnEnd::Error { message, fatal } && message@ == "STT: "@ + detail@ && !fatal,
{
    TurnEnd::Error { message: concat2("STT: ", detail), fatal: false }
}

/// Whether a sentence of the reply is spoken: blank ones are skipped.
pub fn speaks(sentence: &str) -> (r: bool)
    ensures
        r == (trim(sentence@).len() != 0),
{
    !is_blank(sentence)
}

/// The sentences spoken so far in a turn.
#[derive(Debug)]
pub struct TurnProgress {
    pub sentences: usize,
}

impl TurnProgress {
    /// A turn that has spoken nothing yet.
    pub fn new() -> (r: Self)
        ensures
            r.sentences == 0,
    {
        TurnProgress { sentences: 0 }
    }

    /// A sentence of the reply whose audio is ready: a blank sentence is not
    /// spoken and gets no index; any other is numbered in order from 0.
    pub fn on_sentence(&mut self, s: &str) -> (r: Option<usize>)
        requires
            old(self).sentences < usize::MAX,
        ensures
            trim(s@).len() == 0 ==> (r is None && final(self).sentences == old(self).sentences),
            trim(s@).len() != 0 ==> (r == Some(old(self).sentences) && final(self).sentences
                == old(self).sentences + 1),
    {
        if is_blank(s) {
            None
        } else {
            let i = self.sentences;
            self.sentences = i + 1;
            Some(i)
        }
    }

    /// The event that closes the turn, given how the reply ended.
    pub fn on_stop(&self, stop: StopOutcome) -> (r: TurnEnd)
        ensures
            stop is Finished ==> (r matches TurnEnd::TurnDone { sentences } && sentences == self.sentences),
            stop is Cancelled ==> r is Silent,
            stop matches StopOutcome::Failed(e) ==> (r matches TurnEnd::Error { message, fatal }
                && message@ == "LLM: "@ + e@ && !fatal),
    {
        match stop {
            StopOutcome::Finished => TurnEnd::TurnDone { sentences: self.sentences },
            StopOutcome::Cancelled => TurnEnd::Silent,
            StopOutcome::Failed(e) => TurnEnd::Error { message: concat2("LLM: ", e.as_str()), fatal: false },
        }
    }
}

} // verus!
