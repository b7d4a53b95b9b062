//! The session state machine: the one place that knows whether the relay
//! is idle, listening, recording, processing or calibrating, and that
//! decides what each command and each event changes.
//!
//! The machine does nothing to the outside world itself. Every command and
//! event returns the [`Effect`]s that whoever drives it has to carry out:
//! open or close the microphone, run a pipeline on a worker.
//!
//! The conversational session is with the machine or with the one pipeline
//! in flight, never with both. No second pipeline is started while one is
//! in flight: a recording with samples that ends in the meantime waits for
//! the last message of the first.

use crate::calibration::{
    after_silence_phase, after_voice_phase, finish_silence_phase, finish_voice_phase,
    SILENCE_PHASE_MS,
};
use crate::eliza::{outbound_view, ClientView, ElizaClient, Outbound};
use crate::pipeline::{session_view, Pipeline, PipelineMessage, PipelineView, Stage};
use crate::status::{Status, StatusView};
use crate::text::{owned, trim, trimmed};
use crate::vad::{debounce, has_speech_ended, speech_ended, SpeechDetector, ThresholdPair, DEBOUNCE_TICKS};
use vstd::prelude::*;

verus! {

/// The phase of the session. There is exactly one at any time.
#[derive(Clone, Copy, Debug, PartialEq, Eq, Structural)]
pub enum SessionPhase {
    Idle,
    Monitoring,
    Recording,
    Processing,
    CalibratingSilence,
    CalibratingVoice,
}

/// Whether the microphone is open in this phase.
pub open spec fn holds_capture(phase: SessionPhase) -> bool {
    phase == SessionPhase::Monitoring || phase == SessionPhase::Recording || phase
        == SessionPhase::CalibratingSilence || phase == SessionPhase::CalibratingVoice
}

/// Whether the phase belongs to calibration.
pub open spec fn calibrating(phase: SessionPhase) -> bool {
    phase == SessionPhase::CalibratingSilence || phase == SessionPhase::CalibratingVoice
}

/// What a new conversational session is made from.
#[derive(Debug, PartialEq, Eq)]
pub struct AgentSettings {
    pub server_url: String,
    pub model: String,
    pub max_history_length: usize,
    pub system_prompt: String,
}

/// [`AgentSettings`] as plain values.
pub struct AgentSettingsView {
    pub server_url: Seq<char>,
    pub model: Seq<char>,
    pub max_turns: nat,
    pub system_prompt: Seq<char>,
}

impl View for AgentSettings {
    type V = AgentSettingsView;

    open spec fn view(&self) -> AgentSettingsView {
        AgentSettingsView {
            server_url: self.server_url@,
            model: self.model@,
            max_turns: self.max_history_length as nat,
            system_prompt: self.system_prompt@,
        }
    }
}

/// What the microphone reports at one tick.
#[derive(Clone, Copy, Debug, PartialEq, Eq, Structural)]
pub struct Reading {
    /// The level, in millionths of full scale.
    pub amplitude: u32,
    /// How long the level has stayed at or below the silence threshold, in
    /// milliseconds.
    pub quiet_ms: u64,
    /// How many samples the recording holds.
    pub buffered_samples: usize,
}

/// What the driver of the machine has to carry out.
#[derive(Debug, PartialEq, Eq)]
pub enum Effect {
    /// Open the microphone, gated at this level. If that fails, report it
    /// with `capture_failed`.
    AcquireCapture(u32),
    /// Close the microphone and drop what it recorded.
    ReleaseCapture,
    /// Close the microphone, keep what it recorded as the clip, and run
    /// this pipeline on it on a worker.
    ProcessClip(Pipeline),
    /// Run this pipeline on a worker.
    ProcessText(Pipeline),
}

/// An [`Effect`] as plain values.
pub enum EffectView {
    AcquireCapture(u32),
    ReleaseCapture,
    ProcessClip(PipelineView),
    ProcessText(PipelineView),
}

impl View for Effect {
    type V = EffectView;

    open spec fn view(&self) -> EffectView {
        match *self {
            Effect::AcquireCapture(gate) => EffectView::AcquireCapture(gate),
            Effect::ReleaseCapture => EffectView::ReleaseCapture,
            Effect::ProcessClip(p) => EffectView::ProcessClip(p@),
            Effect::ProcessText(p) => EffectView::ProcessText(p@),
        }
    }
}

impl EffectView {
    /// Whether the effect starts a pipeline.
    pub open spec fn spawns(self) -> bool {
        self is ProcessClip || self is ProcessText
    }
}

/// The views of a run of effects, in order.
pub open spec fn effect_views(effects: Seq<Effect>) -> Seq<EffectView> {
    Seq::new(effects.len(), |i: int| effects[i]@)
}

/// Whether every pipeline among the effects is fit to run.
pub open spec fn pipelines_wf(effects: Seq<Effect>) -> bool {
    forall|i: int|
        0 <= i < effects.len() ==> match #[trigger] effects[i] {
            Effect::ProcessClip(p) => p.wf(),
            Effect::ProcessText(p) => p.wf(),
            _ => true,
        }
}

/// The name under which the user's turns are shown.
pub open spec fn user_label() -> Seq<char> {
    "You"@
}

/// The name under which the agent's turns are shown.
pub open spec fn agent_label() -> Seq<char> {
    "Agent"@
}

/// The views of the shown turns, in order: who spoke, and what.
pub open spec fn shown_views(shown: Seq<(String, String)>) -> Seq<(Seq<char>, Seq<char>)> {
    Seq::new(shown.len(), |i: int| (shown[i].0@, shown[i].1@))
}

/// What the machine can be told.
#[derive(Debug, PartialEq, Eq)]
pub enum Input {
    /// The operator asks to listen.
    Start,
    /// The operator asks to stop.
    Stop,
    /// The microphone could not be opened, and why.
    CaptureFailed(String),
    /// The operator asks for calibration; the time now, in milliseconds.
    BeginCalibration(u64),
    /// The operator ends the voice phase of calibration.
    ConfirmCalibration,
    /// The operator presses the one button that starts and stops, or the
    /// hotkey that stands for it.
    MainButton,
    /// A tick with the microphone open: the time now, in milliseconds, and
    /// what the microphone reports.
    Level(u64, Reading),
    /// The next message of the pipeline in flight.
    Message(PipelineMessage),
    /// The operator has typed a turn.
    SubmitText(String),
    /// The operator asks to forget the conversation.
    ClearHistory,
    /// The sink reports that the operator is muted there, or not.
    MuteSignal(bool),
    /// Another preset comes into force: its name, its thresholds, its
    /// agent, and whether it listens to mute signals.
    SwitchPreset(String, ThresholdPair, AgentSettings, bool),
    /// The operator has edited the settings: the thresholds, the agent, and
    /// whether mute signals are listened to.
    ApplySettings(ThresholdPair, AgentSettings, bool),
}

/// The session state machine.
#[derive(Debug, PartialEq, Eq)]
pub struct Orchestrator {
    phase: SessionPhase,
    thresholds: ThresholdPair,
    detector: SpeechDetector,
    samples: Vec<u32>,
    phase_started_ms: u64,
    session: Option<ElizaClient>,
    in_flight: bool,
    status: Status,
    shown: Vec<(String, String)>,
    agent: AgentSettings,
    mute_detection: bool,
}

/// An [`Orchestrator`] as plain values.
pub struct OrchestratorView {
    pub phase: SessionPhase,
    pub thresholds: ThresholdPair,
    /// How many loud readings in a row the level monitor has counted.
    pub run: nat,
    /// The readings of the calibration phase under way.
    pub samples: Seq<u32>,
    /// When the calibration phase under way began, in milliseconds.
    pub phase_started_ms: u64,
    /// The conversational session, while the machine holds it.
    pub session: Option<ClientView>,
    /// Whether a pipeline is in flight.
    pub in_flight: bool,
    pub status: StatusView,
    /// The turns shown to the operator: who spoke, and what.
    pub shown: Seq<(Seq<char>, Seq<char>)>,
    pub agent: AgentSettingsView,
    /// Whether mute signals start and stop the listening.
    pub mute_detection: bool,
}

impl View for Orchestrator {
    type V = OrchestratorView;

    closed spec fn view(&self) -> OrchestratorView {
        OrchestratorView {
            phase: self.phase,
            thresholds: self.thresholds,
            run: self.detector.run(),
            samples: self.samples@,
            phase_started_ms: self.phase_started_ms,
            session: session_view(self.session),
            in_flight: self.in_flight,
            status: self.status@,
            shown: shown_views(self.shown@),
            agent: self.agent@,
            mute_detection: self.mute_detection,
        }
    }
}

/// A session with an empty history, made from the settings.
pub open spec fn fresh_session(agent: AgentSettingsView) -> ClientView {
    ClientView {
        server_url: agent.server_url,
        model: agent.model,
        turns: Seq::empty(),
        max_turns: agent.max_turns,
        system_prompt: agent.system_prompt,
    }
}

/// A pipeline that has not started.
pub open spec fn fresh_pipeline(spoken: bool, text: Seq<char>, session: Option<ClientView>) -> PipelineView {
    PipelineView { stage: Stage::Created, spoken, text, session }
}

impl OrchestratorView {
    /// What holds of the machine at all times.
    pub open spec fn wf(self) -> bool {
        &&& self.session matches Some(c) ==> c.turns.len() <= c.max_turns
        &&& self.run < DEBOUNCE_TICKS as nat
        &&& self.run > 0 ==> self.phase == SessionPhase::Monitoring
        &&& self.samples.len() > 0 ==> calibrating(self.phase)
        &&& self.phase == SessionPhase::Processing ==> self.in_flight
        &&& self.in_flight ==> self.session is None
    }

    /// The session that a turn would go to now: the one held, or a new one
    /// where none is held, none is in flight with a pipeline, and an agent
    /// is configured.
    pub open spec fn ready_session(self) -> Option<ClientView> {
        if self.session is None && !self.in_flight && self.agent.server_url.len() > 0 {
            Some(fresh_session(self.agent))
        } else {
            self.session
        }
    }

    /// The machine listening, with `status` shown.
    pub open spec fn listening(self, status: StatusView) -> OrchestratorView {
        OrchestratorView {
            phase: SessionPhase::Monitoring,
            status,
            run: 0,
            samples: Seq::empty(),
            session: self.ready_session(),
            ..self
        }
    }

    /// The effect that opens the microphone for listening.
    pub open spec fn acquire(self) -> EffectView {
        EffectView::AcquireCapture(self.thresholds.silence_threshold)
    }

    /// The machine at rest, with `status` shown.
    pub open spec fn resting(self, status: StatusView) -> OrchestratorView {
        OrchestratorView {
            phase: SessionPhase::Idle,
            status,
            run: 0,
            samples: Seq::empty(),
            ..self
        }
    }

    /// Start: from rest the machine begins to listen and asks for the
    /// microphone. In any other phase nothing happens.
    pub open spec fn start(self) -> (OrchestratorView, Seq<EffectView>) {
        if self.phase == SessionPhase::Idle {
            (self.listening(StatusView::Monitoring), seq![self.acquire()])
        } else {
            (self, Seq::empty())
        }
    }

    /// Stop: the machine comes to rest from any phase, and gives up the
    /// microphone if it holds it. No threshold is changed.
    pub open spec fn stop(self) -> (OrchestratorView, Seq<EffectView>) {
        (
            self.resting(StatusView::Stopped),
            if holds_capture(self.phase) {
                seq![EffectView::ReleaseCapture]
            } else {
                Seq::empty()
            },
        )
    }

    /// The microphone could not be opened: the machine comes to rest and
    /// shows why. Where the machine did not want the microphone, nothing
    /// happens.
    pub open spec fn capture_failed(self, reason: Seq<char>) -> OrchestratorView {
        if holds_capture(self.phase) {
            self.resting(StatusView::CaptureFailed(reason))
        } else {
            self
        }
    }

    /// Calibration begins, from rest only: the silence phase, with the
    /// microphone open and ungated.
    pub open spec fn begin_calibration(self, now_ms: u64) -> (OrchestratorView, Seq<EffectView>) {
        if self.phase == SessionPhase::Idle {
            (
                OrchestratorView {
                    phase: SessionPhase::CalibratingSilence,
                    status: StatusView::CalibratingSilence,
                    samples: Seq::empty(),
                    phase_started_ms: now_ms,
                    ..self
                },
                seq![EffectView::AcquireCapture(0)],
            )
        } else {
            (self, Seq::empty())
        }
    }

    /// The voice phase is confirmed: the start threshold becomes the mean
    /// of the readings of the phase, or stays where there is none, and the
    /// machine comes to rest. Outside the voice phase nothing happens.
    pub open spec fn confirm_calibration(self) -> (OrchestratorView, Seq<EffectView>) {
        if self.phase == SessionPhase::CalibratingVoice {
            let thresholds = after_voice_phase(self.thresholds, self.samples);
            (
                OrchestratorView {
                    phase: SessionPhase::Idle,
                    thresholds,
                    samples: Seq::empty(),
                    status: if self.samples.len() > 0 {
                        StatusView::Calibrated {
                            silence: thresholds.silence_threshold,
                            start: thresholds.start_threshold,
                        }
                    } else {
                        self.status
                    },
                    ..self
                },
                seq![EffectView::ReleaseCapture],
            )
        } else {
            (self, Seq::empty())
        }
    }

    /// The one button that starts and stops: at rest it starts, in the
    /// voice phase of calibration it confirms, in any other phase it stops.
    pub open spec fn main_button(self) -> (OrchestratorView, Seq<EffectView>) {
        if self.phase == SessionPhase::Idle {
            self.start()
        } else if self.phase == SessionPhase::CalibratingVoice {
            self.confirm_calibration()
        } else {
            self.stop()
        }
    }

    /// The time since the phase under way began.
    pub open spec fn phase_elapsed(self, now_ms: u64) -> int {
        if now_ms >= self.phase_started_ms {
            now_ms - self.phase_started_ms
        } else {
            0
        }
    }

    /// A tick with the microphone open.
    ///
    /// While listening, the reading goes to the debounce counter, and the
    /// second loud reading in a row starts the recording. While recording,
    /// a silence of the configured length ends it: a recording without
    /// samples sends the machine back to listening at once, whether or not
    /// a pipeline is in flight; a recording with samples goes to a new
    /// pipeline, unless one is still in flight, in which case it waits.
    /// While calibrating, the reading is kept; the silence phase
    /// ends after its fixed time, sets the silence threshold to its loudest
    /// reading and gives way to the voice phase.
    pub open spec fn level(self, now_ms: u64, reading: Reading) -> (
        OrchestratorView,
        Seq<EffectView>,
    ) {
        match self.phase {
            SessionPhase::Monitoring => {
                let (run, started) = debounce(
                    self.run,
                    reading.amplitude > self.thresholds.start_threshold,
                );
                if started {
                    (
                        OrchestratorView {
                            phase: SessionPhase::Recording,
                            status: StatusView::Recording,
                            run: 0,
                            ..self
                        },
                        Seq::empty(),
                    )
                } else {
                    (OrchestratorView { run, ..self }, Seq::empty())
                }
            },
            SessionPhase::Recording => if !speech_ended(
                reading.quiet_ms,
                self.thresholds.silence_duration_ms,
            ) {
                (self, Seq::empty())
            } else if reading.buffered_samples == 0 {
                (
                    self.listening(StatusView::NoAudio),
                    seq![EffectView::ReleaseCapture, self.acquire()],
                )
            } else if self.in_flight {
                (self, Seq::empty())
            } else {
                (
                    OrchestratorView {
                        phase: SessionPhase::Processing,
                        status: StatusView::Processing,
                        in_flight: true,
                        session: None,
                        ..self
                    },
                    seq![EffectView::ProcessClip(fresh_pipeline(true, Seq::empty(), self.session))],
                )
            },
            SessionPhase::CalibratingSilence => {
                let samples = self.samples.push(reading.amplitude);
                if self.phase_elapsed(now_ms) >= SILENCE_PHASE_MS {
                    (
                        OrchestratorView {
                            phase: SessionPhase::CalibratingVoice,
                            status: StatusView::CalibratingVoice,
                            thresholds: after_silence_phase(self.thresholds, samples),
                            samples: Seq::empty(),
                            phase_started_ms: now_ms,
                            ..self
                        },
                        Seq::empty(),
                    )
                } else {
                    (OrchestratorView { samples, ..self }, Seq::empty())
                }
            },
            SessionPhase::CalibratingVoice => (
                OrchestratorView { samples: self.samples.push(reading.amplitude), ..self },
                Seq::empty(),
            ),
            _ => (self, Seq::empty()),
        }
    }

    /// The last message of a pipeline has come: the pipeline is no longer
    /// in flight, the session it brought is held again, and the machine
    /// listens again if it is still processing. If the operator has stopped
    /// it meanwhile, it stays as it is, and `otherwise` is shown.
    pub open spec fn reclaim(
        self,
        session: Option<ClientView>,
        restarted: StatusView,
        otherwise: StatusView,
    ) -> (OrchestratorView, Seq<EffectView>) {
        let back = OrchestratorView { in_flight: false, session, ..self };
        if self.phase == SessionPhase::Processing {
            (back.listening(restarted), seq![back.acquire()])
        } else {
            (OrchestratorView { status: otherwise, ..back }, Seq::empty())
        }
    }

    /// A message of the pipeline in flight.
    pub open spec fn message(self, message: PipelineMessage) -> (
        OrchestratorView,
        Seq<EffectView>,
    ) {
        match message {
            PipelineMessage::TranscribingStarted => (
                OrchestratorView { status: StatusView::Transcribing, ..self },
                Seq::empty(),
            ),
            PipelineMessage::TranscriptComplete(text) => (
                OrchestratorView {
                    status: StatusView::Transcribed(text@),
                    shown: self.shown.push((user_label(), text@)),
                    ..self
                },
                Seq::empty(),
            ),
            PipelineMessage::ConversingStarted => (
                OrchestratorView { status: StatusView::Conversing, ..self },
                Seq::empty(),
            ),
            PipelineMessage::ReplyComplete(text) => (
                OrchestratorView {
                    status: StatusView::Replied(text@),
                    shown: self.shown.push((agent_label(), text@)),
                    ..self
                },
                Seq::empty(),
            ),
            PipelineMessage::Finished(session) => self.reclaim(
                Some(session@),
                StatusView::DeliveredAndListening,
                StatusView::Delivered,
            ),
            PipelineMessage::Failed(reason, session) => self.reclaim(
                if session is Some {
                    session_view(session)
                } else {
                    self.session
                },
                StatusView::Failed(reason@),
                self.status,
            ),
        }
    }

    /// A typed turn. A turn of nothing but white space is ignored, and so
    /// is any turn while a pipeline is in flight. Otherwise the turn is
    /// shown and goes to a new pipeline together with the session; the
    /// phase stays as it is.
    pub open spec fn submit(self, text: Seq<char>, blank: bool) -> (
        OrchestratorView,
        Seq<EffectView>,
    ) {
        if blank || self.in_flight {
            (self, Seq::empty())
        } else {
            (
                OrchestratorView {
                    status: StatusView::Sending,
                    shown: self.shown.push((user_label(), text)),
                    in_flight: true,
                    session: None,
                    ..self
                },
                seq![EffectView::ProcessText(fresh_pipeline(false, text, self.ready_session()))],
            )
        }
    }

    /// The conversation is forgotten: nothing is shown any more, and the
    /// session, if the machine holds it, has an empty history. Nothing is
    /// archived.
    pub open spec fn clear_history(self) -> OrchestratorView {
        match self.session {
            Some(c) => OrchestratorView {
                shown: Seq::empty(),
                session: Some(c.with_turns(Seq::empty())),
                status: StatusView::HistoryCleared,
                ..self
            },
            None => OrchestratorView { shown: Seq::empty(), ..self },
        }
    }

    /// A mute signal, where the machine listens to them: muted at rest
    /// means start, unmuted in any other phase means stop.
    pub open spec fn mute_signal(self, muted: bool) -> (OrchestratorView, Seq<EffectView>) {
        if !self.mute_detection {
            (self, Seq::empty())
        } else if muted && self.phase == SessionPhase::Idle {
            self.start()
        } else if !muted && self.phase != SessionPhase::Idle {
            self.stop()
        } else {
            (self, Seq::empty())
        }
    }

    /// Another preset comes into force: the machine stops, takes the new
    /// settings, and forgets the conversation and the session.
    pub open spec fn switch_preset(
        self,
        name: Seq<char>,
        thresholds: ThresholdPair,
        agent: AgentSettingsView,
        mute_detection: bool,
    ) -> (OrchestratorView, Seq<EffectView>) {
        (
            OrchestratorView {
                thresholds,
                agent,
                mute_detection,
                session: None,
                shown: Seq::empty(),
                ..self.resting(StatusView::Switched(name))
            },
            self.stop().1,
        )
    }

    /// Edited settings come into force: the thresholds at the next
    /// reading, the agent with the next session that is made. Nothing else
    /// changes; the session held and the conversation stay.
    pub open spec fn apply_settings(
        self,
        thresholds: ThresholdPair,
        agent: AgentSettingsView,
        mute_detection: bool,
    ) -> OrchestratorView {
        OrchestratorView { thresholds, agent, mute_detection, ..self }
    }

    /// What the machine does on an input: the machine afterwards, and the
    /// effects to carry out, in order.
    pub open spec fn apply(self, input: Input) -> (OrchestratorView, Seq<EffectView>) {
        match input {
            Input::Start => self.start(),
            Input::Stop => self.stop(),
            Input::CaptureFailed(reason) => (self.capture_failed(reason@), Seq::empty()),
            Input::BeginCalibration(now_ms) => self.begin_calibration(now_ms),
            Input::ConfirmCalibration => self.confirm_calibration(),
            Input::MainButton => self.main_button(),
            Input::Level(now_ms, reading) => self.level(now_ms, reading),
            Input::Message(message) => self.message(message),
            Input::SubmitText(text) => self.submit(text@, trimmed(text@).len() == 0),
            Input::ClearHistory => (self.clear_history(), Seq::empty()),
            Input::MuteSignal(muted) => self.mute_signal(muted),
            Input::SwitchPreset(name, thresholds, agent, mute_detection) => self.switch_preset(
                name@,
                thresholds,
                agent@,
                mute_detection,
            ),
            Input::ApplySettings(thresholds, agent, mute_detection) => (
                self.apply_settings(thresholds, agent@, mute_detection),
                Seq::empty(),
            ),
        }
    }
}

/// Whether the session that a message brings is within its capacity.
pub open spec fn message_wf(message: PipelineMessage) -> bool {
    match message {
        PipelineMessage::Finished(c) => c.wf(),
        PipelineMessage::Failed(_, Some(c)) => c.wf(),
        _ => true,
    }
}

/// Whether an input is fit to be handled.
pub open spec fn input_wf(input: Input) -> bool {
    match input {
        Input::Message(message) => message_wf(message),
        _ => true,
    }
}

fn no_effects() -> (v: Vec<Effect>)
    ensures
        effect_views(v@) == Seq::<EffectView>::empty(),
        pipelines_wf(v@),
{
    let v: Vec<Effect> = Vec::new();
    assert(effect_views(v@) =~= Seq::<EffectView>::empty());
    v
}

fn one_effect(e: Effect) -> (v: Vec<Effect>)
    requires
        pipelines_wf(seq![e]),
    ensures
        effect_views(v@) == seq![e@],
        pipelines_wf(v@),
{
    let mut v: Vec<Effect> = Vec::new();
    v.push(e);
    assert(effect_views(v@) =~= seq![e@]);
    assert(v@ =~= seq![e]);
    v
}

fn two_effects(a: Effect, b: Effect) -> (v: Vec<Effect>)
    requires
        pipelines_wf(seq![a, b]),
    ensures
        effect_views(v@) == seq![a@, b@],
        pipelines_wf(v@),
{
    let mut v: Vec<Effect> = Vec::new();
    v.push(a);
    v.push(b);
    assert(effect_views(v@) =~= seq![a@, b@]);
    assert(v@ =~= seq![a, b]);
    v
}

impl Orchestrator {
    /// What holds of the machine at all times.
    pub closed spec fn wf(&self) -> bool {
        &&& self@.wf()
        &&& self.detector.wf()
    }

    /// What holds of the machine holds of its view, so that the laws on
    /// views can be used of a machine.
    pub proof fn lemma_wf_of_view(&self)
        requires
            self.wf(),
        ensures
            self@.wf(),
    {
    }

    /// A machine at rest, with no session yet.
    pub fn new(thresholds: ThresholdPair, agent: AgentSettings, mute_detection: bool) -> (o: Self)
        ensures
            o.wf(),
            o@ == (OrchestratorView {
                phase: SessionPhase::Idle,
                thresholds,
                run: 0,
                samples: Seq::empty(),
                phase_started_ms: 0,
                session: None,
                in_flight: false,
                status: StatusView::Ready,
                shown: Seq::empty(),
                agent: agent@,
                mute_detection,
            }),
    {
        let o = Orchestrator {
            phase: SessionPhase::Idle,
            thresholds,
            detector: SpeechDetector::new(),
            samples: Vec::new(),
            phase_started_ms: 0,
            session: None,
            in_flight: false,
            status: Status::Ready,
            shown: Vec::new(),
            agent,
            mute_detection,
        };
        assert(o@.shown =~= Seq::empty());
        assert(o@.samples =~= Seq::empty());
        o
    }

    /// The phase the machine is in.
    pub fn phase(&self) -> (phase: SessionPhase)
        ensures
            phase == self@.phase,
    {
        self.phase
    }

    /// The thresholds in force.
    pub fn thresholds(&self) -> (thresholds: ThresholdPair)
        ensures
            thresholds == self@.thresholds,
    {
        self.thresholds
    }

    /// Whether a pipeline is in flight.
    pub fn is_in_flight(&self) -> (in_flight: bool)
        ensures
            in_flight == self@.in_flight,
    {
        self.in_flight
    }

    /// The status to show.
    pub fn status(&self) -> (status: &Status)
        ensures
            status@ == self@.status,
    {
        &self.status
    }

    /// The status to show, as a line of text.
    pub fn status_message(&self) -> (text: String)
        ensures
            text@ == self@.status.text(),
    {
        self.status.text()
    }

    /// The turns to show: who spoke, and what.
    pub fn conversation_history(&self) -> (shown: &Vec<(String, String)>)
        ensures
            shown_views(shown@) == self@.shown,
    {
        &self.shown
    }

    /// The conversational session, while the machine holds it.
    pub fn session(&self) -> (session: &Option<ElizaClient>)
        ensures
            session_view(*session) == self@.session,
    {
        &self.session
    }

    /// The request that archives the conversation when the relay shuts
    /// down, where the machine holds a session with a history.
    pub fn on_exit(&self) -> (archive: Option<Outbound>)
        ensures
            outbound_view(archive) == match self@.session {
                Some(c) => if c.turns.len() == 0 {
                    None
                } else {
                    Some(c.archive_of(c.turns))
                },
                None => None,
            },
    {
        match &self.session {
            Some(c) => c.save_memory(),
            None => None,
        }
    }

    fn listen(&mut self, status: Status)
        requires
            old(self)@.session matches Some(c) ==> c.turns.len() <= c.max_turns,
            old(self)@.in_flight ==> old(self)@.session is None,
        ensures
            final(self).wf(),
            final(self)@ == old(self)@.listening(status@),
    {
        self.phase = SessionPhase::Monitoring;
        self.status = status;
        self.detector.reset();
        self.samples.clear();
        if self.session.is_none() && !self.in_flight && !self.agent.server_url.as_str().is_empty() {
            self.session = Some(
                ElizaClient::new(
                    self.agent.server_url.clone(),
                    self.agent.model.clone(),
                    self.agent.max_history_length,
                    self.agent.system_prompt.clone(),
                ),
            );
        }
    }

    fn rest(&mut self, status: Status)
        requires
            old(self).wf(),
        ensures
            final(self).wf(),
            final(self)@ == old(self)@.resting(status@),
    {
        self.phase = SessionPhase::Idle;
        self.status = status;
        self.detector.reset();
        self.samples.clear();
    }

    fn has_capture(&self) -> (r: bool)
        ensures
            r == holds_capture(self@.phase),
    {
        match self.phase {
            SessionPhase::Monitoring => true,
            SessionPhase::Recording => true,
            SessionPhase::CalibratingSilence => true,
            SessionPhase::CalibratingVoice => true,
            _ => false,
        }
    }

    /// Start listening. See [`OrchestratorView::start`].
    pub fn start_monitoring(&mut self) -> (effects: Vec<Effect>)
        requires
            old(self).wf(),
        ensures
            final(self).wf(),
            (final(self)@, effect_views(effects@)) == old(self)@.start(),
            pipelines_wf(effects@),
    {
        match self.phase {
            SessionPhase::Idle => {
                let acquire = Effect::AcquireCapture(self.thresholds.silence_threshold);
                self.listen(Status::Monitoring);
                one_effect(acquire)
            },
            _ => no_effects(),
        }
    }

    /// Stop. See [`OrchestratorView::stop`].
    pub fn stop_monitoring(&mut self) -> (effects: Vec<Effect>)
        requires
            old(self).wf(),
        ensures
            final(self).wf(),
            (final(self)@, effect_views(effects@)) == old(self)@.stop(),
            pipelines_wf(effects@),
    {
        let held = self.has_capture();
        self.rest(Status::Stopped);
        if held {
            one_effect(Effect::ReleaseCapture)
        } else {
            no_effects()
        }
    }

    /// The microphone could not be opened. See
    /// [`OrchestratorView::capture_failed`].
    pub fn capture_failed(&mut self, reason: String)
        requires
            old(self).wf(),
        ensures
            final(self).wf(),
            final(self)@ == old(self)@.capture_failed(reason@),
    {
        if self.has_capture() {
            self.rest(Status::CaptureFailed(reason));
        }
    }

    /// Begin calibration. See [`OrchestratorView::begin_calibration`].
    pub fn begin_calibration(&mut self, now_ms: u64) -> (effects: Vec<Effect>)
        requires
            old(self).wf(),
        ensures
            final(self).wf(),
            (final(self)@, effect_views(effects@)) == old(self)@.begin_calibration(now_ms),
            pipelines_wf(effects@),
    {
        match self.phase {
            SessionPhase::Idle => {
                self.phase = SessionPhase::CalibratingSilence;
                self.status = Status::CalibratingSilence;
                self.samples.clear();
                self.phase_started_ms = now_ms;
                one_effect(Effect::AcquireCapture(0))
            },
            _ => no_effects(),
        }
    }

    /// Confirm the voice phase of calibration. See
    /// [`OrchestratorView::confirm_calibration`].
    pub fn confirm_calibration_voice_phase(&mut self) -> (effects: Vec<Effect>)
        requires
            old(self).wf(),
        ensures
            final(self).wf(),
            (final(self)@, effect_views(effects@)) == old(self)@.confirm_calibration(),
            pipelines_wf(effects@),
    {
        match self.phase {
            SessionPhase::CalibratingVoice => {
                self.thresholds = finish_voice_phase(self.thresholds, &self.samples);
                if self.samples.len() > 0 {
                    self.status = Status::Calibrated {
                        silence: self.thresholds.silence_threshold,
                        start: self.thresholds.start_threshold,
                    };
                }
                self.phase = SessionPhase::Idle;
                self.samples.clear();
                one_effect(Effect::ReleaseCapture)
            },
            _ => no_effects(),
        }
    }

    /// The one button that starts and stops, or the hotkey that stands for
    /// it. See [`OrchestratorView::main_button`].
    pub fn on_main_button(&mut self) -> (effects: Vec<Effect>)
        requires
            old(self).wf(),
        ensures
            final(self).wf(),
            (final(self)@, effect_views(effects@)) == old(self)@.main_button(),
            pipelines_wf(effects@),
    {
        match self.phase {
            SessionPhase::Idle => self.start_monitoring(),
            SessionPhase::CalibratingVoice => self.confirm_calibration_voice_phase(),
            _ => self.stop_monitoring(),
        }
    }

    /// A tick with the microphone open. See [`OrchestratorView::level`].
    pub fn on_level(&mut self, now_ms: u64, reading: Reading) -> (effects: Vec<Effect>)
        requires
            old(self).wf(),
        ensures
            final(self).wf(),
            (final(self)@, effect_views(effects@)) == old(self)@.level(now_ms, reading),
            pipelines_wf(effects@),
    {
        match self.phase {
            SessionPhase::Monitoring => {
                if self.detector.observe(reading.amplitude, self.thresholds.start_threshold) {
                    self.phase = SessionPhase::Recording;
                    self.status = Status::Recording;
                }
                no_effects()
            },
            SessionPhase::Recording => {
                if !has_speech_ended(reading.quiet_ms, self.thresholds.silence_duration_ms) {
                    no_effects()
                } else if reading.buffered_samples == 0 {
                    let acquire = Effect::AcquireCapture(self.thresholds.silence_threshold);
                    self.listen(Status::NoAudio);
                    two_effects(Effect::ReleaseCapture, acquire)
                } else if self.in_flight {
                    no_effects()
                } else {
                    let pipeline = Pipeline::for_clip(self.session.take());
                    self.phase = SessionPhase::Processing;
                    self.status = Status::Processing;
                    self.in_flight = true;
                    one_effect(Effect::ProcessClip(pipeline))
                }
            },
            SessionPhase::CalibratingSilence => {
                self.samples.push(reading.amplitude);
                let elapsed = if now_ms >= self.phase_started_ms {
                    now_ms - self.phase_started_ms
                } else {
                    0
                };
                if elapsed >= SILENCE_PHASE_MS {
                    self.thresholds = finish_silence_phase(self.thresholds, &self.samples);
                    self.samples.clear();
                    self.phase_started_ms = now_ms;
                    self.phase = SessionPhase::CalibratingVoice;
                    self.status = Status::CalibratingVoice;
                }
                no_effects()
            },
            SessionPhase::CalibratingVoice => {
                self.samples.push(reading.amplitude);
                no_effects()
            },
            _ => no_effects(),
        }
    }

    fn take_back(&mut self, session: Option<ElizaClient>, restarted: Status, otherwise: Status) -> (effects: Vec<Effect>)
        requires
            old(self).wf(),
            session matches Some(c) ==> c.wf(),
        ensures
            final(self).wf(),
            (final(self)@, effect_views(effects@)) == old(self)@.reclaim(
                session_view(session),
                restarted@,
                otherwise@,
            ),
            pipelines_wf(effects@),
    {
        self.in_flight = false;
        self.session = session;
        match self.phase {
            SessionPhase::Processing => {
                let acquire = Effect::AcquireCapture(self.thresholds.silence_threshold);
                self.listen(restarted);
                one_effect(acquire)
            },
            _ => {
                self.status = otherwise;
                no_effects()
            },
        }
    }

    /// A message of the pipeline in flight. See
    /// [`OrchestratorView::message`].
    pub fn on_pipeline_message(&mut self, message: PipelineMessage) -> (effects: Vec<Effect>)
        requires
            old(self).wf(),
            message_wf(message),
        ensures
            final(self).wf(),
            (final(self)@, effect_views(effects@)) == old(self)@.message(message),
            pipelines_wf(effects@),
    {
        match message {
            PipelineMessage::TranscribingStarted => {
                self.status = Status::Transcribing;
                no_effects()
            },
            PipelineMessage::TranscriptComplete(text) => {
                let ghost before = self@.shown;
                self.status = Status::Transcribed(text.clone());
                self.shown.push((owned("You"), text));
                assert(self@.shown =~= before.push((user_label(), text@)));
                no_effects()
            },
            PipelineMessage::ConversingStarted => {
                self.status = Status::Conversing;
                no_effects()
            },
            PipelineMessage::ReplyComplete(text) => {
                let ghost before = self@.shown;
                self.status = Status::Replied(text.clone());
                self.shown.push((owned("Agent"), text));
                assert(self@.shown =~= before.push((agent_label(), text@)));
                no_effects()
            },
            PipelineMessage::Finished(session) => self.take_back(
                Some(session),
                Status::DeliveredAndListening,
                Status::Delivered,
            ),
            PipelineMessage::Failed(reason, session) => {
                if session.is_some() {
                    self.in_flight = false;
                    self.session = session;
                } else {
                    self.in_flight = false;
                }
                match self.phase {
                    SessionPhase::Processing => {
                        let acquire = Effect::AcquireCapture(self.thresholds.silence_threshold);
                        self.listen(Status::Failed(reason));
                        one_effect(acquire)
                    },
                    _ => no_effects(),
                }
            },
        }
    }

    /// A typed turn, and whether it is nothing but white space. See
    /// [`OrchestratorView::submit`].
    pub fn submit_turn(&mut self, text: String, blank: bool) -> (effects: Vec<Effect>)
        requires
            old(self).wf(),
        ensures
            final(self).wf(),
            (final(self)@, effect_views(effects@)) == old(self)@.submit(text@, blank),
            pipelines_wf(effects@),
    {
        if blank || self.in_flight {
            return no_effects();
        }
        if self.session.is_none() && !self.agent.server_url.as_str().is_empty() {
            self.session = Some(
                ElizaClient::new(
                    self.agent.server_url.clone(),
                    self.agent.model.clone(),
                    self.agent.max_history_length,
                    self.agent.system_prompt.clone(),
                ),
            );
        }
        let ghost before = self@.shown;
        let pipeline = Pipeline::for_text(text.clone(), self.session.take());
        self.shown.push((owned("You"), text));
        assert(self@.shown =~= before.push((user_label(), text@)));
        self.status = Status::Sending;
        self.in_flight = true;
        one_effect(Effect::ProcessText(pipeline))
    }

    /// A typed turn. A turn that is empty once the white space at its ends
    /// is taken off is ignored. See [`OrchestratorView::submit`].
    pub fn submit_text_turn(&mut self, text: String) -> (effects: Vec<Effect>)
        requires
            old(self).wf(),
        ensures
            final(self).wf(),
            (final(self)@, effect_views(effects@)) == old(self)@.submit(
                text@,
                trimmed(text@).len() == 0,
            ),
            pipelines_wf(effects@),
    {
        let blank = trim(text.as_str()).is_empty();
        self.submit_turn(text, blank)
    }

    /// Forget the conversation. See [`OrchestratorView::clear_history`].
    pub fn clear_history(&mut self)
        requires
            old(self).wf(),
        ensures
            final(self).wf(),
            final(self)@ == old(self)@.clear_history(),
    {
        self.shown.clear();
        assert(self@.shown =~= Seq::empty());
        if self.session.is_some() {
            let mut session = self.session.take().unwrap();
            session.clear_history();
            self.session = Some(session);
            self.status = Status::HistoryCleared;
        }
    }

    /// A mute signal from the sink. See [`OrchestratorView::mute_signal`].
    pub fn on_mute_signal(&mut self, muted: bool) -> (effects: Vec<Effect>)
        requires
            old(self).wf(),
        ensures
            final(self).wf(),
            (final(self)@, effect_views(effects@)) == old(self)@.mute_signal(muted),
            pipelines_wf(effects@),
    {
        if !self.mute_detection {
            return no_effects();
        }
        let idle = match self.phase {
            SessionPhase::Idle => true,
            _ => false,
        };
        if muted && idle {
            self.start_monitoring()
        } else if !muted && !idle {
            self.stop_monitoring()
        } else {
            no_effects()
        }
    }

    /// Another preset comes into force. See
    /// [`OrchestratorView::switch_preset`].
    pub fn switch_preset(
        &mut self,
        name: String,
        thresholds: ThresholdPair,
        agent: AgentSettings,
        mute_detection: bool,
    ) -> (effects: Vec<Effect>)
        requires
            old(self).wf(),
        ensures
            final(self).wf(),
            (final(self)@, effect_views(effects@)) == old(self)@.switch_preset(
                name@,
                thresholds,
                agent@,
                mute_detection,
            ),
            pipelines_wf(effects@),
    {
        let effects = self.stop_monitoring();
        self.thresholds = thresholds;
        self.agent = agent;
        self.mute_detection = mute_detection;
        self.session = None;
        self.shown.clear();
        assert(self@.shown =~= Seq::empty());
        self.status = Status::Switched(name);
        effects
    }

    /// Edited settings come into force. See
    /// [`OrchestratorView::apply_settings`].
    pub fn apply_settings(
        &mut self,
        thresholds: ThresholdPair,
        agent: AgentSettings,
        mute_detection: bool,
    )
        requires
            old(self).wf(),
        ensures
            final(self).wf(),
            final(self)@ == old(self)@.apply_settings(thresholds, agent@, mute_detection),
            final(self)@ == (OrchestratorView {
                thresholds,
                agent: agent@,
                mute_detection,
                ..old(self)@
            }),
    {
        self.thresholds = thresholds;
        self.agent = agent;
        self.mute_detection = mute_detection;
    }

    /// Takes one input and returns the effects to carry out, in order.
    pub fn handle(&mut self, input: Input) -> (effects: Vec<Effect>)
        requires
            old(self).wf(),
            input_wf(input),
        ensures
            final(self).wf(),
            (final(self)@, effect_views(effects@)) == old(self)@.apply(input),
            pipelines_wf(effects@),
    {
        match input {
            Input::Start => self.start_monitoring(),
            Input::Stop => self.stop_monitoring(),
            Input::CaptureFailed(reason) => {
                self.capture_failed(reason);
                no_effects()
            },
            Input::BeginCalibration(now_ms) => self.begin_calibration(now_ms),
            Input::ConfirmCalibration => self.confirm_calibration_voice_phase(),
            Input::MainButton => self.on_main_button(),
            Input::Level(now_ms, reading) => self.on_level(now_ms, reading),
            Input::Message(message) => self.on_pipeline_message(message),
            Input::SubmitText(text) => self.submit_text_turn(text),
            Input::ClearHistory => {
                self.clear_history();
                no_effects()
            },
            Input::MuteSignal(muted) => self.on_mute_signal(muted),
            Input::SwitchPreset(name, thresholds, agent, mute_detection) => self.switch_preset(
                name,
                thresholds,
                agent,
                mute_detection,
            ),
            Input::ApplySettings(thresholds, agent, mute_detection) => {
                self.apply_settings(thresholds, agent, mute_detection);
                no_effects()
            },
        }
    }
}

/// How many of the effects start a pipeline.
pub open spec fn spawn_count(effects: Seq<EffectView>) -> nat
    decreases effects.len(),
{
    if effects.len() == 0 {
        0
    } else {
        spawn_count(effects.drop_last()) + if effects.last().spawns() {
            1nat
        } else {
            0nat
        }
    }
}

/// Whether the input is the last message of a pipeline.
pub open spec fn ends_flight(input: Input) -> bool {
    match input {
        Input::Message(PipelineMessage::Finished(_)) => true,
        Input::Message(PipelineMessage::Failed(_, _)) => true,
        _ => false,
    }
}

/// What holds of the machine at all times holds after every input.
pub proof fn lemma_apply_keeps_wf(v: OrchestratorView, input: Input)
    requires
        v.wf(),
        input_wf(input),
    ensures
        v.apply(input).0.wf(),
{
}

/// At most one pipeline is in flight at any time. No input starts a
/// pipeline while one is in flight, whatever the operator stops and starts
/// in the meantime; no input starts two; an input that starts one puts it
/// in flight; and a pipeline stays in flight until its last message has
/// been taken.
pub proof fn lemma_one_pipeline_at_a_time(v: OrchestratorView, input: Input)
    requires
        v.wf(),
        input_wf(input),
    ensures
        spawn_count(v.apply(input).1) <= 1,
        v.in_flight ==> spawn_count(v.apply(input).1) == 0,
        spawn_count(v.apply(input).1) == 1 ==> v.apply(input).0.in_flight,
        v.in_flight && !ends_flight(input) ==> v.apply(input).0.in_flight,
        v.apply(input).0.phase == SessionPhase::Processing && v.phase != SessionPhase::Processing
            ==> spawn_count(v.apply(input).1) == 1,
{
    reveal_with_fuel(spawn_count, 3);
    let effects = v.apply(input).1;
    assert(effects.len() <= 2);
    if effects.len() == 2 {
        assert(effects.drop_last().len() == 1);
        assert(!effects[0].spawns() && !effects[1].spawns());
        assert(effects.drop_last().last() == effects[0]);
    }
}

/// The session is with the machine or with the pipeline in flight, never
/// with both: a pipeline that is started takes the session along, and the
/// machine holds none until the pipeline's last message brings it back.
pub proof fn lemma_session_moves_with_pipeline(v: OrchestratorView, input: Input)
    requires
        v.wf(),
        input_wf(input),
    ensures
        forall|i: int|
            0 <= i < v.apply(input).1.len() ==> match #[trigger] v.apply(input).1[i] {
                EffectView::ProcessClip(p) => p.session == v.session && v.apply(
                    input,
                ).0.session is None,
                EffectView::ProcessText(p) => p.session == v.ready_session() && v.apply(
                    input,
                ).0.session is None,
                _ => true,
            },
        v.apply(input).0.in_flight ==> v.apply(input).0.session is None,
{
}

/// A failed turn does not cost the conversation: when the failure message
/// brings the session back while the machine is processing, the machine
/// holds that very session again, listens again, asks for the microphone,
/// and shows the reason.
pub proof fn lemma_failure_returns_to_monitoring(
    v: OrchestratorView,
    reason: String,
    session: ElizaClient,
)
    requires
        v.wf(),
        v.phase == SessionPhase::Processing,
        session.wf(),
    ensures
        ({
            let (next, effects) = v.message(PipelineMessage::Failed(reason, Some(session)));
            &&& next.phase == SessionPhase::Monitoring
            &&& next.session == Some(session@)
            &&& !next.in_flight
            &&& next.status == StatusView::Failed(reason@)
            &&& effects == seq![v.acquire()]
        }),
{
}

/// A finished turn brings the session back and the machine listens again.
pub proof fn lemma_success_returns_to_monitoring(v: OrchestratorView, session: ElizaClient)
    requires
        v.wf(),
        v.phase == SessionPhase::Processing,
        session.wf(),
    ensures
        ({
            let (next, effects) = v.message(PipelineMessage::Finished(session));
            &&& next.phase == SessionPhase::Monitoring
            &&& next.session == Some(session@)
            &&& !next.in_flight
            &&& effects == seq![v.acquire()]
        }),
{
}

/// Where the operator has stopped the machine while a pipeline was in
/// flight, the last message still brings the session back, but the machine
/// does not start to listen on its own.
pub proof fn lemma_last_message_after_stop(v: OrchestratorView, message: PipelineMessage)
    requires
        v.wf(),
        v.phase == SessionPhase::Processing,
        message matches PipelineMessage::Finished(_) || message matches PipelineMessage::Failed(
            _,
            Some(_),
        ),
    ensures
        ({
            let stopped = v.stop().0;
            let (next, effects) = stopped.message(message);
            &&& stopped.phase == SessionPhase::Idle
            &&& stopped.in_flight
            &&& next.phase == SessionPhase::Idle
            &&& !next.in_flight
            &&& next.session == match message {
                PipelineMessage::Finished(c) => Some(c@),
                PipelineMessage::Failed(_, c) => session_view(c),
                _ => None,
            }
            &&& effects.len() == 0
        }),
{
}

/// Forgetting the conversation twice is the same as forgetting it once:
/// nothing is shown and the history is empty after the first time and
/// after the second, and nothing is archived either time.
pub proof fn lemma_clear_history_is_idempotent(v: OrchestratorView)
    ensures
        v.clear_history().shown.len() == 0,
        v.clear_history().session matches Some(c) ==> c.turns.len() == 0,
        v.clear_history().clear_history() == v.clear_history(),
        v.apply(Input::ClearHistory).1.len() == 0,
{
}

/// While the machine listens, two loud readings in a row start the
/// recording at the second, and a loud reading followed by a quiet one
/// starts nothing.
pub proof fn lemma_recording_starts_on_second_loud_reading(
    v: OrchestratorView,
    now_ms: u64,
    first: Reading,
    second: Reading,
)
    requires
        v.phase == SessionPhase::Monitoring,
        v.run == 0,
        first.amplitude > v.thresholds.start_threshold,
    ensures
        ({
            let after_first = v.level(now_ms, first).0;
            let after_second = after_first.level(now_ms, second).0;
            &&& after_first.phase == SessionPhase::Monitoring
            &&& second.amplitude > v.thresholds.start_threshold ==> after_second.phase
                == SessionPhase::Recording
            &&& second.amplitude <= v.thresholds.start_threshold ==> after_second.phase
                == SessionPhase::Monitoring && after_second.run == 0
        }),
{
}

/// A recording ends exactly when the level has stayed at or below the
/// threshold for the silence duration, with one exception: a recording
/// with samples waits while a pipeline is in flight. Until the silence has
/// lasted, nothing changes and the microphone stays open.
pub proof fn lemma_recording_ends_on_silence(v: OrchestratorView, now_ms: u64, reading: Reading)
    requires
        v.phase == SessionPhase::Recording,
    ensures
        ({
            let (next, effects) = v.level(now_ms, reading);
            let ended = speech_ended(reading.quiet_ms, v.thresholds.silence_duration_ms);
            &&& !ended ==> next == v && effects.len() == 0
            &&& ended && (reading.buffered_samples == 0 || !v.in_flight) ==> next.phase
                != SessionPhase::Recording
            &&& next.phase != SessionPhase::Recording ==> ended
            &&& ended && reading.buffered_samples > 0 && v.in_flight ==> next == v && effects.len()
                == 0
        }),
{
}

/// A recording that ends without a sample sends the machine back to
/// listening at once, whether or not a pipeline is in flight: no pipeline
/// is started, the session stays where it is, and the microphone is opened
/// afresh.
pub proof fn lemma_empty_recording_returns_to_listening(
    v: OrchestratorView,
    now_ms: u64,
    reading: Reading,
)
    requires
        v.phase == SessionPhase::Recording,
        speech_ended(reading.quiet_ms, v.thresholds.silence_duration_ms),
        reading.buffered_samples == 0,
    ensures
        ({
            let (next, effects) = v.level(now_ms, reading);
            &&& next.phase == SessionPhase::Monitoring
            &&& next.status == StatusView::NoAudio
            &&& next.in_flight == v.in_flight
            &&& next.session == v.ready_session()
            &&& effects == seq![EffectView::ReleaseCapture, v.acquire()]
        }),
{
}

/// Stopping never changes a threshold: a calibration that is stopped
/// leaves both thresholds as its finished phases set them.
pub proof fn lemma_stop_commits_nothing(v: OrchestratorView)
    ensures
        v.stop().0.thresholds == v.thresholds,
        v.stop().0.phase == SessionPhase::Idle,
{
}

} // verus!
