//! The relay pipeline: one utterance on its way from recording to
//! delivered reply.
//!
//! A pipeline is a small machine. It is told what has happened
//! ([`Event`]) and answers with the progress messages to pass on, in order,
//! and with the one thing to do next ([`Action`]). It owns the
//! conversational session while it runs and hands it back in its last
//! message, whether the run succeeded or not.
//!
//! A recording goes through transcription, a relay of the transcript as a
//! quotation, the conversation with the agent, and the relay of the reply.
//! A typed turn skips the transcription.

use crate::eliza::{
    assistant_turn, chat_url, outbound_view, reply_of, user_turn, ChatOutcome, ClientView,
    ElizaClient, ElizaErrorView, Outbound, OutboundView,
};
use crate::text::{join2, owned};
use crate::vrchat::{delivery_failure, osc_text_message, Datagram, Delivery, VRChatClient, VRChatErrorView};
use vstd::prelude::*;

verus! {

/// What a pipeline reports while it runs. The last message of a run is
/// `Finished` or `Failed`.
#[derive(Debug, PartialEq, Eq)]
pub enum PipelineMessage {
    TranscribingStarted,
    TranscriptComplete(String),
    ConversingStarted,
    ReplyComplete(String),
    /// The run succeeded; the session comes back.
    Finished(ElizaClient),
    /// The run failed, and why; the session comes back if there was one.
    Failed(String, Option<ElizaClient>),
}

/// A [`PipelineMessage`] as plain values.
pub enum PipelineMessageView {
    TranscribingStarted,
    TranscriptComplete(Seq<char>),
    ConversingStarted,
    ReplyComplete(Seq<char>),
    Finished(ClientView),
    Failed(Seq<char>, Option<ClientView>),
}

/// The view of an optional session.
pub open spec fn session_view(session: Option<ElizaClient>) -> Option<ClientView> {
    match session {
        Some(c) => Some(c@),
        None => None,
    }
}

impl View for PipelineMessage {
    type V = PipelineMessageView;

    open spec fn view(&self) -> PipelineMessageView {
        match *self {
            PipelineMessage::TranscribingStarted => PipelineMessageView::TranscribingStarted,
            PipelineMessage::TranscriptComplete(t) => PipelineMessageView::TranscriptComplete(t@),
            PipelineMessage::ConversingStarted => PipelineMessageView::ConversingStarted,
            PipelineMessage::ReplyComplete(t) => PipelineMessageView::ReplyComplete(t@),
            PipelineMessage::Finished(c) => PipelineMessageView::Finished(c@),
            PipelineMessage::Failed(reason, c) => PipelineMessageView::Failed(
                reason@,
                session_view(c),
            ),
        }
    }
}

impl PipelineMessageView {
    /// Whether the message ends a run.
    pub open spec fn is_terminal(self) -> bool {
        self is Finished || self is Failed
    }
}

/// The views of a run of messages, in order.
pub open spec fn message_views(messages: Seq<PipelineMessage>) -> Seq<PipelineMessageView> {
    Seq::new(messages.len(), |i: int| messages[i]@)
}

/// Where a pipeline stands.
#[derive(Clone, Copy, Debug, PartialEq, Eq, Structural)]
pub enum Stage {
    /// Not started yet.
    Created,
    /// Waiting for the transcript.
    Transcribing,
    /// Waiting for the relay of the quoted transcript.
    RelayingTranscript,
    /// Waiting for the agent's reply.
    Conversing,
    /// Waiting for the relay of the reply.
    RelayingReply,
    /// The last message has been given out.
    Done,
}

/// What the driver of a pipeline has to report.
#[derive(Debug, PartialEq, Eq)]
pub enum Event {
    /// The pipeline is to start.
    Start,
    /// The transcription service has answered: the transcript, or why
    /// there is none.
    Transcribed(Result<String, String>),
    /// The quoted transcript has been sent to the sink, or not.
    TranscriptRelayed(Delivery),
    /// The agent has answered, or not.
    Conversed(ChatOutcome),
    /// The reply has been sent to the sink, or not.
    ReplyRelayed(Delivery),
}

/// What the driver of a pipeline has to do next.
#[derive(Debug, PartialEq, Eq)]
pub enum Action {
    /// Transcribe the recording, then report `Transcribed`.
    Transcribe,
    /// Send the datagram, then report `TranscriptRelayed`.
    RelayTranscript(Datagram),
    /// Post the request, then report `Conversed`.
    Converse(Outbound),
    /// Send the datagram, then report `ReplyRelayed`.
    RelayReply(Datagram),
    /// Nothing: the run is over.
    Stop,
}

/// An [`Action`] as plain values.
pub enum ActionView {
    Transcribe,
    RelayTranscript(DatagramView),
    Converse(OutboundView),
    RelayReply(DatagramView),
    Stop,
}

/// A datagram as plain values.
pub struct DatagramView {
    pub target_addr: Seq<char>,
    pub payload: Seq<u8>,
}

/// The view of a datagram.
pub open spec fn datagram_view(d: Datagram) -> DatagramView {
    DatagramView { target_addr: d.target_addr@, payload: d.payload@ }
}

impl View for Action {
    type V = ActionView;

    open spec fn view(&self) -> ActionView {
        match *self {
            Action::Transcribe => ActionView::Transcribe,
            Action::RelayTranscript(d) => ActionView::RelayTranscript(datagram_view(d)),
            Action::Converse(o) => ActionView::Converse(o@),
            Action::RelayReply(d) => ActionView::RelayReply(datagram_view(d)),
            Action::Stop => ActionView::Stop,
        }
    }
}

/// What one step of a pipeline gives out.
#[derive(Debug, PartialEq, Eq)]
pub struct Step {
    /// The progress messages to pass on, in this order.
    pub messages: Vec<PipelineMessage>,
    /// A request that archives the history, to be posted without waiting
    /// for its outcome, where the step made the history overflow.
    pub archive: Option<Outbound>,
    /// What to do next.
    pub action: Action,
}

/// A [`Step`] as plain values.
pub struct StepView {
    pub messages: Seq<PipelineMessageView>,
    pub archive: Option<OutboundView>,
    pub action: ActionView,
}

impl View for Step {
    type V = StepView;

    open spec fn view(&self) -> StepView {
        StepView {
            messages: message_views(self.messages@),
            archive: outbound_view(self.archive),
            action: self.action@,
        }
    }
}

/// One run of the relay pipeline.
#[derive(Debug, PartialEq, Eq)]
pub struct Pipeline {
    stage: Stage,
    spoken: bool,
    text: String,
    session: Option<ElizaClient>,
}

/// A [`Pipeline`] as plain values.
pub struct PipelineView {
    pub stage: Stage,
    /// Whether the turn comes from a recording; otherwise it was typed.
    pub spoken: bool,
    /// The user's turn, once it is known.
    pub text: Seq<char>,
    /// The session, while the pipeline holds it.
    pub session: Option<ClientView>,
}

impl View for Pipeline {
    type V = PipelineView;

    closed spec fn view(&self) -> PipelineView {
        PipelineView {
            stage: self.stage,
            spoken: self.spoken,
            text: self.text@,
            session: session_view(self.session),
        }
    }
}

/// The datagram that shows `text` in the sink's chatbox.
pub open spec fn chatbox_datagram(text: Seq<char>) -> DatagramView {
    DatagramView {
        target_addr: "127.0.0.1:9000"@,
        payload: osc_text_message("/chatbox/input"@, text, true, true),
    }
}

/// The transcript as it is relayed: marked as a quotation.
pub open spec fn quoted(text: Seq<char>) -> Seq<char> {
    "> "@ + text
}

/// The text that an agent error is reported with.
pub open spec fn agent_error_text(e: ElizaErrorView) -> Seq<char> {
    match e {
        ElizaErrorView::NetworkError(msg) => "Network error: "@ + msg,
        ElizaErrorView::ApiError(msg) => "API error: "@ + msg,
        ElizaErrorView::ParseError(msg) => "Parse error: "@ + msg,
    }
}

/// The text that a sink error is reported with.
pub open spec fn sink_error_text(e: VRChatErrorView) -> Seq<char> {
    match e {
        VRChatErrorView::SocketError(msg) => "Socket error: "@ + msg,
        VRChatErrorView::SendError(msg) => "Send error: "@ + msg,
    }
}

impl PipelineView {
    /// The pipeline at its end: nothing left to do, no session held.
    pub open spec fn done(self) -> PipelineView {
        PipelineView { stage: Stage::Done, session: None, ..self }
    }

    /// A step that ends the run with a failure and hands the session back.
    pub open spec fn fail(self, before: Seq<PipelineMessageView>, reason: Seq<char>) -> (
        PipelineView,
        StepView,
    ) {
        (
            self.done(),
            StepView {
                messages: before.push(PipelineMessageView::Failed(reason, self.session)),
                archive: None,
                action: ActionView::Stop,
            },
        )
    }

    /// The step that starts the conversation: the user's turn goes into the
    /// history, and the request with the whole history goes out. After
    /// `before`, nothing more is reported.
    pub open spec fn converse(self, before: Seq<PipelineMessageView>) -> (PipelineView, StepView)
        recommends
            self.session is Some,
    {
        let session = self.session->Some_0;
        let next = session.appended(user_turn(self.text));
        (
            PipelineView { stage: Stage::Conversing, session: Some(next), ..self },
            StepView {
                messages: before,
                archive: session.archive_on_append(user_turn(self.text)),
                action: ActionView::Converse(
                    next.request_to(chat_url(next.server_url), next.turns),
                ),
            },
        )
    }

    /// What the pipeline does on an event: the pipeline afterwards, and
    /// what the step gives out.
    pub open spec fn step(self, event: Event) -> (PipelineView, StepView) {
        match (self.stage, event) {
            (Stage::Created, Event::Start) => if self.spoken {
                (
                    PipelineView { stage: Stage::Transcribing, ..self },
                    StepView {
                        messages: seq![PipelineMessageView::TranscribingStarted],
                        archive: None,
                        action: ActionView::Transcribe,
                    },
                )
            } else if self.session is None {
                self.fail(
                    seq![PipelineMessageView::ConversingStarted],
                    "not initialized"@,
                )
            } else {
                (
                    PipelineView { stage: Stage::RelayingTranscript, ..self },
                    StepView {
                        messages: seq![PipelineMessageView::ConversingStarted],
                        archive: None,
                        action: ActionView::RelayTranscript(chatbox_datagram(quoted(self.text))),
                    },
                )
            },
            (Stage::Transcribing, Event::Transcribed(Err(e))) => self.fail(
                Seq::empty(),
                "Transcription failed: "@ + e@,
            ),
            (Stage::Transcribing, Event::Transcribed(Ok(t))) => (
                PipelineView { stage: Stage::RelayingTranscript, text: t@, ..self },
                StepView {
                    messages: seq![PipelineMessageView::TranscriptComplete(t@)],
                    archive: None,
                    action: ActionView::RelayTranscript(chatbox_datagram(quoted(t@))),
                },
            ),
            (Stage::RelayingTranscript, Event::TranscriptRelayed(_)) => if self.session is None {
                self.fail(Seq::empty(), "not initialized"@)
            } else if self.spoken {
                self.converse(seq![PipelineMessageView::ConversingStarted])
            } else {
                self.converse(Seq::empty())
            },
            (Stage::Conversing, Event::Conversed(outcome)) => if self.session is None {
                self.fail(Seq::empty(), "not initialized"@)
            } else {
                match reply_of(outcome) {
                    Err(e) => self.fail(Seq::empty(), "Eliza failed: "@ + agent_error_text(e)),
                    Ok(reply) => (
                        PipelineView {
                            stage: Stage::RelayingReply,
                            session: Some(self.session->Some_0.appended(assistant_turn(reply))),
                            ..self
                        },
                        StepView {
                            messages: seq![PipelineMessageView::ReplyComplete(reply)],
                            archive: self.session->Some_0.archive_on_append(
                                assistant_turn(reply),
                            ),
                            action: ActionView::RelayReply(chatbox_datagram(reply)),
                        },
                    ),
                }
            },
            (Stage::RelayingReply, Event::ReplyRelayed(delivery)) => if self.session is None {
                self.fail(Seq::empty(), "not initialized"@)
            } else {
                match delivery_failure(delivery) {
                    Some(e) => self.fail(Seq::empty(), "VRChat failed: "@ + sink_error_text(e)),
                    None => (
                        self.done(),
                        StepView {
                            messages: seq![PipelineMessageView::Finished(self.session->Some_0)],
                            archive: None,
                            action: ActionView::Stop,
                        },
                    ),
                }
            },
            (Stage::Done, _) => (
                self,
                StepView { messages: Seq::empty(), archive: None, action: ActionView::Stop },
            ),
            _ => self.fail(Seq::empty(), "Unexpected event"@),
        }
    }
}

impl Pipeline {
    /// The session, while the pipeline holds it, is within its capacity,
    /// and a pipeline at its end holds none.
    pub closed spec fn wf(&self) -> bool {
        &&& self.session matches Some(c) ==> c.wf()
        &&& self.stage == Stage::Done ==> self.session is None
    }

    /// A pipeline for a recording, with the session if there is one.
    pub fn for_clip(session: Option<ElizaClient>) -> (p: Self)
        requires
            session matches Some(c) ==> c.wf(),
        ensures
            p.wf(),
            p@ == (PipelineView {
                stage: Stage::Created,
                spoken: true,
                text: Seq::<char>::empty(),
                session: session_view(session),
            }),
    {
        Pipeline { stage: Stage::Created, spoken: true, text: String::new(), session }
    }

    /// A pipeline for a typed turn, with the session if there is one.
    pub fn for_text(text: String, session: Option<ElizaClient>) -> (p: Self)
        requires
            session matches Some(c) ==> c.wf(),
        ensures
            p.wf(),
            p@ == (PipelineView {
                stage: Stage::Created,
                spoken: false,
                text: text@,
                session: session_view(session),
            }),
    {
        Pipeline { stage: Stage::Created, spoken: false, text, session }
    }

    /// Where the pipeline stands.
    pub fn stage(&self) -> (stage: Stage)
        ensures
            stage == self@.stage,
    {
        self.stage
    }

    /// The datagram that shows `text` in the sink's chatbox.
    fn datagram(text: &str) -> (d: Datagram)
        ensures
            datagram_view(d) == chatbox_datagram(text@),
    {
        match VRChatClient::new().send_message(text) {
            Ok(d) => d,
            Err(_) => Datagram { target_addr: String::new(), payload: Vec::new() },
        }
    }

    /// Ends the run with a failure: the session goes out with the message.
    fn fail_with(&mut self, mut messages: Vec<PipelineMessage>, reason: String) -> (step: Step)
        requires
            old(self).wf(),
        ensures
            final(self).wf(),
            (final(self)@, step@) == old(self)@.fail(message_views(messages@), reason@),
    {
        let ghost before = message_views(messages@);
        let session = self.session.take();
        self.stage = Stage::Done;
        messages.push(PipelineMessage::Failed(reason, session));
        assert(message_views(messages@) =~= before.push(
            PipelineMessageView::Failed(reason@, old(self)@.session),
        ));
        Step { messages, archive: None, action: Action::Stop }
    }

    /// Puts the user's turn into the history and asks for the agent's
    /// reply.
    fn start_conversation(&mut self, messages: Vec<PipelineMessage>) -> (step: Step)
        requires
            old(self).wf(),
            old(self)@.session is Some,
            old(self)@.stage != Stage::Done,
        ensures
            final(self).wf(),
            (final(self)@, step@) == old(self)@.converse(message_views(messages@)),
    {
        let mut session = self.session.take().unwrap();
        let (request, archive) = session.send_message(self.text.as_str());
        self.session = Some(session);
        self.stage = Stage::Conversing;
        Step { messages, archive, action: Action::Converse(request) }
    }

    /// Takes one event and says what to report and what to do next.
    ///
    /// Events are expected in the order the actions ask for them. One that
    /// comes out of turn ends the run with a failure, so that the session
    /// still comes back; after the end, nothing happens any more.
    pub fn step(&mut self, event: Event) -> (step: Step)
        requires
            old(self).wf(),
        ensures
            final(self).wf(),
            (final(self)@, step@) == old(self)@.step(event),
    {
        let mut messages: Vec<PipelineMessage> = Vec::new();
        assert(message_views(messages@) =~= Seq::empty());
        match self.stage {
            Stage::Done => Step { messages, archive: None, action: Action::Stop },
            Stage::Created => match event {
                Event::Start => {
                    if self.spoken {
                        self.stage = Stage::Transcribing;
                        messages.push(PipelineMessage::TranscribingStarted);
                        assert(message_views(messages@) =~= seq![
                            PipelineMessageView::TranscribingStarted,
                        ]);
                        Step { messages, archive: None, action: Action::Transcribe }
                    } else {
                        messages.push(PipelineMessage::ConversingStarted);
                        assert(message_views(messages@) =~= seq![
                            PipelineMessageView::ConversingStarted,
                        ]);
                        if self.session.is_none() {
                            self.fail_with(messages, owned("not initialized"))
                        } else {
                            self.stage = Stage::RelayingTranscript;
                            let quote = join2("> ", self.text.as_str());
                            Step {
                                messages,
                                archive: None,
                                action: Action::RelayTranscript(Self::datagram(quote.as_str())),
                            }
                        }
                    }
                },
                _ => self.fail_with(messages, owned("Unexpected event")),
            },
            Stage::Transcribing => match event {
                Event::Transcribed(Err(e)) => self.fail_with(
                    messages,
                    join2("Transcription failed: ", e.as_str()),
                ),
                Event::Transcribed(Ok(t)) => {
                    let quote = join2("> ", t.as_str());
                    self.stage = Stage::RelayingTranscript;
                    self.text = t.clone();
                    messages.push(PipelineMessage::TranscriptComplete(t));
                    assert(message_views(messages@) =~= seq![
                        PipelineMessageView::TranscriptComplete(t@),
                    ]);
                    Step {
                        messages,
                        archive: None,
                        action: Action::RelayTranscript(Self::datagram(quote.as_str())),
                    }
                },
                _ => self.fail_with(messages, owned("Unexpected event")),
            },
            Stage::RelayingTranscript => match event {
                Event::TranscriptRelayed(_) => {
                    if self.session.is_none() {
                        self.fail_with(messages, owned("not initialized"))
                    } else {
                        if self.spoken {
                            messages.push(PipelineMessage::ConversingStarted);
                            assert(message_views(messages@) =~= seq![
                                PipelineMessageView::ConversingStarted,
                            ]);
                        }
                        self.start_conversation(messages)
                    }
                },
                _ => self.fail_with(messages, owned("Unexpected event")),
            },
            Stage::Conversing => match event {
                Event::Conversed(outcome) => {
                    if self.session.is_none() {
                        return self.fail_with(messages, owned("not initialized"));
                    }
                    let mut session = self.session.take().unwrap();
                    let (reply, archive) = session.receive_reply(outcome);
                    self.session = Some(session);
                    match reply {
                        Err(e) => {
                            let reason = join2("Eliza failed: ", e.to_string().as_str());
                            self.fail_with(messages, reason)
                        },
                        Ok(reply) => {
                            self.stage = Stage::RelayingReply;
                            let datagram = Self::datagram(reply.as_str());
                            messages.push(PipelineMessage::ReplyComplete(reply));
                            assert(message_views(messages@) =~= seq![
                                PipelineMessageView::ReplyComplete(reply@),
                            ]);
                            Step { messages, archive, action: Action::RelayReply(datagram) }
                        },
                    }
                },
                _ => self.fail_with(messages, owned("Unexpected event")),
            },
            Stage::RelayingReply => match event {
                Event::ReplyRelayed(delivery) => {
                    if self.session.is_none() {
                        return self.fail_with(messages, owned("not initialized"));
                    }
                    match VRChatClient::delivered(delivery) {
                        Err(e) => {
                            let reason = join2("VRChat failed: ", e.to_string().as_str());
                            self.fail_with(messages, reason)
                        },
                        Ok(_) => {
                            let session = self.session.take().unwrap();
                            self.stage = Stage::Done;
                            messages.push(PipelineMessage::Finished(session));
                            assert(message_views(messages@) =~= seq![
                                PipelineMessageView::Finished(session@),
                            ]);
                            Step { messages, archive: None, action: Action::Stop }
                        },
                    }
                },
                _ => self.fail_with(messages, owned("Unexpected event")),
            },
        }
    }
}

/// The messages that a pipeline gives out over a run of events, in order.
pub open spec fn run_messages(p: PipelineView, events: Seq<Event>) -> Seq<PipelineMessageView>
    decreases events.len(),
{
    if events.len() == 0 {
        Seq::empty()
    } else {
        p.step(events[0]).1.messages + run_messages(p.step(events[0]).0, events.skip(1))
    }
}

/// The pipeline after a run of events.
pub open spec fn run_end(p: PipelineView, events: Seq<Event>) -> PipelineView
    decreases events.len(),
{
    if events.len() == 0 {
        p
    } else {
        run_end(p.step(events[0]).0, events.skip(1))
    }
}

/// The events of a run in which every service answers: the transcript
/// arrives, the quotation is relayed or not, the agent answers, the reply
/// is relayed.
pub open spec fn full_run(
    transcript: String,
    quote_relay: Delivery,
    outcome: ChatOutcome,
    reply_relay: Delivery,
) -> Seq<Event> {
    seq![
        Event::Start,
        Event::Transcribed(Ok(transcript)),
        Event::TranscriptRelayed(quote_relay),
        Event::Conversed(outcome),
        Event::ReplyRelayed(reply_relay),
    ]
}

/// A pipeline for a recording that has not started, holding `session`.
pub open spec fn fresh_clip_pipeline(session: Option<ClientView>) -> PipelineView {
    PipelineView { stage: Stage::Created, spoken: true, text: Seq::empty(), session }
}

/// A step that does not end the run reports no last message and keeps the
/// session; a step that ends the run reports exactly one last message, at
/// the end, and the session the pipeline held goes out with it. So no run
/// drops the session, and none reports two ends.
pub proof fn lemma_step_hands_session_on(p: PipelineView, event: Event)
    requires
        p.stage != Stage::Done,
        p.stage == Stage::Conversing || p.stage == Stage::RelayingReply ==> p.session is Some,
    ensures
        ({
            let (next, step) = p.step(event);
            let n = step.messages.len() as int;
            &&& forall|i: int| 0 <= i < n - 1 ==> !(#[trigger] step.messages[i]).is_terminal()
            &&& next.stage != Stage::Done ==> {
                &&& forall|i: int| 0 <= i < n ==> !(#[trigger] step.messages[i]).is_terminal()
                &&& (p.session is Some <==> next.session is Some)
                &&& step.action != ActionView::Stop
            }
            &&& next.stage == Stage::Done ==> {
                &&& n > 0
                &&& next.session is None
                &&& step.action == ActionView::Stop
                &&& match step.messages[n - 1] {
                    PipelineMessageView::Finished(_) => p.session is Some,
                    PipelineMessageView::Failed(_, session) => session is Some <==> p.session
                        is Some,
                    _ => false,
                }
            }
        }),
{
}

/// A recording whose transcript is `transcript` and whose reply is `reply`
/// is reported, in this order, as: transcribing started, the transcript,
/// conversing started, the reply, finished. The session that comes back
/// with the last message holds what it held before, then the user's turn
/// with the transcript, then the agent's turn with the reply. Whether the
/// quotation reached the sink makes no difference.
pub proof fn lemma_full_run_reports_in_order(
    session: ClientView,
    transcript: String,
    quote_relay: Delivery,
    outcome: ChatOutcome,
    reply_relay: Delivery,
)
    requires
        reply_of(outcome) is Ok,
        delivery_failure(reply_relay) is None,
    ensures
        ({
            let reply = reply_of(outcome)->Ok_0;
            let events = full_run(transcript, quote_relay, outcome, reply_relay);
            let after = session.appended(user_turn(transcript@)).appended(assistant_turn(reply));
            &&& run_messages(fresh_clip_pipeline(Some(session)), events) == seq![
                PipelineMessageView::TranscribingStarted,
                PipelineMessageView::TranscriptComplete(transcript@),
                PipelineMessageView::ConversingStarted,
                PipelineMessageView::ReplyComplete(reply),
                PipelineMessageView::Finished(after),
            ]
            &&& run_end(fresh_clip_pipeline(Some(session)), events).stage == Stage::Done
            &&& session.turns.len() + 2 <= session.max_turns ==> after.turns
                == session.turns.push(user_turn(transcript@)).push(assistant_turn(reply))
        }),
{
    let events = full_run(transcript, quote_relay, outcome, reply_relay);
    let stage0 = fresh_clip_pipeline(Some(session));
    let e1 = events.skip(1);
    let e2 = e1.skip(1);
    let e3 = e2.skip(1);
    let e4 = e3.skip(1);
    let e5 = e4.skip(1);
    assert(e1[0] == events[1] && e2[0] == events[2] && e3[0] == events[3] && e4[0] == events[4]);
    assert(e5.len() == 0);
    let stage1 = stage0.step(events[0]).0;
    let stage2 = stage1.step(e1[0]).0;
    let stage3 = stage2.step(e2[0]).0;
    let stage4 = stage3.step(e3[0]).0;
    let stage5 = stage4.step(e4[0]).0;
    assert(run_messages(stage5, e5) =~= Seq::empty());
    assert(run_messages(stage4, e4) =~= stage4.step(e4[0]).1.messages);
    assert(run_messages(stage3, e3) =~= stage3.step(e3[0]).1.messages + run_messages(stage4, e4));
    assert(run_messages(stage2, e2) =~= stage2.step(e2[0]).1.messages + run_messages(stage3, e3));
    assert(run_messages(stage1, e1) =~= stage1.step(e1[0]).1.messages + run_messages(stage2, e2));
    assert(run_messages(stage0, events) =~= stage0.step(events[0]).1.messages + run_messages(stage1, e1));
    assert(run_end(stage5, e5) == stage5);
    assert(run_end(stage4, e4) == stage5);
    assert(run_end(stage3, e3) == stage5);
    assert(run_end(stage2, e2) == stage5);
    assert(run_end(stage1, e1) == stage5);
}

/// Where the agent does not answer, the run ends with one failure message
/// that names the agent's error, and the session that comes back with it
/// holds the user's turn and no turn of the agent.
pub proof fn lemma_failed_conversation_keeps_user_turn(
    p: PipelineView,
    relay: Delivery,
    outcome: ChatOutcome,
)
    requires
        p.stage == Stage::RelayingTranscript,
        p.session is Some,
        reply_of(outcome) is Err,
    ensures
        ({
            let session = p.session->Some_0;
            let (asked, _) = p.step(Event::TranscriptRelayed(relay));
            let (next, step) = asked.step(Event::Conversed(outcome));
            &&& asked.session == Some(session.appended(user_turn(p.text)))
            &&& step.messages == seq![
                PipelineMessageView::Failed(
                    "Eliza failed: "@ + agent_error_text(reply_of(outcome)->Err_0),
                    Some(session.appended(user_turn(p.text))),
                ),
            ]
            &&& step.action == ActionView::Stop
            &&& next.stage == Stage::Done
            &&& session.turns.len() < session.max_turns ==> session.appended(
                user_turn(p.text),
            ).turns == session.turns.push(user_turn(p.text))
        }),
{
}

/// Where the transcription fails, the run ends at once, and the session
/// comes back as it went in.
pub proof fn lemma_failed_transcription_returns_session(p: PipelineView, reason: String)
    requires
        p.stage == Stage::Transcribing,
    ensures
        p.step(Event::Transcribed(Err(reason))).1.messages == seq![
            PipelineMessageView::Failed("Transcription failed: "@ + reason@, p.session),
        ],
        p.step(Event::Transcribed(Err(reason))).0.stage == Stage::Done,
{
}

} // verus!
