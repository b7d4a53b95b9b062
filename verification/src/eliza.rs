//! The conversational session: one agent endpoint and the bounded history
//! of turns exchanged with it.
//!
//! The session never talks to the network itself. It says what is to be
//! posted ([`Outbound`]) and is told what came back ([`ChatOutcome`],
//! [`MemoryOutcome`]); whoever drives it performs the exchange in between.

use crate::http::{is_success, status_is_success, HttpAnswer};
use crate::text::{ends_with, is_suffix, join2, join4, owned, trim_end_matches, without_trailing};
use std::collections::VecDeque;
use vstd::prelude::*;

verus! {

/// How many turns stay in the history after it has overflowed.
pub const COMPACT_SIZE: usize = 5;

/// One turn of the conversation.
#[derive(Debug, PartialEq, Eq)]
pub struct Message {
    pub role: String,
    pub content: String,
}

/// What a [`Message`] says, as plain text.
pub struct MessageView {
    pub role: Seq<char>,
    pub content: Seq<char>,
}

impl View for Message {
    type V = MessageView;

    open spec fn view(&self) -> MessageView {
        MessageView { role: self.role@, content: self.content@ }
    }
}

impl Clone for Message {
    fn clone(&self) -> (r: Self)
        ensures
            r == *self,
    {
        Message { role: self.role.clone(), content: self.content.clone() }
    }
}

/// The views of a run of messages, in order.
pub open spec fn views(messages: Seq<Message>) -> Seq<MessageView> {
    Seq::new(messages.len(), |i: int| messages[i]@)
}

/// The turn that carries the system prompt at the head of every request.
pub open spec fn system_turn(prompt: Seq<char>) -> MessageView {
    MessageView { role: "system"@, content: prompt }
}

/// Why an exchange with the agent failed.
#[derive(Debug, PartialEq, Eq)]
pub enum ElizaError {
    NetworkError(String),
    ApiError(String),
    ParseError(String),
}

impl ElizaError {
    /// The text of the error as it is shown to the operator.
    pub open spec fn text(self) -> Seq<char> {
        match self {
            ElizaError::NetworkError(msg) => "Network error: "@ + msg@,
            ElizaError::ApiError(msg) => "API error: "@ + msg@,
            ElizaError::ParseError(msg) => "Parse error: "@ + msg@,
        }
    }

    /// The error as a line of text.
    pub fn to_string(&self) -> (r: String)
        ensures
            r@ == self.text(),
    {
        match self {
            ElizaError::NetworkError(msg) => join2("Network error: ", msg.as_str()),
            ElizaError::ApiError(msg) => join2("API error: ", msg.as_str()),
            ElizaError::ParseError(msg) => join2("Parse error: ", msg.as_str()),
        }
    }
}

/// An [`ElizaError`] with its message as plain text.
pub enum ElizaErrorView {
    NetworkError(Seq<char>),
    ApiError(Seq<char>),
    ParseError(Seq<char>),
}

impl View for ElizaError {
    type V = ElizaErrorView;

    open spec fn view(&self) -> ElizaErrorView {
        match *self {
            ElizaError::NetworkError(msg) => ElizaErrorView::NetworkError(msg@),
            ElizaError::ApiError(msg) => ElizaErrorView::ApiError(msg@),
            ElizaError::ParseError(msg) => ElizaErrorView::ParseError(msg@),
        }
    }
}

/// What came of posting a chat request.
#[derive(Debug, PartialEq, Eq)]
pub enum ChatOutcome {
    /// The request could not be sent; the transport's words.
    SendFailed(String),
    /// The response's body could not be read; the transport's words.
    ReadFailed(String),
    /// A response arrived. Beside it, what decoding its body as a reply
    /// gave: the reply's text, or the decoder's words.
    Answered(HttpAnswer, Result<String, String>),
}

/// What came of posting an archive request.
#[derive(Debug, PartialEq, Eq)]
pub enum MemoryOutcome {
    /// The request could not be sent; the transport's words.
    SendFailed(String),
    /// A response arrived.
    Answered(HttpAnswer),
}

/// The reply that a chat outcome amounts to, or the error it is reported
/// as.
pub open spec fn reply_of(outcome: ChatOutcome) -> Result<Seq<char>, ElizaErrorView> {
    match outcome {
        ChatOutcome::SendFailed(e) => Err(
            ElizaErrorView::NetworkError("Failed to send request: "@ + e@),
        ),
        ChatOutcome::ReadFailed(e) => Err(
            ElizaErrorView::NetworkError("Failed to read response: "@ + e@),
        ),
        ChatOutcome::Answered(answer, decoded) => if !is_success(answer.status) {
            Err(
                ElizaErrorView::ApiError(
                    "API returned status "@ + answer.status_text@ + ": "@ + answer.body@,
                ),
            )
        } else {
            match decoded {
                Ok(content) => Ok(content@),
                Err(e) => Err(
                    ElizaErrorView::ParseError(
                        "Failed to parse response: "@ + e@ + ". Response was: "@ + answer.body@,
                    ),
                ),
            }
        },
    }
}

/// The error that an archive outcome is reported as, if it is one.
pub open spec fn memory_failure(outcome: MemoryOutcome) -> Option<ElizaErrorView> {
    match outcome {
        MemoryOutcome::SendFailed(e) => Some(
            ElizaErrorView::NetworkError("Failed to save memory: "@ + e@),
        ),
        MemoryOutcome::Answered(answer) => if !is_success(answer.status) {
            Some(
                ElizaErrorView::ApiError(
                    "Memory API returned status "@ + answer.status_text@ + ": "@ + answer.body@,
                ),
            )
        } else {
            None
        },
    }
}

/// A turn spoken by the user.
pub open spec fn user_turn(content: Seq<char>) -> MessageView {
    MessageView { role: "user"@, content }
}

/// A turn spoken by the agent.
pub open spec fn assistant_turn(content: Seq<char>) -> MessageView {
    MessageView { role: "assistant"@, content }
}

/// The view of a reply or of the error in its place.
pub open spec fn reply_view(r: Result<String, ElizaError>) -> Result<Seq<char>, ElizaErrorView> {
    match r {
        Ok(s) => Ok(s@),
        Err(e) => Err(e@),
    }
}

/// Says what an archive request came to: nothing to report, or the error.
pub fn memory_saved(outcome: MemoryOutcome) -> (r: Result<(), ElizaError>)
    ensures
        match memory_failure(outcome) {
            Some(e) => r matches Err(got) && got@ == e,
            None => r is Ok,
        },
{
    match outcome {
        MemoryOutcome::SendFailed(e) => Err(
            ElizaError::NetworkError(join2("Failed to save memory: ", e.as_str())),
        ),
        MemoryOutcome::Answered(answer) => {
            if !status_is_success(answer.status) {
                Err(
                    ElizaError::ApiError(
                        join4(
                            "Memory API returned status ",
                            answer.status_text.as_str(),
                            ": ",
                            answer.body.as_str(),
                        ),
                    ),
                )
            } else {
                Ok(())
            }
        },
    }
}

/// The body of a request to the agent.
#[derive(Debug, PartialEq, Eq)]
pub struct ChatRequest {
    pub model: String,
    pub messages: Vec<Message>,
    pub stream: bool,
    /// Sampling temperature, in thousandths.
    pub temperature_milli: u32,
}

/// A request and the address it is to be posted to.
#[derive(Debug, PartialEq, Eq)]
pub struct Outbound {
    pub url: String,
    pub request: ChatRequest,
}

/// What an [`Outbound`] holds, as plain values.
pub struct OutboundView {
    pub url: Seq<char>,
    pub model: Seq<char>,
    pub messages: Seq<MessageView>,
    pub stream: bool,
    pub temperature_milli: nat,
}

impl View for Outbound {
    type V = OutboundView;

    open spec fn view(&self) -> OutboundView {
        OutboundView {
            url: self.url@,
            model: self.request.model@,
            messages: views(self.request.messages@),
            stream: self.request.stream,
            temperature_milli: self.request.temperature_milli as nat,
        }
    }
}

/// The address that chat requests go to: the server's address, with `/chat`
/// added unless it ends in it already.
pub open spec fn chat_url(server_url: Seq<char>) -> Seq<char> {
    if is_suffix(server_url, "/chat"@) {
        server_url
    } else {
        server_url + "/chat"@
    }
}

/// The address that the history is archived at: the server's address
/// without any trailing `/chat`, with `/memory` added.
pub open spec fn memory_url(server_url: Seq<char>) -> Seq<char> {
    without_trailing(server_url, "/chat"@) + "/memory"@
}

/// The history after `turns` has been checked against `max`: untouched
/// while it fits, cut down to its newest turns once it does not.
pub open spec fn compacted(turns: Seq<MessageView>, max: nat) -> Seq<MessageView> {
    if turns.len() > max {
        turns.subrange(turns.len() - retained(max), turns.len() as int)
    } else {
        turns
    }
}

/// How many turns a compaction keeps: [`COMPACT_SIZE`], or the whole
/// capacity where that is smaller.
pub open spec fn retained(max: nat) -> nat {
    if max < COMPACT_SIZE as nat {
        max
    } else {
        COMPACT_SIZE as nat
    }
}

/// A conversational session with one agent.
#[derive(Debug, PartialEq, Eq)]
pub struct ElizaClient {
    server_url: String,
    model: String,
    conversation_history: VecDeque<Message>,
    max_history_length: usize,
    system_prompt: String,
}

/// What an [`ElizaClient`] holds, as plain values.
pub struct ClientView {
    pub server_url: Seq<char>,
    pub model: Seq<char>,
    pub turns: Seq<MessageView>,
    pub max_turns: nat,
    pub system_prompt: Seq<char>,
}

impl ClientView {
    /// The same session with another history.
    pub open spec fn with_turns(self, turns: Seq<MessageView>) -> ClientView {
        ClientView { turns, ..self }
    }

    /// The session after one more turn has been appended.
    pub open spec fn appended(self, turn: MessageView) -> ClientView {
        self.with_turns(compacted(self.turns.push(turn), self.max_turns))
    }

    /// Whether appending one more turn overflows the history.
    pub open spec fn overflows(self) -> bool {
        self.turns.len() + 1 > self.max_turns
    }

    /// The request that carries `turns` to `url`: the system prompt first,
    /// then the turns in order.
    pub open spec fn request_to(self, url: Seq<char>, turns: Seq<MessageView>) -> OutboundView {
        OutboundView {
            url,
            model: self.model,
            messages: seq![system_turn(self.system_prompt)] + turns,
            stream: false,
            temperature_milli: 0,
        }
    }

    /// The request that archives `turns`.
    pub open spec fn archive_of(self, turns: Seq<MessageView>) -> OutboundView {
        self.request_to(memory_url(self.server_url), turns)
    }

    /// What appending `turn` asks to have archived: the whole history with
    /// the new turn, if that overflows; nothing otherwise.
    pub open spec fn archive_on_append(self, turn: MessageView) -> Option<OutboundView> {
        if self.overflows() {
            Some(self.archive_of(self.turns.push(turn)))
        } else {
            None
        }
    }
}

impl View for ElizaClient {
    type V = ClientView;

    closed spec fn view(&self) -> ClientView {
        ClientView {
            server_url: self.server_url@,
            model: self.model@,
            turns: views(self.conversation_history@),
            max_turns: self.max_history_length as nat,
            system_prompt: self.system_prompt@,
        }
    }
}

/// The view of an optional outbound request.
pub open spec fn outbound_view(o: Option<Outbound>) -> Option<OutboundView> {
    match o {
        Some(x) => Some(x@),
        None => None,
    }
}

impl ElizaClient {
    /// The history is within its capacity.
    pub open spec fn wf(&self) -> bool {
        self@.turns.len() <= self@.max_turns
    }

    /// A session with an empty history.
    pub fn new(
        server_url: String,
        model: String,
        max_history_length: usize,
        system_prompt: String,
    ) -> (client: Self)
        ensures
            client.wf(),
            client@ == (ClientView {
                server_url: server_url@,
                model: model@,
                turns: Seq::<MessageView>::empty(),
                max_turns: max_history_length as nat,
                system_prompt: system_prompt@,
            }),
    {
        let client = ElizaClient {
            server_url,
            model,
            conversation_history: VecDeque::new(),
            max_history_length,
            system_prompt,
        };
        assert(client@.turns =~= Seq::<MessageView>::empty());
        client
    }

    /// The request that carries the current history to `url`.
    fn request_for(&self, url: String) -> (out: Outbound)
        ensures
            out@ == self@.request_to(url@, self@.turns),
    {
        let mut messages: Vec<Message> = Vec::new();
        messages.push(Message { role: owned("system"), content: self.system_prompt.clone() });
        let n = self.conversation_history.len();
        let mut i: usize = 0;
        while i < n
            invariant
                n == self.conversation_history@.len(),
                i <= n,
                messages@.len() == i + 1,
                messages@[0]@ == system_turn(self.system_prompt@),
                forall|j: int| 0 <= j < i ==> messages@[j + 1] == self.conversation_history@[j],
            decreases n - i,
        {
            messages.push(self.conversation_history[i].clone());
            i += 1;
        }
        let out = Outbound {
            url,
            request: ChatRequest { model: self.model.clone(), messages, stream: false, temperature_milli: 0 },
        };
        assert(out@.messages =~= seq![system_turn(self.system_prompt@)] + self@.turns);
        out
    }

    /// Adds a turn at the end of the history. Where the history then
    /// exceeds its capacity, it is cut down to its newest turns, and the
    /// request that archives the uncut history is returned for delivery.
    pub fn add_message(&mut self, role: String, content: String) -> (archive: Option<Outbound>)
        requires
            old(self).wf(),
        ensures
            final(self).wf(),
            final(self)@ == old(self)@.appended(MessageView { role: role@, content: content@ }),
            outbound_view(archive) == old(self)@.archive_on_append(
                MessageView { role: role@, content: content@ },
            ),
    {
        let ghost turn = MessageView { role: role@, content: content@ };
        let ghost full = old(self)@.turns.push(turn);
        self.conversation_history.push_back(Message { role, content });
        assert(self@.turns =~= full);
        if self.conversation_history.len() > self.max_history_length {
            let archive = self.save_memory();
            let keep = if self.max_history_length < COMPACT_SIZE {
                self.max_history_length
            } else {
                COMPACT_SIZE
            };
            while self.conversation_history.len() > keep
                invariant
                    keep <= self.conversation_history@.len() <= full.len(),
                    self@.turns == full.subrange(
                        full.len() - self.conversation_history@.len(),
                        full.len() as int,
                    ),
                    self@.server_url == old(self)@.server_url,
                    self@.model == old(self)@.model,
                    self@.max_turns == old(self)@.max_turns,
                    self@.system_prompt == old(self)@.system_prompt,
                decreases self.conversation_history@.len(),
            {
                let ghost before = self.conversation_history@;
                self.conversation_history.pop_front();
                assert(self@.turns =~= full.subrange(
                    full.len() - self.conversation_history@.len(),
                    full.len() as int,
                )) by {
                    assert(self.conversation_history@ == before.subrange(1, before.len() as int));
                    assert(views(before) == full.subrange(
                        full.len() - before.len(),
                        full.len() as int,
                    ));
                    assert forall|j: int| 0 <= j < self.conversation_history@.len() implies views(
                        self.conversation_history@,
                    )[j] == full[full.len() - self.conversation_history@.len() + j] by {
                        assert(views(before)[j + 1] == full[full.len() - before.len() + j + 1]);
                    }
                }
            }
            archive
        } else {
            None
        }
    }

    /// Adds the user's turn to the history and returns the chat request to
    /// post: the system prompt, then the history with the new turn. Beside
    /// it, the archive request where adding the turn overflowed the
    /// history.
    pub fn send_message(&mut self, user_message: &str) -> (step: (Outbound, Option<Outbound>))
        requires
            old(self).wf(),
        ensures
            final(self).wf(),
            final(self)@ == old(self)@.appended(user_turn(user_message@)),
            step.0@ == final(self)@.request_to(
                chat_url(final(self)@.server_url),
                final(self)@.turns,
            ),
            outbound_view(step.1) == old(self)@.archive_on_append(user_turn(user_message@)),
    {
        let archive = self.add_message(owned("user"), owned(user_message));
        let url = if ends_with(self.server_url.as_str(), "/chat") {
            self.server_url.clone()
        } else {
            join2(self.server_url.as_str(), "/chat")
        };
        (self.request_for(url), archive)
    }

    /// Takes what came of posting a chat request. A reply is added to the
    /// history as the agent's turn and returned; anything else is returned
    /// as the error it amounts to, and the history stays as it was. Beside
    /// it, the archive request where adding the reply overflowed the
    /// history.
    pub fn receive_reply(&mut self, outcome: ChatOutcome) -> (step: (
        Result<String, ElizaError>,
        Option<Outbound>,
    ))
        requires
            old(self).wf(),
        ensures
            final(self).wf(),
            reply_view(step.0) == reply_of(outcome),
            match reply_of(outcome) {
                Ok(content) => {
                    &&& final(self)@ == old(self)@.appended(assistant_turn(content))
                    &&& outbound_view(step.1) == old(self)@.archive_on_append(
                        assistant_turn(content),
                    )
                },
                Err(_) => final(self)@ == old(self)@ && step.1 is None,
            },
    {
        match outcome {
            ChatOutcome::SendFailed(e) => (
                Err(ElizaError::NetworkError(join2("Failed to send request: ", e.as_str()))),
                None,
            ),
            ChatOutcome::ReadFailed(e) => (
                Err(ElizaError::NetworkError(join2("Failed to read response: ", e.as_str()))),
                None,
            ),
            ChatOutcome::Answered(answer, decoded) => {
                if !status_is_success(answer.status) {
                    return (
                        Err(
                            ElizaError::ApiError(
                                join4(
                                    "API returned status ",
                                    answer.status_text.as_str(),
                                    ": ",
                                    answer.body.as_str(),
                                ),
                            ),
                        ),
                        None,
                    );
                }
                match decoded {
                    Ok(content) => {
                        let archive = self.add_message(owned("assistant"), content.clone());
                        (Ok(content), archive)
                    },
                    Err(e) => (
                        Err(
                            ElizaError::ParseError(
                                join4(
                                    "Failed to parse response: ",
                                    e.as_str(),
                                    ". Response was: ",
                                    answer.body.as_str(),
                                ),
                            ),
                        ),
                        None,
                    ),
                }
            },
        }
    }

    /// The request that archives the history as it stands, or nothing
    /// where the history is empty.
    pub fn save_memory(&self) -> (archive: Option<Outbound>)
        ensures
            outbound_view(archive) == if self@.turns.len() == 0 {
                None
            } else {
                Some(self@.archive_of(self@.turns))
            },
    {
        if self.conversation_history.len() == 0 {
            return None;
        }
        proof {
            reveal_strlit("/chat");
        }
        let base = trim_end_matches(self.server_url.as_str(), "/chat");
        let url = join2(base, "/memory");
        Some(self.request_for(url))
    }

    /// Empties the history. Nothing is archived.
    pub fn clear_history(&mut self)
        ensures
            final(self).wf(),
            final(self)@ == old(self)@.with_turns(Seq::<MessageView>::empty()),
    {
        self.conversation_history.clear();
        assert(self@.turns =~= Seq::<MessageView>::empty());
    }

    /// The turns of the history, oldest first.
    pub fn get_history(&self) -> (history: &VecDeque<Message>)
        ensures
            views(history@) == self@.turns,
    {
        &self.conversation_history
    }
}

/// While the history has room, a new turn goes to its end, every earlier
/// turn stays where it was, and nothing is archived.
pub proof fn lemma_append_within_capacity(c: ClientView, turn: MessageView)
    requires
        c.turns.len() < c.max_turns,
    ensures
        c.appended(turn).turns == c.turns.push(turn),
        c.archive_on_append(turn) is None,
{
}

/// A turn added to a full history of capacity [`COMPACT_SIZE`] or more
/// leaves exactly the [`COMPACT_SIZE`] newest turns, the new one last, and
/// asks for one archive: the system prompt, then the whole history as it
/// was before the cut, new turn included.
pub proof fn lemma_append_beyond_capacity(c: ClientView, turn: MessageView)
    requires
        c.turns.len() == c.max_turns,
        c.max_turns >= COMPACT_SIZE,
    ensures
        c.appended(turn).turns.len() == COMPACT_SIZE,
        c.appended(turn).turns == c.turns.push(turn).subrange(
            c.turns.len() + 1 - COMPACT_SIZE,
            c.turns.len() as int + 1,
        ),
        c.appended(turn).turns.last() == turn,
        c.archive_on_append(turn) matches Some(a) && a.url == memory_url(c.server_url)
            && a.messages == seq![system_turn(c.system_prompt)] + c.turns.push(turn),
{
}

/// Appending never lets the history exceed its capacity, and never
/// reorders it: what is left is a tail end of the old history with the new
/// turn behind it.
pub proof fn lemma_append_keeps_bound_and_order(c: ClientView, turn: MessageView)
    requires
        c.turns.len() <= c.max_turns,
    ensures
        c.appended(turn).turns.len() <= c.max_turns,
        c.appended(turn).max_turns == c.max_turns,
        exists|k: int|
            0 <= k <= c.turns.len() + 1 && c.appended(turn).turns == #[trigger] c.turns.push(
                turn,
            ).subrange(k, c.turns.len() as int + 1),
{
    let full = c.turns.push(turn);
    if full.len() > c.max_turns {
        assert(c.appended(turn).turns == full.subrange(
            full.len() - retained(c.max_turns),
            full.len() as int,
        ));
    } else {
        assert(c.appended(turn).turns =~= full.subrange(0, full.len() as int));
    }
}

/// Clearing an already cleared history changes nothing: the history is
/// empty after the first clearing and after the second.
pub proof fn lemma_clear_is_idempotent(c: ClientView)
    ensures
        c.with_turns(Seq::empty()).turns.len() == 0,
        c.with_turns(Seq::empty()).with_turns(Seq::empty()) == c.with_turns(Seq::empty()),
{
}

} // verus!
