//! A session with the hosted chat-completions service: an API key and a
//! history kept as a sliding window of the newest turns.
//!
//! Like the agent session, it never talks to the network itself: it says
//! what is to be posted and is told what came back.

use crate::http::{is_success, status_is_success, HttpAnswer};
use crate::text::{join2, join4, owned};
use std::collections::VecDeque;
use vstd::prelude::*;

verus! {

/// One turn of the conversation.
#[derive(Debug, PartialEq, Eq)]
pub struct Message {
    pub role: String,
    pub content: String,
}

/// What a [`Message`] says, as plain text.
pub struct MessageView {
    pub role: Seq<char>,
    pub content: Seq<char>,
}

impl View for Message {
    type V = MessageView;

    open spec fn view(&self) -> MessageView {
        MessageView { role: self.role@, content: self.content@ }
    }
}

impl Clone for Message {
    fn clone(&self) -> (r: Self)
        ensures
            r == *self,
    {
        Message { role: self.role.clone(), content: self.content.clone() }
    }
}

/// The views of a run of messages, in order.
pub open spec fn views(messages: Seq<Message>) -> Seq<MessageView> {
    Seq::new(messages.len(), |i: int| messages[i]@)
}

/// Why an exchange with the service failed.
#[derive(Debug, PartialEq, Eq)]
pub enum GrokError {
    NetworkError(String),
    ApiError(String),
    ParseError(String),
}

/// A [`GrokError`] with its message as plain text.
pub enum GrokErrorView {
    NetworkError(Seq<char>),
    ApiError(Seq<char>),
    ParseError(Seq<char>),
}

impl View for GrokError {
    type V = GrokErrorView;

    open spec fn view(&self) -> GrokErrorView {
        match *self {
            GrokError::NetworkError(msg) => GrokErrorView::NetworkError(msg@),
            GrokError::ApiError(msg) => GrokErrorView::ApiError(msg@),
            GrokError::ParseError(msg) => GrokErrorView::ParseError(msg@),
        }
    }
}

impl GrokError {
    /// The text of the error as it is shown to the operator.
    pub open spec fn text(self) -> Seq<char> {
        match self {
            GrokError::NetworkError(msg) => "Network error: "@ + msg@,
            GrokError::ApiError(msg) => "API error: "@ + msg@,
            GrokError::ParseError(msg) => "Parse error: "@ + msg@,
        }
    }

    /// The error as a line of text.
    pub fn to_string(&self) -> (r: String)
        ensures
            r@ == self.text(),
    {
        match self {
            GrokError::NetworkError(msg) => join2("Network error: ", msg.as_str()),
            GrokError::ApiError(msg) => join2("API error: ", msg.as_str()),
            GrokError::ParseError(msg) => join2("Parse error: ", msg.as_str()),
        }
    }
}

/// The body of a request to the service.
#[derive(Debug, PartialEq, Eq)]
pub struct ChatRequest {
    pub model: String,
    pub messages: Vec<Message>,
    pub stream: bool,
    /// Sampling temperature, in thousandths.
    pub temperature_milli: u32,
}

/// A request, the address it is to be posted to, and the value of the
/// `Authorization` header that goes with it.
#[derive(Debug, PartialEq, Eq)]
pub struct Outbound {
    pub url: String,
    pub authorization: String,
    pub request: ChatRequest,
}

/// What an [`Outbound`] holds, as plain values.
pub struct OutboundView {
    pub url: Seq<char>,
    pub authorization: Seq<char>,
    pub model: Seq<char>,
    pub messages: Seq<MessageView>,
    pub stream: bool,
    pub temperature_milli: nat,
}

impl View for Outbound {
    type V = OutboundView;

    open spec fn view(&self) -> OutboundView {
        OutboundView {
            url: self.url@,
            authorization: self.authorization@,
            model: self.request.model@,
            messages: views(self.request.messages@),
            stream: self.request.stream,
            temperature_milli: self.request.temperature_milli as nat,
        }
    }
}

/// What came of posting a chat request.
#[derive(Debug, PartialEq, Eq)]
pub enum ChatOutcome {
    /// The request could not be sent; the transport's words.
    SendFailed(String),
    /// The response's body could not be read; the transport's words.
    ReadFailed(String),
    /// A response arrived. Beside it, what decoding its body gave: the text
    /// of the first choice, if there is a choice, or the decoder's words.
    Answered(HttpAnswer, Result<Option<String>, String>),
}

/// The reply that a chat outcome amounts to, or the error it is reported
/// as.
pub open spec fn reply_of(outcome: ChatOutcome) -> Result<Seq<char>, GrokErrorView> {
    match outcome {
        ChatOutcome::SendFailed(e) => Err(
            GrokErrorView::NetworkError("Failed to send request: "@ + e@),
        ),
        ChatOutcome::ReadFailed(e) => Err(
            GrokErrorView::NetworkError("Failed to read response: "@ + e@),
        ),
        ChatOutcome::Answered(answer, decoded) => if !is_success(answer.status) {
            Err(
                GrokErrorView::ApiError(
                    "API returned status "@ + answer.status_text@ + ": "@ + answer.body@,
                ),
            )
        } else {
            match decoded {
                Ok(Some(content)) => Ok(content@),
                Ok(None) => Err(GrokErrorView::ParseError("No choices in response"@)),
                Err(e) => Err(
                    GrokErrorView::ParseError(
                        "Failed to parse response: "@ + e@ + ". Response was: "@ + answer.body@,
                    ),
                ),
            }
        },
    }
}

/// The view of a reply or of the error in its place.
pub open spec fn reply_view(r: Result<String, GrokError>) -> Result<Seq<char>, GrokErrorView> {
    match r {
        Ok(s) => Ok(s@),
        Err(e) => Err(e@),
    }
}

/// The newest `max` turns of `turns`, or all of them where there are no
/// more than that.
pub open spec fn windowed(turns: Seq<MessageView>, max: nat) -> Seq<MessageView> {
    if turns.len() > max {
        turns.subrange(turns.len() - max, turns.len() as int)
    } else {
        turns
    }
}

/// A session with the hosted service.
#[derive(Debug, PartialEq, Eq)]
pub struct GrokClient {
    api_key: String,
    model: String,
    conversation_history: VecDeque<Message>,
    max_history_length: usize,
    system_prompt: String,
}

/// What a [`GrokClient`] holds, as plain values.
pub struct ClientView {
    pub api_key: Seq<char>,
    pub model: Seq<char>,
    pub turns: Seq<MessageView>,
    pub max_turns: nat,
    pub system_prompt: Seq<char>,
}

impl ClientView {
    /// The same session with another history.
    pub open spec fn with_turns(self, turns: Seq<MessageView>) -> ClientView {
        ClientView { turns, ..self }
    }

    /// The session after one more turn has been appended.
    pub open spec fn appended(self, turn: MessageView) -> ClientView {
        self.with_turns(windowed(self.turns.push(turn), self.max_turns))
    }

    /// The chat request for the history as it stands: the system prompt
    /// first, then the turns in order.
    pub open spec fn request(self) -> OutboundView {
        OutboundView {
            url: "https://api.x.ai/v1/chat/completions"@,
            authorization: "Bearer "@ + self.api_key,
            model: self.model,
            messages: seq![MessageView { role: "system"@, content: self.system_prompt }]
                + self.turns,
            stream: false,
            temperature_milli: 0,
        }
    }
}

impl View for GrokClient {
    type V = ClientView;

    closed spec fn view(&self) -> ClientView {
        ClientView {
            api_key: self.api_key@,
            model: self.model@,
            turns: views(self.conversation_history@),
            max_turns: self.max_history_length as nat,
            system_prompt: self.system_prompt@,
        }
    }
}

impl GrokClient {
    /// The history is within its capacity.
    pub open spec fn wf(&self) -> bool {
        self@.turns.len() <= self@.max_turns
    }

    /// A session with an empty history.
    pub fn new(
        api_key: String,
        model: String,
        max_history_length: usize,
        system_prompt: String,
    ) -> (client: Self)
        ensures
            client.wf(),
            client@ == (ClientView {
                api_key: api_key@,
                model: model@,
                turns: Seq::<MessageView>::empty(),
                max_turns: max_history_length as nat,
                system_prompt: system_prompt@,
            }),
    {
        let client = GrokClient {
            api_key,
            model,
            conversation_history: VecDeque::new(),
            max_history_length,
            system_prompt,
        };
        assert(client@.turns =~= Seq::<MessageView>::empty());
        client
    }

    /// Adds a turn at the end of the history and drops the oldest turns
    /// until the history is within its capacity again.
    pub fn add_message(&mut self, role: String, content: String)
        requires
            old(self).wf(),
        ensures
            final(self).wf(),
            final(self)@ == old(self)@.appended(MessageView { role: role@, content: content@ }),
    {
        let ghost full = old(self)@.turns.push(MessageView { role: role@, content: content@ });
        self.conversation_history.push_back(Message { role, content });
        assert(self@.turns =~= full);
        while self.conversation_history.len() > self.max_history_length
            invariant
                self.conversation_history@.len() == full.len() || self.conversation_history@.len()
                    == self.max_history_length,
                self.conversation_history@.len() <= full.len(),
                full.len() <= self.max_history_length + 1,
                self@.turns == full.subrange(
                    full.len() - self.conversation_history@.len(),
                    full.len() as int,
                ),
                self@.api_key == old(self)@.api_key,
                self@.model == old(self)@.model,
                self@.max_turns == old(self)@.max_turns,
                self@.system_prompt == old(self)@.system_prompt,
            decreases self.conversation_history@.len(),
        {
            let ghost before = self.conversation_history@;
            self.conversation_history.pop_front();
            assert(self@.turns =~= full.subrange(
                full.len() - self.conversation_history@.len(),
                full.len() as int,
            )) by {
                assert(self.conversation_history@ == before.subrange(1, before.len() as int));
                assert(views(before) == full.subrange(
                    full.len() - before.len(),
                    full.len() as int,
                ));
                assert forall|j: int| 0 <= j < self.conversation_history@.len() implies views(
                    self.conversation_history@,
                )[j] == full[full.len() - self.conversation_history@.len() + j] by {
                    assert(views(before)[j + 1] == full[full.len() - before.len() + j + 1]);
                }
            }
        }
        assert(self@.turns =~= windowed(full, self@.max_turns));
    }

    /// Adds the user's turn to the history and returns the chat request to
    /// post: the system prompt, then the history with the new turn.
    pub fn send_message(&mut self, user_message: &str) -> (out: Outbound)
        requires
            old(self).wf(),
        ensures
            final(self).wf(),
            final(self)@ == old(self)@.appended(
                MessageView { role: "user"@, content: user_message@ },
            ),
            out@ == final(self)@.request(),
    {
        self.add_message(owned("user"), owned(user_message));
        let mut messages: Vec<Message> = Vec::new();
        messages.push(Message { role: owned("system"), content: self.system_prompt.clone() });
        let n = self.conversation_history.len();
        let mut i: usize = 0;
        while i < n
            invariant
                n == self.conversation_history@.len(),
                i <= n,
                messages@.len() == i + 1,
                messages@[0]@ == (MessageView { role: "system"@, content: self.system_prompt@ }),
                forall|j: int| 0 <= j < i ==> messages@[j + 1] == self.conversation_history@[j],
            decreases n - i,
        {
            messages.push(self.conversation_history[i].clone());
            i += 1;
        }
        let out = Outbound {
            url: owned("https://api.x.ai/v1/chat/completions"),
            authorization: join2("Bearer ", self.api_key.as_str()),
            request: ChatRequest { model: self.model.clone(), messages, stream: false, temperature_milli: 0 },
        };
        assert(out@.messages =~= self@.request().messages);
        out
    }

    /// Takes what came of posting a chat request. A reply is added to the
    /// history as the assistant's turn and returned; anything else is
    /// returned as the error it amounts to, and the history stays as it
    /// was.
    pub fn receive_reply(&mut self, outcome: ChatOutcome) -> (reply: Result<String, GrokError>)
        requires
            old(self).wf(),
        ensures
            final(self).wf(),
            reply_view(reply) == reply_of(outcome),
            final(self)@ == match reply_of(outcome) {
                Ok(content) => old(self)@.appended(
                    MessageView { role: "assistant"@, content },
                ),
                Err(_) => old(self)@,
            },
    {
        match outcome {
            ChatOutcome::SendFailed(e) => Err(
                GrokError::NetworkError(join2("Failed to send request: ", e.as_str())),
            ),
            ChatOutcome::ReadFailed(e) => Err(
                GrokError::NetworkError(join2("Failed to read response: ", e.as_str())),
            ),
            ChatOutcome::Answered(answer, decoded) => {
                if !status_is_success(answer.status) {
                    return Err(
                        GrokError::ApiError(
                            join4(
                                "API returned status ",
                                answer.status_text.as_str(),
                                ": ",
                                answer.body.as_str(),
                            ),
                        ),
                    );
                }
                match decoded {
                    Ok(Some(content)) => {
                        self.add_message(owned("assistant"), content.clone());
                        Ok(content)
                    },
                    Ok(None) => Err(GrokError::ParseError(owned("No choices in response"))),
                    Err(e) => Err(
                        GrokError::ParseError(
                            join4(
                                "Failed to parse response: ",
                                e.as_str(),
                                ". Response was: ",
                                answer.body.as_str(),
                            ),
                        ),
                    ),
                }
            },
        }
    }

    /// Empties the history.
    pub fn clear_history(&mut self)
        ensures
            final(self).wf(),
            final(self)@ == old(self)@.with_turns(Seq::<MessageView>::empty()),
    {
        self.conversation_history.clear();
        assert(self@.turns =~= Seq::<MessageView>::empty());
    }

    /// The turns of the history, oldest first.
    pub fn get_history(&self) -> (history: &VecDeque<Message>)
        ensures
            views(history@) == self@.turns,
    {
        &self.conversation_history
    }
}

/// The window never holds more than its capacity, holds everything while
/// there is room, and otherwise holds the newest turns in their order.
pub proof fn lemma_window_is_newest(turns: Seq<MessageView>, max: nat)
    ensures
        windowed(turns, max).len() == if turns.len() > max {
            max
        } else {
            turns.len()
        },
        forall|j: int|
            0 <= j < windowed(turns, max).len() ==> windowed(turns, max)[j] == turns[turns.len()
                - windowed(turns, max).len() + j],
{
}

} // verus!
