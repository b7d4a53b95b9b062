//! The chat-relay sink: text shown in the chatbox of a VRChat client, sent
//! to it as one OSC message in one datagram.
//!
//! This module builds the datagram and names the errors. Opening the socket
//! and sending is left to whoever drives it, who reports back with a
//! [`Delivery`].

use crate::text::{join2, owned};
use vstd::prelude::*;
use vstd::utf8::encode_utf8;

verus! {

/// Why a message did not reach the sink.
#[derive(Debug, PartialEq, Eq)]
pub enum VRChatError {
    SocketError(String),
    SendError(String),
}

/// A [`VRChatError`] with its message as plain text.
pub enum VRChatErrorView {
    SocketError(Seq<char>),
    SendError(Seq<char>),
}

impl View for VRChatError {
    type V = VRChatErrorView;

    open spec fn view(&self) -> VRChatErrorView {
        match *self {
            VRChatError::SocketError(msg) => VRChatErrorView::SocketError(msg@),
            VRChatError::SendError(msg) => VRChatErrorView::SendError(msg@),
        }
    }
}

impl VRChatError {
    /// The text of the error as it is shown to the operator.
    pub open spec fn text(self) -> Seq<char> {
        match self {
            VRChatError::SocketError(msg) => "Socket error: "@ + msg@,
            VRChatError::SendError(msg) => "Send error: "@ + msg@,
        }
    }

    /// The error as a line of text.
    pub fn to_string(&self) -> (r: String)
        ensures
            r@ == self.text(),
    {
        match self {
            VRChatError::SocketError(msg) => join2("Socket error: ", msg.as_str()),
            VRChatError::SendError(msg) => join2("Send error: ", msg.as_str()),
        }
    }
}

/// An OSC string: the text in UTF-8, then one to four zero bytes, so many
/// that the length becomes a multiple of four.
pub open spec fn osc_string(s: Seq<char>) -> Seq<u8> {
    let bytes = encode_utf8(s);
    bytes + Seq::new((4 - bytes.len() % 4) as nat, |i: int| 0u8)
}

/// The type tag of a boolean argument.
pub open spec fn osc_flag(b: bool) -> Seq<char> {
    if b {
        seq!['T']
    } else {
        seq!['F']
    }
}

/// An OSC message with one string argument and two boolean arguments: the
/// address, the type tags, and the string. The booleans live in their tags
/// and take no further bytes.
pub open spec fn osc_text_message(
    addr: Seq<char>,
    text: Seq<char>,
    first: bool,
    second: bool,
) -> Seq<u8> {
    osc_string(addr) + osc_string(seq![',', 's'] + osc_flag(first) + osc_flag(second))
        + osc_string(text)
}

/// The error type of the OSC library.
#[verifier::external_type_specification]
#[verifier::external_body]
pub struct ExOscError(rosc::OscError);

/// `rosc::encoder::encode` on a message with the given address and the
/// arguments string, boolean, boolean. Trusted, not proved: the encoder
/// writes the address, the type tags behind a comma and the string, each
/// terminated and padded with zero bytes to a multiple of four, and ends in
/// `Ok` on every path, since writing into a vector cannot fail.
#[verifier::external_body]
fn encode_text_message(
    addr: &str,
    text: &str,
    first: bool,
    second: bool,
) -> (r: Result<Vec<u8>, rosc::OscError>)
    ensures
        r is Ok,
        r->Ok_0@ == osc_text_message(addr@, text@, first, second),
{
    let args = vec![
        rosc::OscType::String(text.to_string()),
        rosc::OscType::Bool(first),
        rosc::OscType::Bool(second),
    ];
    rosc::encoder::encode(&rosc::OscPacket::Message(rosc::OscMessage { addr: addr.to_string(), args }))
}

/// The `Display` text of an encoder error. Nothing is claimed of it.
#[verifier::external_body]
fn osc_error_text(e: &rosc::OscError) -> (r: String) {
    e.to_string()
}

/// One datagram and where it goes.
#[derive(Debug, PartialEq, Eq)]
pub struct Datagram {
    pub target_addr: String,
    pub payload: Vec<u8>,
}

/// What came of sending a datagram.
#[derive(Debug, PartialEq, Eq)]
pub enum Delivery {
    /// No local socket could be bound; the system's words.
    BindFailed(String),
    /// The datagram could not be sent; the system's words.
    SendFailed(String),
    /// The datagram left; the number of bytes sent.
    Sent(usize),
}

/// The error that a delivery is reported as, if it is one.
pub open spec fn delivery_failure(delivery: Delivery) -> Option<VRChatErrorView> {
    match delivery {
        Delivery::BindFailed(e) => Some(
            VRChatErrorView::SocketError("Failed to bind socket: "@ + e@),
        ),
        Delivery::SendFailed(e) => Some(
            VRChatErrorView::SendError("Failed to send OSC message: "@ + e@),
        ),
        Delivery::Sent(_) => None,
    }
}

/// The client of the chat-relay sink.
#[derive(Debug, PartialEq, Eq)]
pub struct VRChatClient {
    pub target_addr: String,
}

impl VRChatClient {
    /// A client for the sink on this machine, at its usual port.
    pub fn new() -> (client: Self)
        ensures
            client.target_addr@ == "127.0.0.1:9000"@,
    {
        VRChatClient { target_addr: owned("127.0.0.1:9000") }
    }

    /// The datagram that shows `message` in the chatbox at once, with the
    /// notification sound.
    pub fn send_message(&self, message: &str) -> (r: Result<Datagram, VRChatError>)
        ensures
            r matches Ok(datagram) && datagram.target_addr@ == self.target_addr@
                && datagram.payload@ == osc_text_message(
                "/chatbox/input"@,
                message@,
                true,
                true,
            ),
    {
        match self.send_chatbox_input(message, true) {
            Ok(payload) => Ok(Datagram { target_addr: self.target_addr.clone(), payload }),
            Err(e) => Err(e),
        }
    }

    /// The bytes of the chatbox message for `text`: shown at once, with the
    /// notification sound if `notify` is set.
    pub fn send_chatbox_input(&self, text: &str, notify: bool) -> (r: Result<Vec<u8>, VRChatError>)
        ensures
            r matches Ok(bytes) && bytes@ == osc_text_message(
                "/chatbox/input"@,
                text@,
                true,
                notify,
            ),
    {
        match encode_text_message("/chatbox/input", text, true, notify) {
            Ok(bytes) => Ok(bytes),
            Err(e) => Err(
                VRChatError::SendError(
                    join2("Failed to encode OSC message: ", osc_error_text(&e).as_str()),
                ),
            ),
        }
    }

    /// Says what came of sending a datagram: nothing to report, or the
    /// error.
    pub fn delivered(delivery: Delivery) -> (r: Result<(), VRChatError>)
        ensures
            match delivery_failure(delivery) {
                Some(e) => r matches Err(got) && got@ == e,
                None => r is Ok,
            },
    {
        match delivery {
            Delivery::BindFailed(e) => Err(
                VRChatError::SocketError(join2("Failed to bind socket: ", e.as_str())),
            ),
            Delivery::SendFailed(e) => Err(
                VRChatError::SendError(join2("Failed to send OSC message: ", e.as_str())),
            ),
            Delivery::Sent(_) => Ok(()),
        }
    }
}

impl Default for VRChatClient {
    fn default() -> (client: Self)
        ensures
            client.target_addr@ == "127.0.0.1:9000"@,
    {
        Self::new()
    }
}

/// The longest datagram that is looked at for a mute signal, in bytes.
pub const MAX_SIGNAL_LEN: usize = 1536;

/// The name for what `rosc::decoder::decode_udp` makes of a datagram, as
/// far as the relay looks at it: where the datagram holds one message, the
/// address of the message and, for each of its arguments in order, the
/// boolean it is, or nothing where it is no boolean; nothing at all where
/// the datagram holds a bundle or does not decode.
pub uninterp spec fn osc_flags_message(bytes: Seq<u8>) -> Option<(Seq<char>, Seq<Option<bool>>)>;

/// The view of a decoded message.
pub open spec fn flags_message_view(message: Option<(String, Vec<Option<bool>>)>) -> Option<
    (Seq<char>, Seq<Option<bool>>),
> {
    match message {
        Some((addr, flags)) => Some((addr@, flags@)),
        None => None,
    }
}

/// `rosc::decoder::decode_udp` on a datagram, with the message it holds
/// given as its address and, argument for argument, the boolean that the
/// argument is, if it is one. Trusted, not proved; the decoding is left to
/// the OSC library. Long datagrams are kept from it, since it descends into
/// nested bundles.
#[verifier::external_body]
fn decode_flags_message(bytes: &[u8]) -> (message: Option<(String, Vec<Option<bool>>)>)
    requires
        bytes@.len() <= MAX_SIGNAL_LEN,
    ensures
        flags_message_view(message) == osc_flags_message(bytes@),
{
    match rosc::decoder::decode_udp(bytes) {
        Ok((_, rosc::OscPacket::Message(m))) => {
            let flags = m.args.into_iter().map(|arg| arg.bool()).collect();
            Some((m.addr, flags))
        },
        _ => None,
    }
}

/// The mute signal that a decoded message carries: the first argument of
/// a message to the address of the operator's mute state, where that
/// argument is a boolean; nothing for any other message.
pub open spec fn mute_signal_of(message: Option<(Seq<char>, Seq<Option<bool>>)>) -> Option<bool> {
    match message {
        Some((addr, flags)) => if addr == "/avatar/parameters/MuteSelf"@ && flags.len() > 0 {
            flags[0]
        } else {
            None
        },
        None => None,
    }
}

/// The mute signal that a decoded message carries.
pub fn mute_signal_in(message: Option<(String, Vec<Option<bool>>)>) -> (signal: Option<bool>)
    ensures
        signal == mute_signal_of(flags_message_view(message)),
{
    match message {
        Some((addr, flags)) => {
            if addr == owned("/avatar/parameters/MuteSelf") && flags.len() > 0 {
                flags[0]
            } else {
                None
            }
        },
        None => None,
    }
}

/// The mute signal that a datagram from the sink carries, if it carries
/// one: whether the operator is muted there. Datagrams longer than
/// [`MAX_SIGNAL_LEN`] carry none.
pub fn mute_signal(datagram: &[u8]) -> (signal: Option<bool>)
    ensures
        signal == if datagram@.len() <= MAX_SIGNAL_LEN {
            mute_signal_of(osc_flags_message(datagram@))
        } else {
            None
        },
{
    if datagram.len() <= MAX_SIGNAL_LEN {
        mute_signal_in(decode_flags_message(datagram))
    } else {
        None
    }
}

} // verus!
