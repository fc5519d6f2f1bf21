//! WebSocket messages as far as diagnostics look into them.
use vstd::prelude::*;
use vstd::string::*;
use vstd::utf8::*;
use crate::format_text::decimal;
use crate::format_text::push_decimal;
use crate::utf8_text::byte_len;
use crate::utf8_text::utf8_len;

verus! {

/// The reason that a peer gives for closing a WebSocket.
#[derive(Debug, Clone, PartialEq, Eq)]
pub struct CloseFrame {
    pub code: u16,
    pub reason: String,
}

/// A WebSocket message.
#[derive(Debug, Clone, PartialEq, Eq)]
pub enum Message {
    Text(String),
    Binary(Vec<u8>),
    Ping(Vec<u8>),
    Pong(Vec<u8>),
    Close(Option<CloseFrame>),
    /// A raw frame, by its length on the wire.
    Frame(usize),
}

impl Message {
    /// The bytes that the message counts for: those of its payload, of its close reason, or of
    /// the whole raw frame.
    pub open spec fn size(&self) -> nat {
        match *self {
            Message::Text(text) => utf8_len(text@),
            Message::Binary(data) => data@.len(),
            Message::Ping(data) => data@.len(),
            Message::Pong(data) => data@.len(),
            Message::Close(Some(frame)) => utf8_len(frame.reason@),
            Message::Close(None) => 0,
            Message::Frame(length) => length as nat,
        }
    }

    /// Whether the message steers the connection rather than carrying data.
    pub open spec fn control(&self) -> bool {
        *self is Ping || *self is Pong || *self is Close
    }

    /// The name of the message's kind.
    pub open spec fn kind(&self) -> Seq<char> {
        match *self {
            Message::Text(_) => "text"@,
            Message::Binary(_) => "binary"@,
            Message::Ping(_) => "ping"@,
            Message::Pong(_) => "pong"@,
            Message::Close(_) => "close"@,
            Message::Frame(_) => "frame"@,
        }
    }

    /// The code and the reason of a close message that has them, the code in decimal.
    pub open spec fn close_texts(&self) -> Option<(Seq<char>, Seq<char>)> {
        match *self {
            Message::Close(Some(frame)) => Some((decimal(frame.code as nat), frame.reason@)),
            _ => None,
        }
    }

    /// How many bytes the message counts for.
    pub fn len(&self) -> (bytes: usize)
        ensures
            bytes as nat == self.size(),
    {
        match self {
            Message::Text(text) => byte_len(text.as_str()),
            Message::Binary(data) => data.len(),
            Message::Ping(data) => data.len(),
            Message::Pong(data) => data.len(),
            Message::Close(Some(frame)) => byte_len(frame.reason.as_str()),
            Message::Close(None) => 0,
            Message::Frame(length) => *length,
        }
    }

    /// Whether the message is a ping, a pong or a close.
    pub fn is_control(&self) -> (yes: bool)
        ensures
            yes == self.control(),
    {
        match self {
            Message::Ping(_) => true,
            Message::Pong(_) => true,
            Message::Close(_) => true,
            Message::Text(_) => false,
            Message::Binary(_) => false,
            Message::Frame(_) => false,
        }
    }
}

/// The texts of optional close details.
pub open spec fn details_texts(details: Option<(String, String)>) -> Option<
    (Seq<char>, Seq<char>),
> {
    match details {
        Some((code, reason)) => Some((code@, reason@)),
        None => None,
    }
}

/// Names the kind of a message.
pub fn message_kind(message: &Message) -> (kind: &'static str)
    ensures
        kind@ == message.kind(),
{
    match message {
        Message::Text(_) => "text",
        Message::Binary(_) => "binary",
        Message::Ping(_) => "ping",
        Message::Pong(_) => "pong",
        Message::Close(_) => "close",
        Message::Frame(_) => "frame",
    }
}

/// The code and the reason of a close message that has them.
pub fn close_details(message: &Message) -> (details: Option<(String, String)>)
    ensures
        details_texts(details) == message.close_texts(),
{
    match message {
        Message::Close(Some(frame)) => {
            let mut code = String::new();
            push_decimal(&mut code, frame.code as u128);
            assert(code@ =~= decimal(frame.code as nat));
            Some((code, frame.reason.clone()))
        },
        _ => None,
    }
}

/// A message counts for the UTF-8 bytes of its text or close reason, for the bytes of its payload,
/// or for the whole raw frame; only pings, pongs and closes are control messages.
pub proof fn messages_count_for_their_payload(message: Message)
    ensures
        message matches Message::Text(text) ==> message.size() == encode_utf8(text@).len(),
        message matches Message::Binary(data) ==> message.size() == data@.len(),
        message matches Message::Ping(data) ==> message.size() == data@.len(),
        message matches Message::Pong(data) ==> message.size() == data@.len(),
        message matches Message::Close(Some(frame)) ==> message.size() == encode_utf8(
            frame.reason@,
        ).len(),
        message matches Message::Close(None) ==> message.size() == 0,
        message matches Message::Frame(length) ==> message.size() == length,
        message.control() <==> !(message is Text || message is Binary || message is Frame),
{
}

/// Messages of different kinds have different names, and only a close with a frame has details:
/// its code in decimal and its reason.
pub proof fn messages_are_named_by_kind(message: Message)
    ensures
        message is Text <==> message.kind() == "text"@,
        message is Binary <==> message.kind() == "binary"@,
        message is Ping <==> message.kind() == "ping"@,
        message is Pong <==> message.kind() == "pong"@,
        message is Close <==> message.kind() == "close"@,
        message is Frame <==> message.kind() == "frame"@,
        message.close_texts() is Some <==> (message matches Message::Close(Some(_))),
        message matches Message::Close(Some(frame)) ==> message.close_texts() == Some(
            (decimal(frame.code as nat), frame.reason@),
        ),
{
    reveal_strlit("text");
    reveal_strlit("binary");
    reveal_strlit("ping");
    reveal_strlit("pong");
    reveal_strlit("close");
    reveal_strlit("frame");
    assert("text"@[0] == 't' && "binary"@[0] == 'b' && "ping"@[1] == 'i' && "pong"@[1] == 'o'
        && "close"@[0] == 'c' && "frame"@[0] == 'f' && "ping"@[0] == 'p' && "pong"@[0] == 'p');
}

/// The texts of close details are the two strings.
pub proof fn details_keep_their_texts(details: Option<(String, String)>)
    ensures
        details is None <==> details_texts(details) is None,
        details matches Some(pair) ==> details_texts(details) == Some((pair.0@, pair.1@)),
{
}

} // verus!
