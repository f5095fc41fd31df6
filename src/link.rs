//! The socket link: which frames become events, the frames that go out, and
//! the states of the connection.
//!
//! While connected, the link reads every frame that waits, then looks for one
//! message from the handlers, and again. A frame `-` is a heartbeat. A request
//! to exit, a closed queue of messages, or a shutdown signal makes it log out
//! and close: it then drains until the peer confirms the close or a timeout
//! passes. A peer that closes the connection ends it at once.
use vstd::prelude::*;
use vstd::string::StringExecFns;

use crate::chain::ApiMessage;
use crate::event::{decodes, same_text, Message, MessageType};
use crate::json::{field, text_at, text_field, JsonValue};

verus! {

/// The lower-case hex digit of `n`, below 16.
pub open spec fn hex_digit(n: int) -> char {
    "0123456789abcdef"@[n]
}

/// How a JSON string writes the character `c`: a quote and a backslash
/// behind a backslash, backspace, tab, line feed, form feed and carriage
/// return as `\b \t \n \f \r`, the other characters below U+0020 as
/// `\u00` and two lower-case hex digits, and every other character as it is.
pub open spec fn json_escape(c: char) -> Seq<char> {
    if c == '"' {
        seq!['\\', '"']
    } else if c == '\\' {
        seq!['\\', '\\']
    } else if c == '\x08' {
        seq!['\\', 'b']
    } else if c == '\t' {
        seq!['\\', 't']
    } else if c == '\n' {
        seq!['\\', 'n']
    } else if c == '\x0C' {
        seq!['\\', 'f']
    } else if c == '\r' {
        seq!['\\', 'r']
    } else if (c as u32) < 0x20 {
        seq!['\\', 'u', '0', '0', hex_digit((c as u32) as int / 16), hex_digit((c as u32) as int % 16)]
    } else {
        seq![c]
    }
}

/// The characters of `s`, each written as a JSON string writes it.
pub open spec fn json_chars(s: Seq<char>) -> Seq<char>
    decreases s.len(),
{
    if s.len() == 0 {
        Seq::empty()
    } else {
        json_escape(s[0]) + json_chars(s.drop_first())
    }
}

/// The JSON string literal that stands for the text `s`.
pub open spec fn json_string(s: Seq<char>) -> Seq<char> {
    seq!['"'] + json_chars(s) + seq!['"']
}

/// Relies on serde_json's `to_string` on a `str`: the text between double
/// quotes, its characters escaped by serde_json's table of escapes.
/// Serializing a `str` into memory does not fail.
#[verifier::external_body]
pub(crate) fn quote(s: &str) -> (r: String)
    ensures
        r@ == json_string(s@),
{
    serde_json::to_string(s).unwrap_or_default()
}

/// The frame that sends the chat text `text`.
pub open spec fn chat_frame(text: Seq<char>) -> Seq<char> {
    "{\"command\":\"sendChat\",\"data\":"@ + json_string(text) + "}"@
}

/// The frame that logs the bot out.
pub open spec fn logout_frame() -> Seq<char> {
    "{\"command\":\"logout\"}"@
}

/// The frame that carries a message of the handlers.
pub fn encode_outbound(msg: &ApiMessage) -> (r: String)
    ensures
        match msg {
            ApiMessage::SendChat(text) => r@ == chat_frame(text@),
            ApiMessage::Exit => r@ == logout_frame(),
        },
{
    match msg {
        ApiMessage::SendChat(text) => {
            let quoted = quote(text.as_str());
            "{\"command\":\"sendChat\",\"data\":".to_owned().concat(quoted.as_str()).concat("}")
        },
        ApiMessage::Exit => "{\"command\":\"logout\"}".to_owned(),
    }
}

/// A frame `-`, which only keeps the connection alive.
pub fn is_heartbeat(text: &str) -> (r: bool)
    ensures
        r == (text@ == "-"@),
{
    same_text(&text.to_owned(), "-")
}

/// The command and the payload of a frame: its member `command`, a string,
/// and its member `data`, `null` where it has none.
pub open spec fn frame_parts(v: JsonValue) -> Option<(Seq<char>, JsonValue)> {
    match text_at(v, "command"@) {
        Some(c) => Some(
            (
                c,
                match field(v, "data"@) {
                    Some(d) => d,
                    None => JsonValue::Null,
                },
            ),
        ),
        None => None,
    }
}

/// Takes the member `key` out of `entries`, if there is one.
fn take_member(entries: &mut Vec<(String, JsonValue)>, key: &str) -> (r: Option<JsonValue>)
    ensures
        r == field(JsonValue::Object(*old(entries)), key@),
{
    let k = key.to_owned();
    let mut i: usize = 0;
    assert(old(entries)@.skip(0) =~= old(entries)@);
    while i < entries.len()
        invariant
            i <= entries.len(),
            k@ == key@,
            *entries == *old(entries),
            field(JsonValue::Object(*old(entries)), key@) == crate::json::lookup(
                entries@.skip(i as int),
                key@,
            ),
        decreases entries.len() - i,
    {
        assert(entries@.skip(i as int).drop_first() =~= entries@.skip(i + 1));
        if entries[i].0 == k {
            assert(entries@.skip(i as int)[0] == entries@[i as int]);
            let (_, v) = entries.remove(i);
            return Some(v);
        }
        i = i + 1;
    }
    None
}

impl Message {
    /// The frame that `v` is, where it has a string member `command`.
    pub fn from_json(v: JsonValue) -> (r: Option<Message>)
        ensures
            match frame_parts(v) {
                Some((c, d)) => r matches Some(m) && m.command@ == c && m.data == d,
                None => r is None,
            },
    {
        let command = match text_field(&v, "command") {
            Some(c) => c,
            None => return None,
        };
        match v {
            JsonValue::Object(entries) => {
                let mut entries = entries;
                let data = match take_member(&mut entries, "data") {
                    Some(d) => d,
                    None => JsonValue::Null,
                };
                Some(Message { command, data })
            },
            _ => None,
        }
    }
}

/// The event that the frame `v` stands for: its payload decoded by its
/// command. `None` for a frame without a command, an unknown command, or a
/// payload that does not fit its command.
pub fn decode_frame(v: JsonValue) -> (r: Option<MessageType>)
    ensures
        match frame_parts(v) {
            Some((c, d)) => decodes(c, d, r),
            None => r is None,
        },
{
    match Message::from_json(v) {
        Some(m) => m.into_message_type(),
        None => None,
    }
}

/// The states of the connection.
#[derive(Debug, Clone, Copy, PartialEq, Eq, Structural)]
pub enum LinkState {
    Connected,
    /// The logout was sent; waiting for the close to be confirmed.
    Draining,
    Closed,
}

/// What a read of the socket gave.
#[derive(Debug, Clone, PartialEq, Eq)]
pub enum SocketRead {
    /// A complete text frame.
    Text(String),
    /// A close frame.
    Close,
    /// A frame of another kind: binary, ping or pong.
    OtherFrame,
    /// Nothing waits to be read.
    WouldBlock,
    /// The peer closed the connection.
    PeerClosed,
}

/// What the link does after a read.
#[derive(Debug, Clone, PartialEq, Eq)]
pub enum ReadAction {
    /// Decode this text as a frame, hand its event on, and read again.
    Decode(String),
    /// Read again.
    ReadMore,
    /// Stop reading for now and look for a message of the handlers.
    Poll,
    /// The connection is over: stop, and let the rest of the bot unwind.
    Stop,
}

/// What a look for a message of the handlers gave.
#[derive(Debug, Clone, PartialEq, Eq)]
pub enum Polled {
    /// No message came in time.
    Timeout,
    Message(ApiMessage),
    /// Every sender of the queue is gone.
    Disconnected,
}

/// What the link does after a look for a message.
#[derive(Debug, Clone, PartialEq, Eq)]
pub enum PollAction {
    /// Go back to reading.
    ReadAgain,
    /// Write this frame, then go back to reading.
    Write(String),
    /// Write this logout frame, close the socket, and drain.
    LogoutAndClose(String),
}

/// The link after the read `read` while in `state`, and what it does.
pub open spec fn after_read(state: LinkState, read: SocketRead) -> (LinkState, ReadAction) {
    if state != LinkState::Connected {
        (state, ReadAction::Poll)
    } else {
        match read {
            SocketRead::Text(t) => if t@ == "-"@ {
                (state, ReadAction::ReadMore)
            } else {
                (state, ReadAction::Decode(t))
            },
            SocketRead::Close => (state, ReadAction::Poll),
            SocketRead::OtherFrame => (state, ReadAction::ReadMore),
            SocketRead::WouldBlock => (state, ReadAction::Poll),
            SocketRead::PeerClosed => (LinkState::Closed, ReadAction::Stop),
        }
    }
}

/// The link after a look for a message in `state`, and what it does: the
/// frame that the action writes is given by `frame_of`.
pub open spec fn after_poll(state: LinkState, polled: Polled, r: (LinkState, PollAction)) -> bool {
    if state != LinkState::Connected {
        r == (state, PollAction::ReadAgain)
    } else {
        match polled {
            Polled::Timeout => r == (state, PollAction::ReadAgain),
            Polled::Message(ApiMessage::SendChat(text)) => r.0 == LinkState::Connected
                && (r.1 matches PollAction::Write(f) && f@ == chat_frame(text@)),
            Polled::Message(ApiMessage::Exit) | Polled::Disconnected => r.0 == LinkState::Draining
                && (r.1 matches PollAction::LogoutAndClose(f) && f@ == logout_frame()),
        }
    }
}

impl LinkState {
    /// The state and the action after the read `read`.
    pub fn on_read(self, read: SocketRead) -> (r: (LinkState, ReadAction))
        ensures
            r == after_read(self, read),
    {
        if self != LinkState::Connected {
            return (self, ReadAction::Poll);
        }
        match read {
            SocketRead::Text(t) => if is_heartbeat(t.as_str()) {
                (self, ReadAction::ReadMore)
            } else {
                (self, ReadAction::Decode(t))
            },
            SocketRead::Close => (self, ReadAction::Poll),
            SocketRead::OtherFrame => (self, ReadAction::ReadMore),
            SocketRead::WouldBlock => (self, ReadAction::Poll),
            SocketRead::PeerClosed => (LinkState::Closed, ReadAction::Stop),
        }
    }

    /// The state and the action after a look for a message of the handlers.
    pub fn on_poll(self, polled: Polled) -> (r: (LinkState, PollAction))
        ensures
            after_poll(self, polled, r),
    {
        if self != LinkState::Connected {
            return (self, PollAction::ReadAgain);
        }
        match polled {
            Polled::Timeout => (self, PollAction::ReadAgain),
            Polled::Message(ApiMessage::SendChat(text)) => {
                let frame = encode_outbound(&ApiMessage::SendChat(text));
                (LinkState::Connected, PollAction::Write(frame))
            },
            Polled::Message(ApiMessage::Exit) | Polled::Disconnected => {
                let frame = encode_outbound(&ApiMessage::Exit);
                (LinkState::Draining, PollAction::LogoutAndClose(frame))
            },
        }
    }

    /// A shutdown signal: a connected link logs out and drains.
    pub fn on_shutdown(self) -> (r: (LinkState, Option<String>))
        ensures
            self == LinkState::Connected ==> r.0 == LinkState::Draining && (r.1 matches Some(f)
                && f@ == logout_frame()),
            self != LinkState::Connected ==> r.0 == self && r.1 is None,
    {
        if self == LinkState::Connected {
            (LinkState::Draining, Some(encode_outbound(&ApiMessage::Exit)))
        } else {
            (self, None)
        }
    }

    /// The peer confirmed the close, or the wait for it timed out: a
    /// draining link is closed.
    pub fn on_drained(self) -> (r: LinkState)
        ensures
            r == (if self == LinkState::Draining {
                LinkState::Closed
            } else {
                self
            }),
    {
        if self == LinkState::Draining {
            LinkState::Closed
        } else {
            self
        }
    }

    /// Whether the link still runs its loop.
    pub fn is_open(self) -> (r: bool)
        ensures
            r == (self != LinkState::Closed),
    {
        self != LinkState::Closed
    }
}

} // verus!
