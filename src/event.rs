//! The events that the room's socket sends, and their decoding from the JSON
//! of a frame `{command, data}`.
use vstd::prelude::*;

use crate::command::{command_of, parse_message, texts};
use crate::json::{
    field, get, i64_of, text_at, text_field, text_of, u32_at, u32_field, u64_at, u64_field,
    JsonValue,
};

verus! {

/// A command given in chat: its name and its arguments.
#[derive(Debug, Clone, PartialEq, Eq)]
pub struct ChatCommand {
    pub command: String,
    pub arguments: Vec<String>,
}

/// `c` is what the chat text `s` holds as a command.
pub open spec fn is_command_of(c: Option<ChatCommand>, s: Seq<char>) -> bool {
    match command_of(s) {
        Some((name, args)) => c matches Some(cc) && cc.command@ == name && texts(cc.arguments@)
            == args,
        None => c is None,
    }
}

impl ChatCommand {
    /// Reads a chat text as a command.
    pub fn from_str(s: &str) -> (r: Option<ChatCommand>)
        ensures
            is_command_of(r, s@),
    {
        match parse_message(s) {
            Some((command, arguments)) => Some(ChatCommand { command, arguments }),
            None => None,
        }
    }
}

/// A chat message, with the command that its text holds, if any.
#[derive(Debug, Clone)]
pub struct ChatMessage {
    pub id: String,
    pub user_id: String,
    pub message: String,
    /// What `message` holds as a command.
    pub command: Option<ChatCommand>,
}

impl ChatMessage {
    /// A chat message, its text read as a command.
    pub fn new(id: String, user_id: String, message: String) -> (r: ChatMessage)
        ensures
            r.id == id,
            r.user_id == user_id,
            r.message == message,
            is_command_of(r.command, message@),
    {
        let mut r = ChatMessage { id, user_id, message, command: None };
        r.parse();
        r
    }

    fn parse(&mut self)
        ensures
            final(self).id == old(self).id,
            final(self).user_id == old(self).user_id,
            final(self).message == old(self).message,
            is_command_of(final(self).command, old(self).message@),
    {
        self.command = ChatCommand::from_str(self.message.as_str());
    }

    /// The command that the message holds, if any.
    pub fn command(&self) -> (r: Option<&ChatCommand>)
        ensures
            match r {
                Some(c) => self.command == Some(*c),
                None => self.command is None,
            },
    {
        match &self.command {
            Some(c) => Some(c),
            None => None,
        }
    }
}

/// A track as the service stores it.
#[derive(Debug, Clone)]
pub struct BaseMedia {
    pub id: String,
    pub source_type: String,
    pub source_id: String,
    pub artist: String,
    pub title: String,
    pub duration: u32,
}

/// A track as a user queued it: the stored track, and the artist, title and
/// bounds that the user gave it.
#[derive(Debug, Clone)]
pub struct MediaWithOverrides {
    pub media: BaseMedia,
    pub artist: String,
    pub title: String,
    pub start: u32,
    pub end: u32,
}

/// The room moved on to a new track.
#[derive(Debug, Clone)]
pub struct AdvanceMessage {
    pub history_id: String,
    pub user_id: String,
    pub media: MediaWithOverrides,
    pub played_at: u64,
}

/// An event of the room.
#[derive(Debug, Clone)]
pub enum MessageType {
    Authenticated,
    Guests { count: i64 },
    Advance(AdvanceMessage),
    ChatMessage(ChatMessage),
    WaitlistUpdate { user_ids: Vec<String> },
}

/// `m` is the track that `v` describes, all of whose members are there.
pub open spec fn base_media_decodes(v: JsonValue, m: BaseMedia) -> bool {
    &&& text_at(v, "_id"@) == Some(m.id@)
    &&& text_at(v, "sourceType"@) == Some(m.source_type@)
    &&& text_at(v, "sourceID"@) == Some(m.source_id@)
    &&& text_at(v, "artist"@) == Some(m.artist@)
    &&& text_at(v, "title"@) == Some(m.title@)
    &&& u32_at(v, "duration"@) == Some(m.duration)
}

/// `v` describes a track with all its members.
pub open spec fn base_media_present(v: JsonValue) -> bool {
    &&& text_at(v, "_id"@) is Some
    &&& text_at(v, "sourceType"@) is Some
    &&& text_at(v, "sourceID"@) is Some
    &&& text_at(v, "artist"@) is Some
    &&& text_at(v, "title"@) is Some
    &&& u32_at(v, "duration"@) is Some
}

/// `m` is the queued track that `v` describes.
pub open spec fn overrides_decode(v: JsonValue, m: MediaWithOverrides) -> bool {
    &&& field(v, "media"@) matches Some(inner) && base_media_decodes(inner, m.media)
    &&& text_at(v, "artist"@) == Some(m.artist@)
    &&& text_at(v, "title"@) == Some(m.title@)
    &&& u32_at(v, "start"@) == Some(m.start)
    &&& u32_at(v, "end"@) == Some(m.end)
}

/// `v` describes a queued track with all its members.
pub open spec fn overrides_present(v: JsonValue) -> bool {
    &&& field(v, "media"@) matches Some(inner) && base_media_present(inner)
    &&& text_at(v, "artist"@) is Some
    &&& text_at(v, "title"@) is Some
    &&& u32_at(v, "start"@) is Some
    &&& u32_at(v, "end"@) is Some
}

/// `a` is the advance that `v` describes.
pub open spec fn advance_decodes(v: JsonValue, a: AdvanceMessage) -> bool {
    &&& text_at(v, "historyID"@) == Some(a.history_id@)
    &&& text_at(v, "userID"@) == Some(a.user_id@)
    &&& field(v, "media"@) matches Some(m) && overrides_decode(m, a.media)
    &&& u64_at(v, "playedAt"@) == Some(a.played_at)
}

/// `v` describes an advance with all its members.
pub open spec fn advance_present(v: JsonValue) -> bool {
    &&& text_at(v, "historyID"@) is Some
    &&& text_at(v, "userID"@) is Some
    &&& field(v, "media"@) matches Some(m) && overrides_present(m) && identity_well_formed(m)
    &&& u64_at(v, "playedAt"@) is Some
}

/// The track of the queued track `v` has a source type and a source id that
/// are not empty: an advance names the track that plays now.
pub open spec fn identity_well_formed(v: JsonValue) -> bool {
    &&& field(v, "media"@) matches Some(inner) && text_at(inner, "sourceType"@) matches Some(
        t,
    ) && t.len() > 0
    &&& field(v, "media"@) matches Some(inner) && text_at(inner, "sourceID"@) matches Some(id)
        && id.len() > 0
}

/// `m` is the chat message that `v` describes.
pub open spec fn chat_decodes(v: JsonValue, m: ChatMessage) -> bool {
    &&& text_at(v, "id"@) == Some(m.id@)
    &&& text_at(v, "userID"@) == Some(m.user_id@)
    &&& text_at(v, "message"@) == Some(m.message@)
    &&& is_command_of(m.command, m.message@)
}

/// `v` describes a chat message with all its members.
pub open spec fn chat_present(v: JsonValue) -> bool {
    &&& text_at(v, "id"@) is Some
    &&& text_at(v, "userID"@) is Some
    &&& text_at(v, "message"@) is Some
}

/// The texts of `v`, where it is an array of strings.
pub open spec fn texts_of_array(v: JsonValue) -> Option<Seq<Seq<char>>> {
    match v {
        JsonValue::Array(items) => if forall|i: int|
            0 <= i < items.len() ==> text_of(#[trigger] items@[i]) is Some {
            Some(items@.map_values(|x: JsonValue| text_of(x)->0))
        } else {
            None
        },
        _ => None,
    }
}

/// `r` is the event that a frame with command `cmd` and payload `data`
/// stands for. Unknown commands, and payloads that lack a member or hold one
/// of another type, stand for none.
pub open spec fn decodes(cmd: Seq<char>, data: JsonValue, r: Option<MessageType>) -> bool {
    if cmd == "authenticated"@ {
        r matches Some(MessageType::Authenticated)
    } else if cmd == "guests"@ {
        match i64_of(data) {
            Some(n) => r matches Some(MessageType::Guests { count }) && count == n,
            None => r is None,
        }
    } else if cmd == "advance"@ {
        if advance_present(data) {
            r matches Some(MessageType::Advance(a)) && advance_decodes(data, a)
        } else {
            r is None
        }
    } else if cmd == "chatMessage"@ {
        if chat_present(data) {
            r matches Some(MessageType::ChatMessage(m)) && chat_decodes(data, m)
        } else {
            r is None
        }
    } else if cmd == "waitlistUpdate"@ {
        match texts_of_array(data) {
            Some(ids) => r matches Some(MessageType::WaitlistUpdate { user_ids }) && texts(
                user_ids@,
            ) == ids,
            None => r is None,
        }
    } else {
        r is None
    }
}

/// Whether `s` reads `lit`.
pub fn same_text(s: &String, lit: &str) -> (r: bool)
    ensures
        r == (s@ == lit@),
{
    *s == lit.to_owned()
}

impl BaseMedia {
    /// The track that `v` describes, if all its members are there.
    pub fn from_json(v: &JsonValue) -> (r: Option<BaseMedia>)
        ensures
            r is Some <==> base_media_present(*v),
            r matches Some(m) ==> base_media_decodes(*v, m),
    {
        let id = match text_field(v, "_id") {
            Some(x) => x,
            None => return None,
        };
        let source_type = match text_field(v, "sourceType") {
            Some(x) => x,
            None => return None,
        };
        let source_id = match text_field(v, "sourceID") {
            Some(x) => x,
            None => return None,
        };
        let artist = match text_field(v, "artist") {
            Some(x) => x,
            None => return None,
        };
        let title = match text_field(v, "title") {
            Some(x) => x,
            None => return None,
        };
        let duration = match u32_field(v, "duration") {
            Some(x) => x,
            None => return None,
        };
        Some(BaseMedia { id, source_type, source_id, artist, title, duration })
    }
}

impl MediaWithOverrides {
    /// The queued track that `v` describes, if all its members are there.
    pub fn from_json(v: &JsonValue) -> (r: Option<MediaWithOverrides>)
        ensures
            r is Some <==> overrides_present(*v),
            r matches Some(m) ==> overrides_decode(*v, m),
    {
        let media = match get(v, "media") {
            Some(inner) => match BaseMedia::from_json(inner) {
                Some(m) => m,
                None => return None,
            },
            None => return None,
        };
        let artist = match text_field(v, "artist") {
            Some(x) => x,
            None => return None,
        };
        let title = match text_field(v, "title") {
            Some(x) => x,
            None => return None,
        };
        let start = match u32_field(v, "start") {
            Some(x) => x,
            None => return None,
        };
        let end = match u32_field(v, "end") {
            Some(x) => x,
            None => return None,
        };
        Some(MediaWithOverrides { media, artist, title, start, end })
    }
}

impl AdvanceMessage {
    /// The advance that `v` describes, if all its members are there.
    pub fn from_json(v: &JsonValue) -> (r: Option<AdvanceMessage>)
        ensures
            r is Some <==> advance_present(*v),
            r matches Some(a) ==> advance_decodes(*v, a),
    {
        let history_id = match text_field(v, "historyID") {
            Some(x) => x,
            None => return None,
        };
        let user_id = match text_field(v, "userID") {
            Some(x) => x,
            None => return None,
        };
        let media = match get(v, "media") {
            Some(inner) => match MediaWithOverrides::from_json(inner) {
                Some(m) => m,
                None => return None,
            },
            None => return None,
        };
        if media.media.source_type.as_str().is_empty() || media.media.source_id.as_str().is_empty() {
            return None;
        }
        let played_at = match u64_field(v, "playedAt") {
            Some(x) => x,
            None => return None,
        };
        Some(AdvanceMessage { history_id, user_id, media, played_at })
    }
}

impl ChatMessage {
    /// The chat message that `v` describes, if all its members are there.
    pub fn from_json(v: &JsonValue) -> (r: Option<ChatMessage>)
        ensures
            r is Some <==> chat_present(*v),
            r matches Some(m) ==> chat_decodes(*v, m),
    {
        let id = match text_field(v, "id") {
            Some(x) => x,
            None => return None,
        };
        let user_id = match text_field(v, "userID") {
            Some(x) => x,
            None => return None,
        };
        let message = match text_field(v, "message") {
            Some(x) => x,
            None => return None,
        };
        Some(ChatMessage::new(id, user_id, message))
    }
}

/// The texts of `v`, where it is an array of strings.
pub fn strings_of_array(v: &JsonValue) -> (r: Option<Vec<String>>)
    ensures
        match texts_of_array(*v) {
            Some(ids) => r matches Some(out) && texts(out@) == ids,
            None => r is None,
        },
{
    match v {
        JsonValue::Array(items) => {
            let mut out: Vec<String> = Vec::new();
            let mut i: usize = 0;
            while i < items.len()
                invariant
                    *v == JsonValue::Array(*items),
                    i <= items.len(),
                    out@.len() == i,
                    forall|j: int| 0 <= j < i ==> text_of(#[trigger] items@[j]) == Some(out@[j]@),
                decreases items.len() - i,
            {
                match &items[i] {
                    JsonValue::Str(s) => out.push(s.clone()),
                    _ => return None,
                }
                i = i + 1;
            }
            proof {
                assert(texts(out@) =~= items@.map_values(|x: JsonValue| text_of(x)->0));
            }
            Some(out)
        },
        _ => None,
    }
}

/// A frame of the socket: its command and its payload.
#[derive(Debug)]
pub struct Message {
    pub command: String,
    pub data: JsonValue,
}

impl Message {
    /// The event that the frame stands for, if its command is known and its
    /// payload has the members that the command needs.
    pub fn into_message_type(self) -> (r: Option<MessageType>)
        ensures
            decodes(self.command@, self.data, r),
    {
        if same_text(&self.command, "authenticated") {
            Some(MessageType::Authenticated)
        } else if same_text(&self.command, "guests") {
            match self.data.as_i64() {
                Some(count) => Some(MessageType::Guests { count }),
                None => None,
            }
        } else if same_text(&self.command, "advance") {
            match AdvanceMessage::from_json(&self.data) {
                Some(a) => Some(MessageType::Advance(a)),
                None => None,
            }
        } else if same_text(&self.command, "chatMessage") {
            match ChatMessage::from_json(&self.data) {
                Some(m) => Some(MessageType::ChatMessage(m)),
                None => None,
            }
        } else if same_text(&self.command, "waitlistUpdate") {
            match strings_of_array(&self.data) {
                Some(user_ids) => Some(MessageType::WaitlistUpdate { user_ids }),
                None => None,
            }
        } else {
            None
        }
    }
}

} // verus!
