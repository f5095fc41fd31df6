//! What the handlers decide from a chat command or an advance. The store, the
//! API and the chat are reached by the caller, which carries the decision out.
use vstd::prelude::*;
use vstd::string::StringExecFns;

use crate::api::SkipOptions;
use crate::command::texts;
use crate::event::{same_text, AdvanceMessage, ChatMessage, MessageType};
use crate::json::{get, text_at, field, text_field, JsonValue};
use crate::media::{media_of, Media, ParseMediaIDError};

verus! {

/// The reply to a skip-list command without the media it names.
pub open spec fn usage_reason_only() -> Seq<char> {
    "usage: !skiplist <media> <reason>"@
}

/// The reply to a skip-list command of the wrong shape.
pub open spec fn usage_full() -> Seq<char> {
    "usage: !skiplist [media] <reason>"@
}

/// A skip-list entry: why the track is skipped.
#[derive(Debug, Clone)]
pub struct SkipEntry {
    pub reason: String,
}

/// What a skip-list command asks for.
#[derive(Debug, Clone)]
pub enum SkipListAction {
    /// Store the entry, then skip the track that plays now if `skip`.
    Add { media: Media, reason: String, skip: bool },
    /// Reply with this usage text.
    Usage(String),
    /// The media named is not of the form `<source_type>:<source_id>`.
    BadMedia(ParseMediaIDError),
}

/// `m` is the media with the given source type and id.
pub open spec fn is_media(m: Media, source_type: Seq<char>, source_id: Seq<char>) -> bool {
    m.source_type@ == source_type && m.source_id@ == source_id
}

/// `r` is what the arguments `args` of a skip-list command ask for, where
/// `current` plays now: `<media> <reason>` adds that media, `<reason>` the
/// media that plays now.
pub open spec fn processes(
    args: Seq<Seq<char>>,
    current: Option<Media>,
    skip: bool,
    r: SkipListAction,
) -> bool {
    if args.len() == 2 {
        match media_of(args[0]) {
            Some((t, id)) => r matches SkipListAction::Add { media, reason, skip: s } && is_media(
                media,
                t,
                id,
            ) && reason@ == args[1] && s == skip,
            None => r is BadMedia,
        }
    } else if args.len() == 1 {
        match current {
            Some(m) => r matches SkipListAction::Add { media, reason, skip: s } && is_media(
                media,
                m.source_type@,
                m.source_id@,
            ) && reason@ == args[0] && s == skip,
            None => r matches SkipListAction::Usage(u) && u@ == usage_reason_only(),
        }
    } else {
        r matches SkipListAction::Usage(u) && u@ == usage_full()
    }
}

/// `r` is what a skip-list command with arguments `args` asks for: a first
/// argument `add` or `skip` picks the form, and the arguments after it are
/// processed; otherwise all the arguments are, as `[media] <reason>`.
pub open spec fn skiplist_command(args: Seq<Seq<char>>, current: Option<Media>, r: SkipListAction) -> bool {
    if args.len() >= 1 && args[0] == "add"@ {
        processes(args.skip(1), current, false, r)
    } else if args.len() >= 1 && args[0] == "skip"@ {
        processes(args.skip(1), current, true, r)
    } else {
        processes(args, current, false, r)
    }
}

/// The media that the room state `now` says plays now: its member
/// `booth.media.media`, with string members `sourceType` and `sourceID`.
pub open spec fn media_in_state(now: JsonValue) -> Option<(Seq<char>, Seq<char>)> {
    match field(now, "booth"@) {
        Some(booth) => match field(booth, "media"@) {
            Some(queued) => match field(queued, "media"@) {
                Some(m) => match (text_at(m, "sourceType"@), text_at(m, "sourceID"@)) {
                    (Some(t), Some(id)) => Some((t, id)),
                    _ => None,
                },
                None => None,
            },
            None => None,
        },
        None => None,
    }
}

/// The media that the room state `now` says plays now.
pub fn get_media_from_now(now: &JsonValue) -> (r: Option<Media>)
    ensures
        match media_in_state(*now) {
            Some((t, id)) => r matches Some(m) && is_media(m, t, id),
            None => r is None,
        },
{
    let booth = match get(now, "booth") {
        Some(b) => b,
        None => return None,
    };
    let queued = match get(booth, "media") {
        Some(q) => q,
        None => return None,
    };
    let m = match get(queued, "media") {
        Some(m) => m,
        None => return None,
    };
    let source_type = match text_field(m, "sourceType") {
        Some(t) => t,
        None => return None,
    };
    let source_id = match text_field(m, "sourceID") {
        Some(id) => id,
        None => return None,
    };
    Some(Media { source_type, source_id })
}

/// The skip list: tracks that are skipped whenever they start.
#[derive(Debug)]
pub struct SkipList {
    /// The track that plays now, as far as the handler knows.
    pub current_media: Option<Media>,
}

/// The reason given for skipping a track of the skip list.
pub open spec fn autoskip_reason(reason: Seq<char>) -> Seq<char> {
    "This track is on the autoskip list: "@ + reason
}

impl SkipList {
    /// The handler, knowing the track that the room state `now` plays.
    pub fn new(now: &JsonValue) -> (r: SkipList)
        ensures
            match media_in_state(*now) {
                Some((t, id)) => r.current_media matches Some(m) && is_media(m, t, id),
                None => r.current_media is None,
            },
    {
        SkipList { current_media: get_media_from_now(now) }
    }

    fn process_skip(&self, args: &Vec<String>, from: usize, skip: bool) -> (r: SkipListAction)
        requires
            from <= args.len(),
        ensures
            processes(texts(args@).skip(from as int), self.current_media, skip, r),
    {
        let n = args.len() - from;
        if n == 2 {
            match Media::from_str(args[from].as_str()) {
                Ok(media) => SkipListAction::Add { media, reason: args[from + 1].clone(), skip },
                Err(e) => SkipListAction::BadMedia(e),
            }
        } else if n == 1 {
            match &self.current_media {
                Some(m) => SkipListAction::Add {
                    media: Media { source_type: m.source_type.clone(), source_id: m.source_id.clone() },
                    reason: args[from].clone(),
                    skip,
                },
                None => SkipListAction::Usage("usage: !skiplist <media> <reason>".to_owned()),
            }
        } else {
            SkipListAction::Usage("usage: !skiplist [media] <reason>".to_owned())
        }
    }

    /// What a chat message asks of the skip list: `None` unless it is the
    /// command `skiplist` or `blacklist`.
    pub fn handle_chat_message(&self, message: &ChatMessage) -> (r: Option<SkipListAction>)
        ensures
            match message.command {
                Some(c) => if c.command@ == "skiplist"@ || c.command@ == "blacklist"@ {
                    r matches Some(a) && skiplist_command(texts(c.arguments@), self.current_media, a)
                } else {
                    r is None
                },
                None => r is None,
            },
    {
        let c = match message.command() {
            Some(c) => c,
            None => return None,
        };
        if !(same_text(&c.command, "skiplist") || same_text(&c.command, "blacklist")) {
            return None;
        }
        let args = &c.arguments;
        proof {
            assert(texts(args@).skip(0) =~= texts(args@));
        }
        if args.len() >= 1 && same_text(&args[0], "add") {
            Some(self.process_skip(args, 1, false))
        } else if args.len() >= 1 && same_text(&args[0], "skip") {
            Some(self.process_skip(args, 1, true))
        } else {
            Some(self.process_skip(args, 0, false))
        }
    }

    /// The media of the track that `advance` started, the key of the skip
    /// list.
    pub fn advance_media(advance: &AdvanceMessage) -> (r: Media)
        ensures
            is_media(r, advance.media.media.source_type@, advance.media.media.source_id@),
    {
        Media {
            source_type: advance.media.media.source_type.clone(),
            source_id: advance.media.media.source_id.clone(),
        }
    }

    /// The skip request for the track that `advance` started, where the skip
    /// list holds `entry` for it.
    pub fn handle_advance(advance: &AdvanceMessage, entry: &Option<SkipEntry>) -> (r: Option<
        SkipOptions,
    >)
        ensures
            match entry {
                Some(e) => r matches Some(o) && o.user_id == advance.user_id && o.reason is Some
                    && o.reason->0@ == autoskip_reason(e.reason@) && !o.remove,
                None => r is None,
            },
    {
        match entry {
            Some(e) => Some(
                SkipOptions {
                    user_id: advance.user_id.clone(),
                    reason: Some(
                        "This track is on the autoskip list: ".to_owned().concat(e.reason.as_str()),
                    ),
                    remove: false,
                },
            ),
            None => None,
        }
    }
}

/// What an emote command asks for.
#[derive(Debug, Clone)]
pub enum EmoteAction {
    /// Reply with the URL of the emote of this name, if there is one.
    Show(String),
    /// Store an emote, then reply that it was added.
    Add { name: String, url: String },
    /// Publish the page of all emotes, then reply with its URL.
    Publish,
}

/// `r` is what the emote command `name` with arguments `args` asks for.
pub open spec fn emote_command(name: Seq<char>, args: Seq<Seq<char>>, r: Option<EmoteAction>) -> bool {
    if (name == "e"@ || name == "emote"@) && args.len() >= 1 {
        r matches Some(EmoteAction::Show(n)) && n@ == args[0]
    } else if name == "addemote"@ && args.len() >= 2 {
        r matches Some(EmoteAction::Add { name: n, url }) && n@ == args[0] && url@ == args[1]
    } else if name == "emotes"@ {
        r matches Some(EmoteAction::Publish)
    } else {
        r is None
    }
}

/// The reply after the emote `name` was added.
pub open spec fn added_text(name: Seq<char>) -> Seq<char> {
    name + " added!"@
}

/// The emote handler.
#[derive(Debug, Default)]
pub struct Emotes;

impl Emotes {
    /// What a chat message asks of the emotes: `e` or `emote` with a name,
    /// `addemote` with a name and a URL, or `emotes`. A command without the
    /// arguments it needs asks for nothing.
    pub fn handle(&self, message: &ChatMessage) -> (r: Option<EmoteAction>)
        ensures
            match message.command {
                Some(c) => emote_command(c.command@, texts(c.arguments@), r),
                None => r is None,
            },
    {
        let c = match message.command() {
            Some(c) => c,
            None => return None,
        };
        let args = &c.arguments;
        if (same_text(&c.command, "e") || same_text(&c.command, "emote")) && args.len() >= 1 {
            Some(EmoteAction::Show(args[0].clone()))
        } else if same_text(&c.command, "addemote") && args.len() >= 2 {
            Some(EmoteAction::Add { name: args[0].clone(), url: args[1].clone() })
        } else if same_text(&c.command, "emotes") {
            Some(EmoteAction::Publish)
        } else {
            None
        }
    }

    /// The reply after the emote `name` was added.
    pub fn added_reply(name: &String) -> (r: String)
        ensures
            r@ == added_text(name@),
    {
        name.clone().concat(" added!")
    }
}

/// The handler of the command `exit`.
#[derive(Debug, Default)]
pub struct Exit;

impl Exit {
    /// Whether the event is the chat command `exit`, which logs the bot out.
    pub fn handle(&self, event: &MessageType) -> (r: bool)
        ensures
            r == (event matches MessageType::ChatMessage(m) && m.command matches Some(c)
                && c.command@ == "exit"@),
    {
        match event {
            MessageType::ChatMessage(m) => match m.command() {
                Some(c) => same_text(&c.command, "exit"),
                None => false,
            },
            _ => false,
        }
    }
}

/// The handler of the command `version`.
#[derive(Debug, Default)]
pub struct Version;

/// The reply to the command `version`.
pub open spec fn version_text(name: Seq<char>, version: Seq<char>) -> Seq<char> {
    "Running "@ + name + " v"@ + version
}

impl Version {
    /// The reply to the chat command `version`, naming the package `name` at
    /// `version`; `None` for any other event.
    pub fn handle(&self, event: &MessageType, name: &str, version: &str) -> (r: Option<String>)
        ensures
            match r {
                Some(t) => event matches MessageType::ChatMessage(m) && m.command matches Some(c)
                    && c.command@ == "version"@ && t@ == version_text(name@, version@),
                None => !(event matches MessageType::ChatMessage(m) && m.command matches Some(c)
                    && c.command@ == "version"@),
            },
    {
        match event {
            MessageType::ChatMessage(m) => match m.command() {
                Some(c) => if same_text(&c.command, "version") {
                    Some("Running ".to_owned().concat(name).concat(" v").concat(version))
                } else {
                    None
                },
                None => None,
            },
            _ => None,
        }
    }
}

} // verus!
