//! The requests that handlers make of the room's HTTP API, and what comes
//! back.
use vstd::prelude::*;

use vstd::string::StringExecFns;

use crate::event::{base_media_decodes, base_media_present, texts_of_array, strings_of_array, BaseMedia, MediaWithOverrides};
use crate::command::texts;
use crate::json::{field, get, text_at, text_field, u32_at, u32_field, JsonValue};
use crate::link::json_string;

verus! {

/// The API refused the bearer token: it is missing or expired.
#[derive(Debug, Clone, Copy, PartialEq, Eq)]
pub struct UnauthorizedError;

impl UnauthorizedError {
    /// The message shown for this error.
    pub fn message(&self) -> (r: String)
        ensures
            r@ == "JWT missing or expired"@,
    {
        "JWT missing or expired".to_owned()
    }
}

/// A page of results: how many to pass over, and how many to return.
#[derive(Debug, Clone, Copy, PartialEq, Eq)]
pub struct Pagination {
    pub offset: u32,
    pub limit: u32,
}

impl Default for Pagination {
    /// The first page of 25 results.
    fn default() -> (r: Pagination)
        ensures
            r.offset == 0 && r.limit == 25,
    {
        Pagination { offset: 0, limit: 25 }
    }
}

/// A query of the play history.
#[derive(Debug, Clone, Default)]
pub struct HistoryOptions {
    /// Only the plays of the track with this id.
    pub media: Option<String>,
    pub pagination: Option<Pagination>,
}

/// A request to skip the track that plays now.
#[derive(Debug, Clone, Default)]
pub struct SkipOptions {
    /// The user who queued the track.
    pub user_id: String,
    pub reason: Option<String>,
    /// Whether that user also leaves the waitlist.
    pub remove: bool,
}

/// A past play. `played_at` is in milliseconds since the Unix epoch.
#[derive(Debug, Clone)]
pub struct HistoryEntry {
    pub media: MediaWithOverrides,
    pub upvotes: Vec<String>,
    pub downvotes: Vec<String>,
    pub favorites: Vec<String>,
    pub history_id: String,
    pub user_id: String,
    pub played_at: i64,
}

/// The instant that an RFC 3339 timestamp names, in milliseconds since the
/// Unix epoch.
pub uninterp spec fn instant_of(s: Seq<char>) -> Option<i64>;

/// Relies on chrono's `FromStr` for `DateTime<FixedOffset>`, which reads a
/// relaxed RFC 3339 timestamp, and on `timestamp_millis`: the result depends
/// on the text alone.
#[verifier::external_body]
fn parse_instant(s: &str) -> (r: Option<i64>)
    ensures
        r == instant_of(s@),
{
    match s.parse::<chrono::DateTime<chrono::FixedOffset>>() {
        Ok(t) => Some(t.timestamp_millis()),
        Err(_) => None,
    }
}

/// The position of the first id of `ids` that is `id`.
pub open spec fn first_index(ids: Seq<Seq<char>>, id: Seq<char>) -> Option<int> {
    if exists|k: int| 0 <= k < ids.len() && #[trigger] ids[k] == id {
        Some(
            choose|k: int|
                0 <= k < ids.len() && #[trigger] ids[k] == id && forall|j: int|
                    0 <= j < k ==> #[trigger] ids[j] != id,
        )
    } else {
        None
    }
}

/// The ids of the tracks `ms`.
pub open spec fn media_ids(ms: Seq<BaseMedia>) -> Seq<Seq<char>> {
    ms.map_values(|b: BaseMedia| b.id@)
}

/// The ids of the tracks of the array `v`.
pub open spec fn json_ids(v: JsonValue) -> Seq<Seq<char>> {
    match v {
        JsonValue::Array(items) => items@.map_values(|x: JsonValue| text_at(x, "_id"@)->0),
        _ => Seq::empty(),
    }
}

/// `v` is an array of tracks, each with all its members.
pub open spec fn media_list_present(v: JsonValue) -> bool {
    match v {
        JsonValue::Array(items) => all_media_present(items@),
        _ => false,
    }
}

/// Each of `items` is a track with all its members.
pub open spec fn all_media_present(items: Seq<JsonValue>) -> bool {
    forall|i: int| 0 <= i < items.len() ==> base_media_present(#[trigger] items[i])
}

/// `ms` are the tracks of the array `v`.
pub open spec fn media_list_decodes(v: JsonValue, ms: Seq<BaseMedia>) -> bool {
    match v {
        JsonValue::Array(items) => items@.len() == ms.len() && forall|i: int|
            0 <= i < items@.len() ==> base_media_decodes(#[trigger] items@[i], ms[i]),
        _ => false,
    }
}

/// The id of the track that the play `v` refers to.
pub open spec fn entry_media_id(v: JsonValue) -> Option<Seq<char>> {
    match field(v, "media"@) {
        Some(m) => text_at(m, "media"@),
        None => None,
    }
}

/// `v` is a play with all its members, of a track whose id is in `ids`.
pub open spec fn entry_present(v: JsonValue, ids: Seq<Seq<char>>) -> bool {
    &&& entry_media_id(v) matches Some(id) && first_index(ids, id) is Some
    &&& field(v, "media"@) matches Some(m) && text_at(m, "artist"@) is Some && text_at(
        m,
        "title"@,
    ) is Some && u32_at(m, "start"@) is Some && u32_at(m, "end"@) is Some
    &&& field(v, "upvotes"@) matches Some(x) && texts_of_array(x) is Some
    &&& field(v, "downvotes"@) matches Some(x) && texts_of_array(x) is Some
    &&& field(v, "favorites"@) matches Some(x) && texts_of_array(x) is Some
    &&& text_at(v, "_id"@) is Some
    &&& text_at(v, "user"@) is Some
    &&& text_at(v, "playedAt"@) matches Some(t) && instant_of(t) is Some
}

/// `e` is the play `v`, its track taken from `included` by id.
pub open spec fn entry_decodes(v: JsonValue, included: Seq<BaseMedia>, e: HistoryEntry) -> bool {
    &&& entry_media_id(v) matches Some(id) && first_index(media_ids(included), id) matches Some(
        k,
    ) && e.media.media == included[k]
    &&& field(v, "media"@) matches Some(m) && text_at(m, "artist"@) == Some(e.media.artist@)
        && text_at(m, "title"@) == Some(e.media.title@) && u32_at(m, "start"@) == Some(
        e.media.start,
    ) && u32_at(m, "end"@) == Some(e.media.end)
    &&& field(v, "upvotes"@) matches Some(x) && texts_of_array(x) == Some(texts(e.upvotes@))
    &&& field(v, "downvotes"@) matches Some(x) && texts_of_array(x) == Some(texts(e.downvotes@))
    &&& field(v, "favorites"@) matches Some(x) && texts_of_array(x) == Some(texts(e.favorites@))
    &&& text_at(v, "_id"@) == Some(e.history_id@)
    &&& text_at(v, "user"@) == Some(e.user_id@)
    &&& text_at(v, "playedAt"@) matches Some(t) && instant_of(t) == Some(e.played_at)
}

/// The tracks of the history response `v`: its member `included.media`.
pub open spec fn included_media(v: JsonValue) -> Option<JsonValue> {
    match field(v, "included"@) {
        Some(inc) => field(inc, "media"@),
        None => None,
    }
}

/// The response `v` holds tracks, all complete, and plays, all complete and
/// of a track that it includes.
pub open spec fn history_present(v: JsonValue) -> bool {
    &&& included_media(v) matches Some(m) && media_list_present(m)
    &&& match field(v, "data"@) {
        Some(JsonValue::Array(items)) => all_entries_present(items@, json_ids(included_media(v)->0)),
        _ => false,
    }
}

/// Each of `items` is a complete play of a track whose id is in `ids`.
pub open spec fn all_entries_present(items: Seq<JsonValue>, ids: Seq<Seq<char>>) -> bool {
    forall|i: int| 0 <= i < items.len() ==> entry_present(#[trigger] items[i], ids)
}

/// The tracks that an array decodes to have the ids that it gives them.
proof fn lemma_media_ids(v: JsonValue, ms: Seq<BaseMedia>)
    requires
        media_list_decodes(v, ms),
    ensures
        media_ids(ms) == json_ids(v),
{
    if let JsonValue::Array(items) = v {
        assert forall|i: int| 0 <= i < ms.len() implies media_ids(ms)[i] == json_ids(v)[i] by {
            assert(base_media_decodes(items@[i], ms[i]));
        }
        assert(media_ids(ms) =~= json_ids(v));
    }
}

impl BaseMedia {
    /// A copy of the track.
    pub fn copy(&self) -> (r: BaseMedia)
        ensures
            r == *self,
    {
        BaseMedia {
            id: self.id.clone(),
            source_type: self.source_type.clone(),
            source_id: self.source_id.clone(),
            artist: self.artist.clone(),
            title: self.title.clone(),
            duration: self.duration,
        }
    }
}

/// The tracks of the array `v`, where each has all its members.
pub fn decode_media_list(v: &JsonValue) -> (r: Option<Vec<BaseMedia>>)
    ensures
        r is Some <==> media_list_present(*v),
        r matches Some(ms) ==> media_list_decodes(*v, ms@),
{
    match v {
        JsonValue::Array(items) => {
            let mut out: Vec<BaseMedia> = Vec::new();
            let mut i: usize = 0;
            while i < items.len()
                invariant
                    *v == JsonValue::Array(*items),
                    i <= items.len(),
                    out@.len() == i,
                    forall|j: int| 0 <= j < i ==> base_media_decodes(#[trigger] items@[j], out@[j]),
                    forall|j: int| 0 <= j < i ==> base_media_present(#[trigger] items@[j]),
                decreases items.len() - i,
            {
                match BaseMedia::from_json(&items[i]) {
                    Some(m) => out.push(m),
                    None => {
                        assert(!media_list_present(*v)) by {
                            let ghost x = items@[i as int];
                            assert(!base_media_present(x));
                            assert(0 <= i < items@.len());
                            assert(!all_media_present(items@));
                        }
                        return None;
                    },
                }
                i = i + 1;
            }
            Some(out)
        },
        _ => None,
    }
}

/// The first track of `media` with the id `id`.
pub fn find_media(media: &Vec<BaseMedia>, id: &String) -> (r: Option<usize>)
    ensures
        match r {
            Some(k) => first_index(media_ids(media@), id@) == Some(k as int) && k < media.len(),
            None => first_index(media_ids(media@), id@) is None,
        },
{
    let ghost ids = media_ids(media@);
    let mut i: usize = 0;
    while i < media.len()
        invariant
            i <= media.len(),
            ids == media_ids(media@),
            forall|j: int| 0 <= j < i ==> #[trigger] ids[j] != id@,
        decreases media.len() - i,
    {
        if media[i].id == *id {
            proof {
                assert(ids[i as int] == id@);
                let c = choose|c: int|
                    0 <= c < ids.len() && #[trigger] ids[c] == id@ && forall|j: int|
                        0 <= j < c ==> #[trigger] ids[j] != id@;
                assert(c == i) by {
                    if c < i {
                        assert(ids[c] != id@);
                    }
                    if i < c {
                        assert(ids[i as int] != id@);
                    }
                }
            }
            return Some(i);
        }
        assert(ids[i as int] == media@[i as int].id@);
        i = i + 1;
    }
    None
}

/// The strings of the member `key` of `v`, an array of strings.
fn strings_field(v: &JsonValue, key: &str) -> (r: Option<Vec<String>>)
    ensures
        match field(*v, key@) {
            Some(x) => match texts_of_array(x) {
                Some(t) => r matches Some(out) && texts(out@) == t,
                None => r is None,
            },
            None => r is None,
        },
{
    match get(v, key) {
        Some(x) => strings_of_array(x),
        None => None,
    }
}

/// The play `v`, its track taken from `included` by id.
pub fn decode_entry(v: &JsonValue, included: &Vec<BaseMedia>) -> (r: Option<HistoryEntry>)
    ensures
        r is Some <==> entry_present(*v, media_ids(included@)),
        r matches Some(e) ==> entry_decodes(*v, included@, e),
{
    let m = match get(v, "media") {
        Some(m) => m,
        None => return None,
    };
    let id = match text_field(m, "media") {
        Some(id) => id,
        None => return None,
    };
    let k = match find_media(included, &id) {
        Some(k) => k,
        None => return None,
    };
    let artist = match text_field(m, "artist") {
        Some(x) => x,
        None => return None,
    };
    let title = match text_field(m, "title") {
        Some(x) => x,
        None => return None,
    };
    let start = match u32_field(m, "start") {
        Some(x) => x,
        None => return None,
    };
    let end = match u32_field(m, "end") {
        Some(x) => x,
        None => return None,
    };
    let upvotes = match strings_field(v, "upvotes") {
        Some(x) => x,
        None => return None,
    };
    let downvotes = match strings_field(v, "downvotes") {
        Some(x) => x,
        None => return None,
    };
    let favorites = match strings_field(v, "favorites") {
        Some(x) => x,
        None => return None,
    };
    let history_id = match text_field(v, "_id") {
        Some(x) => x,
        None => return None,
    };
    let user_id = match text_field(v, "user") {
        Some(x) => x,
        None => return None,
    };
    let played = match text_field(v, "playedAt") {
        Some(x) => x,
        None => return None,
    };
    let played_at = match parse_instant(played.as_str()) {
        Some(x) => x,
        None => return None,
    };
    let media = MediaWithOverrides { media: included[k].copy(), artist, title, start, end };
    Some(HistoryEntry { media, upvotes, downvotes, favorites, history_id, user_id, played_at })
}

/// The plays of a history response: the entries of its member `data`, each
/// with its track taken by id from its member `included.media`. `None` where
/// a member is missing or of another type, or a play refers to a track that
/// the response does not include.
pub fn decode_history(v: &JsonValue) -> (r: Option<Vec<HistoryEntry>>)
    ensures
        r is Some <==> history_present(*v),
        r matches Some(es) ==> exists|included: Seq<BaseMedia>|
            media_list_decodes(included_media(*v)->0, included) && (field(*v, "data"@) matches Some(
                JsonValue::Array(items),
            ) && items.len() == es.len() && forall|i: int|
                0 <= i < items.len() ==> entry_decodes(#[trigger] items@[i], included, es@[i])),
{
    let included = match get(v, "included") {
        Some(inc) => match get(inc, "media") {
            Some(m) => match decode_media_list(m) {
                Some(ms) => ms,
                None => return None,
            },
            None => return None,
        },
        None => return None,
    };
    let ghost m = included_media(*v)->0;
    proof {
        lemma_media_ids(m, included@);
    }
    let data = match get(v, "data") {
        Some(JsonValue::Array(items)) => items,
        _ => return None,
    };
    let mut out: Vec<HistoryEntry> = Vec::new();
    let mut i: usize = 0;
    while i < data.len()
        invariant
            field(*v, "data"@) == Some(JsonValue::Array(*data)),
            included_media(*v) == Some(m),
            media_list_decodes(m, included@),
            media_list_present(m),
            media_ids(included@) == json_ids(m),
            i <= data.len(),
            out@.len() == i,
            forall|j: int| 0 <= j < i ==> entry_present(#[trigger] data@[j], json_ids(m)),
            forall|j: int| 0 <= j < i ==> entry_decodes(#[trigger] data@[j], included@, out@[j]),
        decreases data.len() - i,
    {
        match decode_entry(&data[i], &included) {
            Some(e) => out.push(e),
            None => {
                assert(!all_entries_present(data@, json_ids(m)));
                return None;
            },
        }
        i = i + 1;
    }
    assert(history_present(*v));
    Some(out)
}

/// The body of a skip request: its reason (empty where there is none),
/// whether the user leaves the waitlist, and the user.
pub open spec fn skip_body(reason: Seq<char>, remove: bool, user_id: Seq<char>) -> Seq<char> {
    "{\"reason\":"@ + json_string(reason) + ",\"remove\":"@ + (if remove {
        "true"@
    } else {
        "false"@
    }) + ",\"userID\":"@ + json_string(user_id) + "}"@
}

impl SkipOptions {
    /// The JSON body of the request.
    pub fn to_body(&self) -> (r: String)
        ensures
            r@ == skip_body(
                match self.reason {
                    Some(t) => t@,
                    None => Seq::empty(),
                },
                self.remove,
                self.user_id@,
            ),
    {
        let reason = match &self.reason {
            Some(t) => {
                let q = crate::link::quote(t.as_str());
                assert(self.reason == Some(*t));
                q
            },
            None => crate::link::quote(""),
        };
        proof {
            reveal_strlit("");
            assert(""@ =~= Seq::<char>::empty());
            assert(reason@ == json_string(
                match self.reason {
                    Some(t) => t@,
                    None => Seq::empty(),
                },
            ));
        }
        let remove = if self.remove {
            "true"
        } else {
            "false"
        };
        let user = crate::link::quote(self.user_id.as_str());
        "{\"reason\":".to_owned().concat(reason.as_str()).concat(",\"remove\":").concat(
            remove,
        ).concat(",\"userID\":").concat(user.as_str()).concat("}")
    }
}

} // verus!
