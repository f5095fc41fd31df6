use sekshibot::event::{Message, MessageType};
use sekshibot::json::{JsonNumber, JsonValue};
use sekshibot::link::decode_frame;

fn s(t: &str) -> JsonValue {
    JsonValue::Str(t.to_string())
}

fn n(v: u64) -> JsonValue {
    JsonValue::Number(JsonNumber::PosInt(v))
}

fn obj(members: Vec<(&str, JsonValue)>) -> JsonValue {
    JsonValue::Object(members.into_iter().map(|(k, v)| (k.to_string(), v)).collect())
}

fn advance_data(source_id: &str) -> JsonValue {
    obj(vec![
        ("historyID", s("h1")),
        ("userID", s("u1")),
        (
            "media",
            obj(vec![
                (
                    "media",
                    obj(vec![
                        ("_id", s("m1")),
                        ("sourceType", s("youtube")),
                        ("sourceID", s(source_id)),
                        ("artist", s("A")),
                        ("title", s("T")),
                        ("duration", n(200)),
                    ]),
                ),
                ("artist", s("A2")),
                ("title", s("T2")),
                ("start", n(0)),
                ("end", n(200)),
            ]),
        ),
        ("playedAt", n(1_700_000_000_000)),
    ])
}

fn frame(command: &str, data: Option<JsonValue>) -> JsonValue {
    let mut members = vec![("command", s(command))];
    if let Some(d) = data {
        members.push(("data", d));
    }
    obj(members)
}

#[test]
fn authenticated_frame() {
    assert!(matches!(decode_frame(frame("authenticated", None)), Some(MessageType::Authenticated)));
}

#[test]
fn guests_frame() {
    match decode_frame(frame("guests", Some(n(7)))) {
        Some(MessageType::Guests { count }) => assert_eq!(count, 7),
        other => panic!("unexpected {:?}", other),
    }
    let negative = frame("guests", Some(JsonValue::Number(JsonNumber::NegInt(-2))));
    assert!(matches!(decode_frame(negative), Some(MessageType::Guests { count: -2 })));
    assert!(decode_frame(frame("guests", Some(s("7")))).is_none());
    assert!(decode_frame(frame("guests", Some(n(u64::MAX)))).is_none());
}

#[test]
fn advance_frame() {
    match decode_frame(frame("advance", Some(advance_data("abc")))) {
        Some(MessageType::Advance(a)) => {
            assert_eq!(a.history_id, "h1");
            assert_eq!(a.user_id, "u1");
            assert_eq!(a.media.media.id, "m1");
            assert_eq!(a.media.media.source_type, "youtube");
            assert_eq!(a.media.media.source_id, "abc");
            assert_eq!(a.media.media.duration, 200);
            assert_eq!(a.media.artist, "A2");
            assert_eq!(a.media.end, 200);
            assert_eq!(a.played_at, 1_700_000_000_000);
        }
        other => panic!("unexpected {:?}", other),
    }
}

#[test]
fn advance_with_empty_identity_is_dropped() {
    assert!(decode_frame(frame("advance", Some(advance_data("")))).is_none());
}

#[test]
fn advance_without_media_is_dropped() {
    let data = obj(vec![("historyID", s("h1")), ("userID", s("u1")), ("playedAt", n(1))]);
    assert!(decode_frame(frame("advance", Some(data))).is_none());
    assert!(decode_frame(frame("advance", None)).is_none());
}

#[test]
fn chat_frame_is_parsed() {
    let data = obj(vec![("id", s("c1")), ("userID", s("u1")), ("message", s("!e kappa"))]);
    match decode_frame(frame("chatMessage", Some(data))) {
        Some(MessageType::ChatMessage(m)) => {
            assert_eq!(m.id, "c1");
            assert_eq!(m.message, "!e kappa");
            let c = m.command().unwrap();
            assert_eq!(c.command, "e");
            assert_eq!(c.arguments, vec!["kappa".to_string()]);
        }
        other => panic!("unexpected {:?}", other),
    }
}

#[test]
fn waitlist_frame() {
    let ids = JsonValue::Array(vec![s("a"), s("b")]);
    match decode_frame(frame("waitlistUpdate", Some(ids))) {
        Some(MessageType::WaitlistUpdate { user_ids }) => {
            assert_eq!(user_ids, vec!["a".to_string(), "b".to_string()])
        }
        other => panic!("unexpected {:?}", other),
    }
    let mixed = JsonValue::Array(vec![s("a"), n(1)]);
    assert!(decode_frame(frame("waitlistUpdate", Some(mixed))).is_none());
}

#[test]
fn unknown_command_is_ignored() {
    assert!(decode_frame(frame("djListUpdate", Some(n(1)))).is_none());
    assert!(decode_frame(obj(vec![("data", n(1))])).is_none());
    assert!(decode_frame(JsonValue::Array(vec![])).is_none());
}

#[test]
fn message_into_message_type() {
    let m = Message { command: "authenticated".to_string(), data: JsonValue::Null };
    assert!(matches!(m.into_message_type(), Some(MessageType::Authenticated)));
    let m = Message::from_json(frame("guests", Some(n(3)))).unwrap();
    assert_eq!(m.command, "guests");
    assert!(matches!(m.into_message_type(), Some(MessageType::Guests { count: 3 })));
}
