use sekshibot::api::HistoryEntry;
use sekshibot::chain::{ApiMessage, ChainPass, HandlerError};
use sekshibot::event::MessageType;
use sekshibot::history_skip::HistorySkip;
use sekshibot::json::{JsonNumber, JsonValue};
use sekshibot::link::{decode_frame, encode_outbound};

const NOW: i64 = 1_700_000_000_000;

fn s(t: &str) -> JsonValue {
    JsonValue::Str(t.to_string())
}

fn n(v: u64) -> JsonValue {
    JsonValue::Number(JsonNumber::PosInt(v))
}

fn obj(members: Vec<(&str, JsonValue)>) -> JsonValue {
    JsonValue::Object(members.into_iter().map(|(k, v)| (k.to_string(), v)).collect())
}

fn advance_frame() -> JsonValue {
    let base = obj(vec![
        ("_id", s("youtube:abc")),
        ("sourceType", s("youtube")),
        ("sourceID", s("abc")),
        ("artist", s("A")),
        ("title", s("T")),
        ("duration", n(180)),
    ]);
    let queued = obj(vec![
        ("media", base),
        ("artist", s("A")),
        ("title", s("T")),
        ("start", n(0)),
        ("end", n(180)),
    ]);
    obj(vec![
        ("command", s("advance")),
        (
            "data",
            obj(vec![
                ("historyID", s("h2")),
                ("userID", s("dj")),
                ("media", queued),
                ("playedAt", n(NOW as u64)),
            ]),
        ),
    ])
}

#[test]
fn advance_of_recent_repeat_is_skipped_once() {
    let advance = match decode_frame(advance_frame()) {
        Some(MessageType::Advance(a)) => a,
        other => panic!("unexpected {:?}", other),
    };
    let entry = |id: &str, at: i64| HistoryEntry {
        media: advance.media.clone(),
        upvotes: vec![],
        downvotes: vec![],
        favorites: vec![],
        history_id: id.to_string(),
        user_id: "dj".to_string(),
        played_at: at,
    };
    let history = vec![entry("h2", NOW), entry("h1", NOW - 5 * 60_000)];
    let mut policy = HistorySkip::new();
    let mut notices = vec![];
    let mut skips = vec![];
    let mut pass = ChainPass::new(1);
    while let Some(_) = pass.current() {
        let outcome: Result<(), HandlerError> = match policy.handle(&advance, &history, NOW) {
            Some(action) => {
                notices.push(encode_outbound(&ApiMessage::SendChat(action.notice)));
                skips.push(action.skip);
                Ok(())
            }
            None => Ok(()),
        };
        assert!(pass.record(&outcome).is_none());
    }
    assert_eq!(notices.len(), 1);
    assert!(notices[0].contains("minutes ago"));
    assert_eq!(skips.len(), 1);
    assert!(!skips[0].remove);
    assert_eq!(skips[0].user_id, "dj");
}
