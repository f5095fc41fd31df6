use sekshibot::api::{decode_history, HistoryOptions, Pagination, SkipOptions, UnauthorizedError};
use sekshibot::json::{JsonNumber, JsonValue};

fn s(t: &str) -> JsonValue {
    JsonValue::Str(t.to_string())
}

fn n(v: u64) -> JsonValue {
    JsonValue::Number(JsonNumber::PosInt(v))
}

fn obj(members: Vec<(&str, JsonValue)>) -> JsonValue {
    JsonValue::Object(members.into_iter().map(|(k, v)| (k.to_string(), v)).collect())
}

fn base(id: &str) -> JsonValue {
    obj(vec![
        ("_id", s(id)),
        ("sourceType", s("youtube")),
        ("sourceID", s("abc")),
        ("artist", s("A")),
        ("title", s("T")),
        ("duration", n(180)),
    ])
}

fn play(id: &str, media: &str, at: &str) -> JsonValue {
    obj(vec![
        (
            "media",
            obj(vec![
                ("media", s(media)),
                ("artist", s("A")),
                ("title", s("T")),
                ("start", n(0)),
                ("end", n(180)),
            ]),
        ),
        ("upvotes", JsonValue::Array(vec![s("u2")])),
        ("downvotes", JsonValue::Array(vec![])),
        ("favorites", JsonValue::Array(vec![])),
        ("_id", s(id)),
        ("user", s("u1")),
        ("playedAt", s(at)),
    ])
}

fn response(plays: Vec<JsonValue>, media: Vec<JsonValue>) -> JsonValue {
    obj(vec![
        ("data", JsonValue::Array(plays)),
        ("included", obj(vec![("media", JsonValue::Array(media))])),
    ])
}

#[test]
fn history_joins_included_media() {
    let r = response(
        vec![
            play("h2", "m1", "2023-11-14T22:13:20Z"),
            play("h1", "m1", "2023-11-14T22:08:20.000+00:00"),
        ],
        vec![base("m0"), base("m1")],
    );
    let es = decode_history(&r).unwrap();
    assert_eq!(es.len(), 2);
    assert_eq!(es[0].history_id, "h2");
    assert_eq!(es[0].media.media.id, "m1");
    assert_eq!(es[0].media.media.source_id, "abc");
    assert_eq!(es[0].upvotes, vec!["u2".to_string()]);
    assert_eq!(es[0].user_id, "u1");
    assert_eq!(es[0].played_at, 1_700_000_000_000);
    assert_eq!(es[1].played_at, 1_700_000_000_000 - 300_000);
}

#[test]
fn history_with_offset_timestamp() {
    let r = response(vec![play("h", "m1", "2023-11-15T00:13:20+02:00")], vec![base("m1")]);
    assert_eq!(decode_history(&r).unwrap()[0].played_at, 1_700_000_000_000);
}

#[test]
fn history_with_unknown_media_fails() {
    let r = response(vec![play("h", "missing", "2023-11-14T22:13:20Z")], vec![base("m1")]);
    assert!(decode_history(&r).is_none());
}

#[test]
fn history_with_bad_timestamp_fails() {
    let r = response(vec![play("h", "m1", "yesterday")], vec![base("m1")]);
    assert!(decode_history(&r).is_none());
}

#[test]
fn empty_history() {
    let r = response(vec![], vec![]);
    assert!(decode_history(&r).unwrap().is_empty());
    assert!(decode_history(&obj(vec![("data", JsonValue::Array(vec![]))])).is_none());
}

#[test]
fn skip_body_is_json() {
    let o = SkipOptions {
        user_id: "u1".to_string(),
        reason: Some("history".to_string()),
        remove: true,
    };
    assert_eq!(o.to_body(), "{\"reason\":\"history\",\"remove\":true,\"userID\":\"u1\"}");
    assert_eq!(
        SkipOptions::default().to_body(),
        "{\"reason\":\"\",\"remove\":false,\"userID\":\"\"}"
    );
}

#[test]
fn default_options() {
    let p = Pagination::default();
    assert_eq!((p.offset, p.limit), (0, 25));
    let h = HistoryOptions::default();
    assert!(h.media.is_none() && h.pagination.is_none());
    assert_eq!(UnauthorizedError.message(), "JWT missing or expired");
}
