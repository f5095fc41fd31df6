use sekshibot::media::{Media, ParseMediaIDError};

#[test]
fn media_round_trip() {
    for (t, id) in [("youtube", "abc"), ("soundcloud", "a:b:c"), ("x", ""), ("", "y")] {
        let m = Media { source_type: t.to_string(), source_id: id.to_string() };
        let back = Media::from_str(&m.to_string()).unwrap();
        assert_eq!(back, m);
    }
}

#[test]
fn media_text_form() {
    let m = Media { source_type: "youtube".to_string(), source_id: "abc".to_string() };
    assert_eq!(m.to_string(), "youtube:abc");
}

#[test]
fn media_splits_at_first_colon() {
    let m = Media::from_str("youtube:a:b").unwrap();
    assert_eq!(m.source_type, "youtube");
    assert_eq!(m.source_id, "a:b");
}

#[test]
fn media_without_colon_is_an_error() {
    assert_eq!(Media::from_str("youtube"), Err(ParseMediaIDError));
    assert_eq!(
        ParseMediaIDError.message(),
        "failed to parse media ID. expected format: `sourcetype:id`"
    );
}
