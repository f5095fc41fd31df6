use sekshibot::api::HistoryEntry;
use sekshibot::event::{AdvanceMessage, BaseMedia, MediaWithOverrides};
use sekshibot::history_skip::{elapsed_ms, find_earlier_play, HistorySkip};

const NOW: i64 = 1_700_000_000_000;
const MINUTE: i64 = 60_000;

fn media(id: &str) -> MediaWithOverrides {
    MediaWithOverrides {
        media: BaseMedia {
            id: id.to_string(),
            source_type: "youtube".to_string(),
            source_id: id.to_string(),
            artist: "A".to_string(),
            title: "T".to_string(),
            duration: 180,
        },
        artist: "A".to_string(),
        title: "T".to_string(),
        start: 0,
        end: 180,
    }
}

fn entry(id: &str, played_at: i64) -> HistoryEntry {
    HistoryEntry {
        media: media(id),
        upvotes: vec![],
        downvotes: vec![],
        favorites: vec![],
        history_id: format!("h-{}", played_at),
        user_id: "someone".to_string(),
        played_at,
    }
}

fn advance(id: &str) -> AdvanceMessage {
    AdvanceMessage {
        history_id: "now".to_string(),
        user_id: "dj".to_string(),
        media: media(id),
        played_at: NOW as u64,
    }
}

#[test]
fn repeat_within_the_hour_is_skipped() {
    let mut policy = HistorySkip::new();
    let history = vec![entry("abc", NOW), entry("abc", NOW - 10 * MINUTE)];
    let action = policy.handle(&advance("abc"), &history, NOW).unwrap();
    assert_eq!(policy.consecutive_skip_count, 1);
    assert!(!action.skip.remove);
    assert_eq!(action.skip.user_id, "dj");
    assert_eq!(action.skip.reason.as_deref(), Some("history"));
    assert_eq!(action.notice, "This song was played 10 minutes ago.");
}

#[test]
fn removal_once_count_exceeds_three() {
    let mut policy = HistorySkip::new();
    let history = vec![entry("abc", NOW), entry("abc", NOW - 10 * MINUTE)];
    let mut removes = vec![];
    for _ in 0..5 {
        removes.push(policy.handle(&advance("abc"), &history, NOW).unwrap().skip.remove);
    }
    assert_eq!(removes, vec![false, false, false, true, true]);
    assert_eq!(policy.consecutive_skip_count, 5);
}

#[test]
fn play_two_hours_ago_stays_and_resets() {
    let mut policy = HistorySkip { consecutive_skip_count: 2 };
    let history = vec![entry("abc", NOW), entry("abc", NOW - 120 * MINUTE)];
    assert!(policy.handle(&advance("abc"), &history, NOW).is_none());
    assert_eq!(policy.consecutive_skip_count, 0);
}

#[test]
fn exactly_one_hour_stays() {
    let mut policy = HistorySkip { consecutive_skip_count: 1 };
    let history = vec![entry("abc", NOW), entry("abc", NOW - 60 * MINUTE)];
    assert_eq!(policy.decide(&advance("abc"), &history, NOW), None);
    assert_eq!(policy.consecutive_skip_count, 0);
    let history = vec![entry("abc", NOW), entry("abc", NOW - 60 * MINUTE + 1)];
    assert_eq!(policy.decide(&advance("abc"), &history, NOW), Some(60 * MINUTE - 1));
}

#[test]
fn no_earlier_play_stays_and_resets() {
    let mut policy = HistorySkip { consecutive_skip_count: 3 };
    let history = vec![entry("abc", NOW), entry("other", NOW - MINUTE)];
    assert!(policy.handle(&advance("abc"), &history, NOW).is_none());
    assert_eq!(policy.consecutive_skip_count, 0);
    let mut policy = HistorySkip { consecutive_skip_count: 3 };
    assert!(policy.handle(&advance("abc"), &vec![], NOW).is_none());
    assert_eq!(policy.consecutive_skip_count, 0);
}

#[test]
fn current_play_is_passed_over() {
    let history = vec![entry("abc", NOW), entry("x", NOW - 1), entry("abc", NOW - 90 * MINUTE)];
    assert_eq!(find_earlier_play(&history, &"abc".to_string()), Some(2));
    let only_current = vec![entry("abc", NOW)];
    assert_eq!(find_earlier_play(&only_current, &"abc".to_string()), None);
    let mut policy = HistorySkip::new();
    assert!(policy.handle(&advance("abc"), &only_current, NOW).is_none());
}

#[test]
fn first_earlier_play_decides() {
    let mut policy = HistorySkip::new();
    let history =
        vec![entry("abc", NOW), entry("abc", NOW - 90 * MINUTE), entry("abc", NOW - 5 * MINUTE)];
    assert_eq!(policy.decide(&advance("abc"), &history, NOW), None);
}

#[test]
fn elapsed_is_held_in_range() {
    assert_eq!(elapsed_ms(NOW, NOW - 5), 5);
    assert_eq!(elapsed_ms(i64::MAX, i64::MIN), i64::MAX);
    assert_eq!(elapsed_ms(i64::MIN, i64::MAX), -i64::MAX);
    assert_eq!(elapsed_ms(-1, i64::MAX), i64::MIN + 1);
}
