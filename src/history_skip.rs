//! The auto-skip policy: a track that played less than an hour ago is
//! skipped again, and a user whose tracks are skipped more than three times in
//! a row also leaves the waitlist.
use vstd::prelude::*;
use vstd::string::StringExecFns;

use crate::api::{HistoryEntry, SkipOptions};
use crate::event::AdvanceMessage;

verus! {

/// An hour, in milliseconds.
pub const HOUR_MS: i64 = 3_600_000;

/// The number of skips in a row after which the user also leaves the
/// waitlist.
pub const REMOVE_AFTER: usize = 3;

/// The rough English phrase for a time `ms` milliseconds in the past, such as
/// "20 minutes ago".
pub uninterp spec fn rough_ago(ms: int) -> Seq<char>;

/// Relies on chrono_humanize's `HumanTime::to_text_en` with rough accuracy
/// and the past tense: the phrase depends on the duration alone and ends in
/// " ago". chrono's `Duration::milliseconds` panics on `i64::MIN` alone.
#[verifier::external_body]
fn humanize_ago(ms: i64) -> (r: String)
    requires
        ms != i64::MIN,
    ensures
        r@ == rough_ago(ms as int),
        r@.len() >= 4,
        r@.skip(r@.len() - 4) == " ago"@,
{
    chrono_humanize::HumanTime::from(chrono::Duration::milliseconds(ms)).to_text_en(
        chrono_humanize::Accuracy::Rough,
        chrono_humanize::Tense::Past,
    )
}

/// `now - then`, held within `-i64::MAX ..= i64::MAX`.
pub open spec fn elapsed(now: i64, then: i64) -> i64 {
    let d = now - then;
    if d > i64::MAX {
        i64::MAX
    } else if d < -i64::MAX {
        (-i64::MAX) as i64
    } else {
        d as i64
    }
}

/// The play `e` is of the track with id `id`.
pub open spec fn plays(e: HistoryEntry, id: Seq<char>) -> bool {
    e.media.media.id@ == id
}

/// The first play of the track `id` in `history`, passing over the first
/// entry, which is the play that has just begun.
pub open spec fn earlier_play(history: Seq<HistoryEntry>, id: Seq<char>) -> Option<int> {
    if exists|k: int| 1 <= k < history.len() && plays(#[trigger] history[k], id) {
        Some(
            choose|k: int|
                1 <= k < history.len() && plays(#[trigger] history[k], id) && forall|j: int|
                    1 <= j < k ==> !plays(#[trigger] history[j], id),
        )
    } else {
        None
    }
}

/// How long ago the track `id` last played, where it did less than an hour
/// before `now`: the track is then skipped.
pub open spec fn veto(history: Seq<HistoryEntry>, id: Seq<char>, now: i64) -> Option<i64> {
    match earlier_play(history, id) {
        Some(k) => {
            let ago = elapsed(now, history[k].played_at);
            if ago < HOUR_MS {
                Some(ago)
            } else {
                None
            }
        },
        None => None,
    }
}

/// The count of skips in a row after a decision: one more after a skip,
/// none after a track that stays.
pub open spec fn next_count(count: usize, skipped: bool) -> usize {
    if !skipped {
        0
    } else if count < usize::MAX {
        (count + 1) as usize
    } else {
        count
    }
}

/// The chat notice of a skipped track that played `ago` milliseconds before.
pub open spec fn notice_text(ago: i64) -> Seq<char> {
    "This song was played "@ + rough_ago(ago as int) + "."@
}

/// What the policy does about a track: a notice for the chat, and the skip
/// request.
#[derive(Debug, Clone)]
pub struct HistorySkipAction {
    pub notice: String,
    pub skip: SkipOptions,
}

/// The auto-skip policy, with its count of skips in a row.
#[derive(Debug, Default)]
pub struct HistorySkip {
    pub consecutive_skip_count: usize,
}

/// The first play of the track `id` in `history` after the first entry.
pub fn find_earlier_play(history: &Vec<HistoryEntry>, id: &String) -> (r: Option<usize>)
    ensures
        match r {
            Some(k) => earlier_play(history@, id@) == Some(k as int) && 1 <= k < history.len(),
            None => earlier_play(history@, id@) is None,
        },
{
    let mut i: usize = 1;
    while i < history.len()
        invariant
            1 <= i,
            forall|j: int| 1 <= j < i && j < history@.len() ==> !plays(#[trigger] history@[j], id@),
        decreases history.len() - i,
    {
        if history[i].media.media.id == *id {
            let ghost k = i as int;
            proof {
                assert(1 <= k < history@.len() && plays(history@[k], id@));
                let c = choose|c: int|
                    1 <= c < history@.len() && plays(#[trigger] history@[c], id@) && forall|j: int|
                        1 <= j < c ==> !plays(#[trigger] history@[j], id@);
                assert(c == k) by {
                    if c < k {
                        assert(!plays(history@[c], id@));
                    }
                    if k < c {
                        assert(!plays(history@[k], id@));
                    }
                }
            }
            return Some(i);
        }
        i = i + 1;
    }
    None
}

/// `now - then`, held within `-i64::MAX ..= i64::MAX`.
pub fn elapsed_ms(now: i64, then: i64) -> (r: i64)
    ensures
        r == elapsed(now, then),
{
    match now.checked_sub(then) {
        Some(d) => if d == i64::MIN {
            -i64::MAX
        } else {
            d
        },
        None => if now > then {
            i64::MAX
        } else {
            -i64::MAX
        },
    }
}

impl HistorySkip {
    pub fn new() -> (r: HistorySkip)
        ensures
            r.consecutive_skip_count == 0,
    {
        HistorySkip { consecutive_skip_count: 0 }
    }

    /// Decides on the track that `advance` started, given the plays of that
    /// track, newest first, with the one that has just begun at the front:
    /// how long ago it last played, where that is under an hour and the track
    /// is skipped. Updates the count of skips in a row.
    pub fn decide(&mut self, advance: &AdvanceMessage, history: &Vec<HistoryEntry>, now: i64) -> (r:
        Option<i64>)
        ensures
            r == veto(history@, advance.media.media.id@, now),
            final(self).consecutive_skip_count == next_count(
                old(self).consecutive_skip_count,
                r is Some,
            ),
    {
        match find_earlier_play(history, &advance.media.media.id) {
            None => {
                self.consecutive_skip_count = 0;
                None
            },
            Some(k) => {
                let ago = elapsed_ms(now, history[k].played_at);
                if ago < HOUR_MS {
                    if self.consecutive_skip_count < usize::MAX {
                        self.consecutive_skip_count = self.consecutive_skip_count + 1;
                    }
                    Some(ago)
                } else {
                    self.consecutive_skip_count = 0;
                    None
                }
            },
        }
    }

    /// What to do about the track that `advance` started: where it played
    /// less than an hour before `now`, a notice of how long ago, and a request
    /// to skip it, for the reason "history", that also removes the user once
    /// more than three tracks in a row were skipped.
    pub fn handle(&mut self, advance: &AdvanceMessage, history: &Vec<HistoryEntry>, now: i64) -> (r:
        Option<HistorySkipAction>)
        ensures
            final(self).consecutive_skip_count == next_count(
                old(self).consecutive_skip_count,
                r is Some,
            ),
            match veto(history@, advance.media.media.id@, now) {
                Some(ago) => r matches Some(a) && a.notice@ == notice_text(ago) && a.skip.user_id
                    == advance.user_id && a.skip.reason is Some && a.skip.reason->0@
                    == "history"@ && a.skip.remove == (final(self).consecutive_skip_count
                    > REMOVE_AFTER),
                None => r is None,
            },
    {
        match self.decide(advance, history, now) {
            None => None,
            Some(ago) => {
                let phrase = humanize_ago(ago);
                let notice = "This song was played ".to_owned().concat(phrase.as_str()).concat(".");
                let skip = SkipOptions {
                    user_id: advance.user_id.clone(),
                    reason: Some("history".to_owned()),
                    remove: self.consecutive_skip_count > REMOVE_AFTER,
                };
                Some(HistorySkipAction { notice, skip })
            },
        }
    }
}

/// The auto-skip policy on one track: it is skipped exactly when it played
/// less than an hour before; a skip adds one to the count of skips in a row
/// (a count at `usize::MAX` stays there) and asks for the user's removal
/// exactly when the count after it is over three, for every count before it;
/// a track that stays, whether or not it played before, sets the count back
/// to zero.
pub proof fn lemma_skip_policy(
    count: usize,
    history: Seq<HistoryEntry>,
    id: Seq<char>,
    now: i64,
)
    ensures
        earlier_play(history, id) is None ==> veto(history, id, now) is None && next_count(
            count,
            false,
        ) == 0,
        earlier_play(history, id) matches Some(k) ==> (veto(history, id, now) is Some <==> now
            - history[k].played_at < HOUR_MS),
        count < usize::MAX ==> next_count(count, true) == count + 1,
        count == usize::MAX ==> next_count(count, true) == count,
        next_count(count, true) > REMOVE_AFTER <==> count >= REMOVE_AFTER,
{
}

/// Where the entry after the current play is of the same track, that entry
/// is the one the policy measures from.
pub proof fn lemma_second_entry_decides(history: Seq<HistoryEntry>, id: Seq<char>, now: i64)
    requires
        history.len() >= 2,
        plays(history[1], id),
    ensures
        earlier_play(history, id) == Some(1int),
        veto(history, id, now) is Some <==> now - history[1].played_at < HOUR_MS,
{
    let c = choose|c: int|
        1 <= c < history.len() && plays(#[trigger] history[c], id) && forall|j: int|
            1 <= j < c ==> !plays(#[trigger] history[j], id);
    assert(plays(history[1], id));
    assert(c == 1) by {
        if c > 1 {
            assert(!plays(history[1], id));
        }
    }
}

} // verus!
