//! Media identities: the source type and source id that name a track, and
//! their text form `<source_type>:<source_id>`.
use vstd::prelude::*;
use vstd::string::StrSliceExecFns;
use vstd::string::StringExecFns;

use crate::command::chars_of;

verus! {

/// A track, by the service it comes from and its id there.
#[derive(Debug, Clone, PartialEq, Eq)]
pub struct Media {
    pub source_type: String,
    pub source_id: String,
}

/// A text that is not of the form `<source_type>:<source_id>`.
#[derive(Debug, Clone, Copy, PartialEq, Eq)]
pub struct ParseMediaIDError;

impl ParseMediaIDError {
    /// The message shown for this error.
    pub fn message(&self) -> (r: String)
        ensures
            r@ == error_text(),
    {
        let r = "failed to parse media ID. expected format: `sourcetype:id`".to_owned();
        proof {
            reveal_strlit("failed to parse media ID. expected format: `sourcetype:id`");
        }
        r
    }
}

/// The message of a text that names no media.
pub open spec fn error_text() -> Seq<char> {
    "failed to parse media ID. expected format: `sourcetype:id`"@
}

/// The position of the first colon in `s`.
pub open spec fn colon_pos(s: Seq<char>) -> Option<nat>
    decreases s.len(),
{
    if s.len() == 0 {
        None
    } else if s[0] == ':' {
        Some(0)
    } else {
        match colon_pos(s.drop_first()) {
            Some(k) => Some(k + 1),
            None => None,
        }
    }
}

/// The text form of a media identity.
pub open spec fn media_text(source_type: Seq<char>, source_id: Seq<char>) -> Seq<char> {
    source_type + seq![':'] + source_id
}

/// The source type and id that a text names: what comes before its first
/// colon, and what comes after it.
pub open spec fn media_of(s: Seq<char>) -> Option<(Seq<char>, Seq<char>)> {
    match colon_pos(s) {
        Some(k) => Some((s.take(k as int), s.skip(k + 1 as int))),
        None => None,
    }
}

/// The first colon of a text with no colon in `t` is the one after `t`.
proof fn lemma_colon_after(t: Seq<char>, rest: Seq<char>)
    requires
        !t.contains(':'),
    ensures
        colon_pos(t + seq![':'] + rest) == Some(t.len()),
    decreases t.len(),
{
    if t.len() == 0 {
        assert((t + seq![':'] + rest)[0] == ':');
    } else {
        let tail = t.drop_first();
        assert(!tail.contains(':')) by {
            if tail.contains(':') {
                let j = choose|j: int| 0 <= j < tail.len() && tail[j] == ':';
                assert(t[j + 1] == ':');
            }
        }
        lemma_colon_after(tail, rest);
        assert((t + seq![':'] + rest).drop_first() =~= tail + seq![':'] + rest);
        assert(t[0] != ':');
    }
}

/// Reading the text form of a media identity gives that identity back, where
/// its source type holds no colon.
pub proof fn lemma_media_round_trip(source_type: Seq<char>, source_id: Seq<char>)
    requires
        !source_type.contains(':'),
    ensures
        media_of(media_text(source_type, source_id)) == Some((source_type, source_id)),
{
    let s = media_text(source_type, source_id);
    lemma_colon_after(source_type, source_id);
    assert(s.take(source_type.len() as int) =~= source_type);
    assert(s.skip(source_type.len() + 1 as int) =~= source_id);
}

impl Media {
    /// Reads `<source_type>:<source_id>`, split at the first colon.
    pub fn from_str(s: &str) -> (r: Result<Media, ParseMediaIDError>)
        ensures
            match media_of(s@) {
                Some((t, id)) => r matches Ok(m) && m.source_type@ == t && m.source_id@ == id,
                None => r is Err,
            },
    {
        let cs = chars_of(s);
        let mut i: usize = 0;
        assert(s@.skip(0) =~= s@);
        while i < cs.len() && cs[i] != ':'
            invariant
                cs@ == s@,
                i <= cs.len(),
                colon_pos(s@) == match colon_pos(s@.skip(i as int)) {
                    Some(k) => Some(k + i as nat),
                    None => None::<nat>,
                },
            decreases cs.len() - i,
        {
            assert(s@.skip(i as int).drop_first() =~= s@.skip(i + 1));
            i = i + 1;
        }
        if i == cs.len() {
            return Err(ParseMediaIDError);
        }
        let source_type = s.substring_char(0, i).to_owned();
        let source_id = s.substring_char(i + 1, cs.len()).to_owned();
        proof {
            assert(s@.subrange(0, i as int) =~= s@.take(i as int));
            assert(s@.subrange(i + 1, s@.len() as int) =~= s@.skip(i + 1));
        }
        Ok(Media { source_type, source_id })
    }

    /// The text form `<source_type>:<source_id>`.
    pub fn to_string(&self) -> (r: String)
        ensures
            r@ == media_text(self.source_type@, self.source_id@),
    {
        let r = self.source_type.clone().concat(":").concat(self.source_id.as_str());
        proof {
            reveal_strlit(":");
        }
        r
    }
}

} // verus!
