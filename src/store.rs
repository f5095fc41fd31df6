//! The schema of the store: a table of emotes by name, and the skip list by
//! source type and source id.
use vstd::prelude::*;

verus! {

/// The table of emotes: a unique name and its URL.
pub open spec fn emotes_schema() -> Seq<char> {
    "CREATE TABLE emotes (name TEXT NOT NULL UNIQUE, url TEXT NOT NULL) STRICT;"@
}

/// The skip list: a reason for each source type and source id.
pub open spec fn skiplist_schema() -> Seq<char> {
    "CREATE TABLE skiplist (source_type TEXT NOT NULL, source_id TEXT NOT NULL, reason TEXT, PRIMARY KEY (source_type, source_id)) STRICT;"@
}

/// The migrations of the store, in the order they apply.
pub fn migrations() -> (r: Vec<&'static str>)
    ensures
        r@.len() == 2,
        r@[0]@ == emotes_schema(),
        r@[1]@ == skiplist_schema(),
{
    let mut r: Vec<&'static str> = Vec::new();
    r.push("CREATE TABLE emotes (name TEXT NOT NULL UNIQUE, url TEXT NOT NULL) STRICT;");
    r.push(
        "CREATE TABLE skiplist (source_type TEXT NOT NULL, source_id TEXT NOT NULL, reason TEXT, PRIMARY KEY (source_type, source_id)) STRICT;",
    );
    r
}

} // verus!
