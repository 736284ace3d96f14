use vstd::prelude::*;

verus! {

/// A stored score record. Lower scores rank better; `datetime` is the
/// server's insertion time, rendered so that lexicographic order on the
/// stored strings agrees with chronological order.
pub struct Entry {
    pub name: String,
    pub score: i32,
    pub datetime: String,
}

/// A submission as it arrives on the wire: the client's display name and
/// score, with the integrity hash the client computed over them.
pub struct SubmittedEntry {
    pub name: String,
    pub score: i32,
    pub hash: String,
}

/// A derived rank: 1 plus the number of stored entries that rank at least
/// as well as a given score inside a time window.
pub struct Position {
    pub position: u64,
}

} // verus!
