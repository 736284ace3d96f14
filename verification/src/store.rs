use vstd::prelude::*;
use vstd::string::*;
use crate::clock::{format_utc, utc_display_of, valid_timestamp};
use crate::entry::{Entry, Position, SubmittedEntry};
use crate::hashing::{hash_is_valid, sha256_hex_of, submission_message};
use crate::ranking::{is_top_scores, matching_count, rank_position, top_scores, window_filtered};
use crate::window::{now_in_range, window_of};

verus! {

/// How the service answers a submission.
pub enum SubmitOutcome {
    /// The hash matched and the entry was stored.
    Added,
    /// The hash did not match; nothing was stored.
    InvalidHash,
    /// The store could not take the entry; its error text is carried along.
    StoreError(String),
}

impl SubmitOutcome {
    /// The HTTP status the outcome is reported with.
    pub open spec fn spec_status(self) -> int {
        match self {
            SubmitOutcome::Added => 200,
            SubmitOutcome::InvalidHash => 403,
            SubmitOutcome::StoreError(_) => 500,
        }
    }

    /// The HTTP status code for this outcome.
    pub fn status_code(&self) -> (c: u16)
        ensures
            c as int == self.spec_status(),
    {
        match self {
            SubmitOutcome::Added => 200,
            SubmitOutcome::InvalidHash => 403,
            SubmitOutcome::StoreError(_) => 500,
        }
    }

    /// The response text the outcome carries.
    pub open spec fn spec_body(self) -> Seq<char> {
        match self {
            SubmitOutcome::Added => "Score added"@,
            SubmitOutcome::InvalidHash => "Score rejected: Invalid hash"@,
            SubmitOutcome::StoreError(m) => m@,
        }
    }

    /// The response text for this outcome.
    pub fn body(&self) -> (b: String)
        ensures
            b@ == self.spec_body(),
    {
        match self {
            SubmitOutcome::Added => String::from_str("Score added"),
            SubmitOutcome::InvalidHash => String::from_str("Score rejected: Invalid hash"),
            SubmitOutcome::StoreError(m) => m.clone(),
        }
    }
}

/// Whether the service accepts a submission: its hash is exactly the
/// salted digest of its name and score.
pub open spec fn accepts(sub: SubmittedEntry) -> bool {
    sub.hash@ == sha256_hex_of(submission_message(sub.name@, sub.score as int))
}

/// Everything one submission call promises: the outcome is `Added` exactly
/// when the hash matches; an accepted submission appends one entry carrying
/// the submitted name and score and the given server time; a rejected one
/// leaves the store unchanged.
pub open spec fn submit_post(
    before: Seq<Entry>,
    after: Seq<Entry>,
    sub: SubmittedEntry,
    o: SubmitOutcome,
    now_secs: int,
    now_nanos: int,
) -> bool {
    &&& (o is Added) == accepts(sub)
    &&& accepts(sub) ==> after.len() == before.len() + 1 && after.drop_last() == before
        && after.last().name@ == sub.name@ && after.last().score == sub.score
        && after.last().datetime@ == utc_display_of(now_secs, now_nanos)
    &&& !accepts(sub) ==> after == before && o is InvalidHash
}

/// A fresh entry for an accepted submission, stamped with the server time.
pub fn make_entry(name: String, score: i32, now_secs: i64, now_nanos: u32) -> (e: Entry)
    requires
        valid_timestamp(now_secs as int),
        now_nanos < 1_000_000_000,
    ensures
        e.name@ == name@,
        e.score == score,
        e.datetime@ == utc_display_of(now_secs as int, now_nanos as int),
{
    Entry { name, score, datetime: format_utc(now_secs, now_nanos) }
}

/// A field-for-field copy of the stored entries.
fn copy_entries(v: &Vec<Entry>) -> (r: Vec<Entry>)
    ensures
        r@ == v@,
{
    let mut r: Vec<Entry> = Vec::new();
    let mut i: usize = 0;
    while i < v.len()
        invariant
            i <= v@.len(),
            r@.len() == i,
            forall|k: int| 0 <= k < i ==> r@[k] == v@[k],
        decreases v@.len() - i,
    {
        let e = Entry {
            name: v[i].name.clone(),
            score: v[i].score,
            datetime: v[i].datetime.clone(),
        };
        proof {
            assert(e == v@[i as int]);
        }
        r.push(e);
        i += 1;
    }
    proof {
        assert(r@ =~= v@);
    }
    r
}

/// The score store: an append-only table of entries, queried by window.
pub struct ScoreBoard {
    pub entries: Vec<Entry>,
}

impl ScoreBoard {
    /// An empty store.
    pub fn new() -> (b: ScoreBoard)
        ensures
            b.entries@ == Seq::<Entry>::empty(),
    {
        ScoreBoard { entries: Vec::new() }
    }

    /// Appends a record; nothing is ever deduplicated or dropped.
    pub fn insert(&mut self, e: Entry)
        ensures
            final(self).entries@ == old(self).entries@.push(e),
    {
        self.entries.push(e);
    }

    /// Validates one submission and stores it when the hash matches,
    /// stamping it with the given server time.
    pub fn submit_score(&mut self, sub: &SubmittedEntry, now_secs: i64, now_nanos: u32) -> (o:
        SubmitOutcome)
        requires
            valid_timestamp(now_secs as int),
            now_nanos < 1_000_000_000,
        ensures
            submit_post(
                old(self).entries@,
                final(self).entries@,
                *sub,
                o,
                now_secs as int,
                now_nanos as int,
            ),
    {
        if hash_is_valid(sub.name.as_str(), sub.score, sub.hash.as_str()) {
            let e = make_entry(sub.name.clone(), sub.score, now_secs, now_nanos);
            let ghost before = self.entries@;
            self.entries.push(e);
            proof {
                assert(self.entries@.drop_last() =~= before);
            }
            SubmitOutcome::Added
        } else {
            SubmitOutcome::InvalidHash
        }
    }

    /// The ten best entries inside the window, ascending by score.
    pub fn get_scores(&self, duration: &str, now_secs: i64, now_nanos: u32) -> (r: Vec<Entry>)
        requires
            now_in_range(window_of(duration@), now_secs as int),
            now_nanos < 1_000_000_000,
        ensures
            is_top_scores(
                r@,
                window_filtered(
                    self.entries@,
                    window_of(duration@),
                    now_secs as int,
                    now_nanos as int,
                ),
            ),
            r@.len() <= 10,
    {
        let copy = copy_entries(&self.entries);
        top_scores(copy, duration, now_secs, now_nanos)
    }

    /// The rank a given score would take inside the window.
    pub fn get_position(&self, duration: &str, score: i32, now_secs: i64, now_nanos: u32) -> (p:
        Position)
        requires
            now_in_range(window_of(duration@), now_secs as int),
            now_nanos < 1_000_000_000,
            self.entries@.len() < u64::MAX,
        ensures
            p.position == 1 + matching_count(
                self.entries@,
                window_of(duration@),
                score as int,
                now_secs as int,
                now_nanos as int,
            ),
    {
        Position { position: rank_position(&self.entries, duration, score, now_secs, now_nanos) }
    }
}

} // verus!
