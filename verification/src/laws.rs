use vstd::prelude::*;
use crate::entry::{Entry, SubmittedEntry};
use crate::hashing::{sha256_hex_of, submission_message};
use crate::ranking::{is_top_scores, matching_count, sorted_by_score, window_filtered};
use crate::store::{accepts, submit_post, SubmitOutcome};
use crate::window::{in_window, window_of, Window};

verus! {

/// A submission is accepted exactly when its hash is the salted digest of
/// its name and score; any other hash is answered with status 403 and
/// stores nothing, and an accepted one with status 200.
pub proof fn law_hash_gates_submission(
    before: Seq<Entry>,
    after: Seq<Entry>,
    sub: SubmittedEntry,
    o: SubmitOutcome,
    now_secs: int,
    now_nanos: int,
)
    requires
        submit_post(before, after, sub, o, now_secs, now_nanos),
    ensures
        (o is Added) == (sub.hash@ == sha256_hex_of(
            submission_message(sub.name@, sub.score as int),
        )),
        !accepts(sub) ==> o.spec_status() == 403 && after == before,
        accepts(sub) ==> o.spec_status() == 200,
{
}

/// Submission is not idempotent: submitting the same accepted
/// `(name, score, hash)` twice appends two entries — the store never
/// deduplicates.
pub proof fn law_submission_not_idempotent(
    s0: Seq<Entry>,
    s1: Seq<Entry>,
    s2: Seq<Entry>,
    sub: SubmittedEntry,
    o1: SubmitOutcome,
    o2: SubmitOutcome,
    t1_secs: int,
    t1_nanos: int,
    t2_secs: int,
    t2_nanos: int,
)
    requires
        accepts(sub),
        submit_post(s0, s1, sub, o1, t1_secs, t1_nanos),
        submit_post(s1, s2, sub, o2, t2_secs, t2_nanos),
    ensures
        o1 is Added && o2 is Added,
        s2.len() == s0.len() + 2,
        s2.take(s0.len() as int) == s0,
        s2[s0.len() as int].name@ == sub.name@ && s2[s0.len() as int].score == sub.score,
        s2[s0.len() as int + 1].name@ == sub.name@ && s2[s0.len() as int + 1].score == sub.score,
{
    assert(s2[s0.len() as int] == s1[s0.len() as int]);
    assert(s1[s0.len() as int] == s1.last());
    assert(s2[s0.len() as int + 1] == s2.last());
    assert(s2.take(s0.len() as int) =~= s0);
}

/// Inside the unbounded window every entry matches.
proof fn lemma_alltime_keeps_all(entries: Seq<Entry>, now_secs: int, now_nanos: int)
    ensures
        window_filtered(entries, Window::AllTime, now_secs, now_nanos) == entries,
    decreases entries.len(),
{
    if entries.len() > 0 {
        lemma_alltime_keeps_all(entries.drop_first(), now_secs, now_nanos);
        assert(window_filtered(entries, Window::AllTime, now_secs, now_nanos) =~= entries);
    } else {
        assert(window_filtered(entries, Window::AllTime, now_secs, now_nanos) =~= entries);
    }
}

/// A duration selector outside `"weekly"` and `"monthly"` ranges over the
/// whole store: the listing's filter keeps every entry, whatever its
/// timestamp.
pub proof fn law_unrecognized_duration_keeps_all(
    entries: Seq<Entry>,
    duration: Seq<char>,
    now_secs: int,
    now_nanos: int,
)
    requires
        duration != "weekly"@,
        duration != "monthly"@,
    ensures
        window_filtered(entries, window_of(duration), now_secs, now_nanos) == entries,
{
    lemma_alltime_keeps_all(entries, now_secs, now_nanos);
}

/// When no stored entry falls in the window with a score at least the
/// threshold, the reported rank is 1.
pub proof fn law_position_of_empty_matching_set(
    entries: Seq<Entry>,
    w: Window,
    score: int,
    now_secs: int,
    now_nanos: int,
)
    requires
        forall|i: int|
            0 <= i < entries.len() ==> !(in_window(w, #[trigger] entries[i], now_secs, now_nanos)
                && entries[i].score >= score),
    ensures
        1 + matching_count(entries, w, score, now_secs, now_nanos) == 1,
    decreases entries.len(),
{
    if entries.len() > 0 {
        assert(entries[0] == entries.first());
        assert(forall|i: int|
            0 <= i < entries.drop_first().len() ==> #[trigger] entries.drop_first()[i] == entries[
                i + 1
            ]);
        law_position_of_empty_matching_set(entries.drop_first(), w, score, now_secs, now_nanos);
    }
}

/// The listing never returns more than ten entries, and what it returns is
/// sorted ascending by score.
pub proof fn law_top_scores_bounded_and_sorted(r: Seq<Entry>, pool: Seq<Entry>)
    requires
        is_top_scores(r, pool),
    ensures
        r.len() <= 10,
        sorted_by_score(r),
{
}

} // verus!
