use vstd::prelude::*;
use vstd::seq_lib::lemma_multiset_commutative;
use crate::clock::utc_display_of;
use crate::entry::Entry;
use crate::window::{
    entry_in_window, in_window, now_in_range, window_bound, window_len_seconds, window_of, Window,
};

verus! {

broadcast use vstd::seq_lib::group_to_multiset_ensures, vstd::multiset::group_multiset_axioms;

/// Entries sorted best first: ascending by score.
pub open spec fn sorted_by_score(s: Seq<Entry>) -> bool {
    forall|i: int, j: int| #![trigger s[i], s[j]] 0 <= i <= j < s.len() ==> s[i].score <= s[j].score
}

/// The subsequence of entries that fall in the window, in stored order.
pub open spec fn window_filtered(
    entries: Seq<Entry>,
    w: Window,
    now_secs: int,
    now_nanos: int,
) -> Seq<Entry>
    decreases entries.len(),
{
    if entries.len() == 0 {
        Seq::empty()
    } else if in_window(w, entries.first(), now_secs, now_nanos) {
        seq![entries.first()] + window_filtered(entries.drop_first(), w, now_secs, now_nanos)
    } else {
        window_filtered(entries.drop_first(), w, now_secs, now_nanos)
    }
}

/// How many entries fall in the window and score at least `score`.
pub open spec fn matching_count(
    entries: Seq<Entry>,
    w: Window,
    score: int,
    now_secs: int,
    now_nanos: int,
) -> int
    decreases entries.len(),
{
    if entries.len() == 0 {
        0
    } else {
        (if in_window(w, entries.first(), now_secs, now_nanos) && entries.first().score >= score {
            1int
        } else {
            0int
        }) + matching_count(entries.drop_first(), w, score, now_secs, now_nanos)
    }
}

/// What the top-scores listing returns of a pool of matching entries: as
/// many of them as fit under ten, sorted ascending by score, and every
/// matching entry left out scores at least as much as every returned one.
pub open spec fn is_top_scores(r: Seq<Entry>, pool: Seq<Entry>) -> bool {
    &&& r.len() == (if pool.len() < 10 {
        pool.len()
    } else {
        10nat
    })
    &&& sorted_by_score(r)
    &&& (forall|x: Entry| #[trigger] r.to_multiset().count(x) <= pool.to_multiset().count(x))
    &&& (forall|x: Entry|
        #[trigger] pool.to_multiset().count(x) > r.to_multiset().count(x) ==> (forall|i: int|
            0 <= i < r.len() ==> #[trigger] r[i].score <= x.score))
}

/// An index of a smallest score in a non-empty vector.
fn min_index(v: &Vec<Entry>) -> (m: usize)
    requires
        v@.len() > 0,
    ensures
        m < v@.len(),
        forall|j: int| 0 <= j < v@.len() ==> v@[m as int].score <= v@[j].score,
{
    let mut m: usize = 0;
    let mut i: usize = 1;
    while i < v.len()
        invariant
            m < v@.len(),
            i <= v@.len(),
            forall|j: int| 0 <= j < i ==> v@[m as int].score <= v@[j].score,
        decreases v@.len() - i,
    {
        if v[i].score < v[m].score {
            m = i;
        }
        i += 1;
    }
    m
}

/// Sorts the entries ascending by score, keeping exactly the same records.
fn sort_entries(v: Vec<Entry>) -> (out: Vec<Entry>)
    ensures
        sorted_by_score(out@),
        out@.to_multiset() == v@.to_multiset(),
        out@.len() == v@.len(),
{
    let mut rest = v;
    let mut out: Vec<Entry> = Vec::new();
    while rest.len() > 0
        invariant
            out@.len() + rest@.len() == v@.len(),
            out@.to_multiset().add(rest@.to_multiset()) == v@.to_multiset(),
            sorted_by_score(out@),
            (forall|i: int, j: int| #![trigger out@[i], rest@[j]]
                0 <= i < out@.len() && 0 <= j < rest@.len() ==> out@[i].score <= rest@[j].score),
        decreases rest@.len(),
    {
        let m = min_index(&rest);
        let ghost rest0 = rest@;
        let ghost out0 = out@;
        let e = rest.remove(m);
        proof {
            assert(rest0.contains(rest0[m as int]));
            assert(rest0.to_multiset().count(e) > 0);
            assert(out0.push(e).to_multiset() =~= out0.to_multiset().insert(e));
            assert(out0.push(e).to_multiset().add(rest@.to_multiset()) =~= v@.to_multiset());
            assert(sorted_by_score(out0.push(e)));
        }
        out.push(e);
    }
    proof {
        assert(out@.to_multiset().add(rest@.to_multiset()) =~= out@.to_multiset());
    }
    out
}

/// The ten best-ranking entries inside the window, ascending by score,
/// fewer when fewer match.
pub fn top_scores(entries: Vec<Entry>, duration: &str, now_secs: i64, now_nanos: u32) -> (r: Vec<
    Entry,
>)
    requires
        now_in_range(window_of(duration@), now_secs as int),
        now_nanos < 1_000_000_000,
    ensures
        is_top_scores(
            r@,
            window_filtered(entries@, window_of(duration@), now_secs as int, now_nanos as int),
        ),
        r@.len() <= 10,
{
    let ghost all = entries@;
    let ghost gw = window_of(duration@);
    let ghost ns = now_secs as int;
    let ghost nn = now_nanos as int;
    let bound = window_bound(duration, now_secs, now_nanos);
    let mut rest = entries;
    let mut kept: Vec<Entry> = Vec::new();
    while rest.len() > 0
        invariant
            rest@ == all.take(rest@.len() as int),
            rest@.len() <= all.len(),
            kept@.to_multiset() == window_filtered(
                all.skip(rest@.len() as int),
                gw,
                ns,
                nn,
            ).to_multiset(),
            (bound is None) == (gw is AllTime),
            (bound matches Some(b) ==> b@ == utc_display_of(ns - window_len_seconds(gw), nn)),
        decreases rest@.len(),
    {
        let ghost i = rest@.len() as int;
        let e = rest.pop().unwrap();
        proof {
            assert(e == all[i - 1]);
            assert(rest@ =~= all.take(i - 1));
            assert(all.skip(i - 1).first() == all[i - 1]);
            assert(all.skip(i - 1).drop_first() =~= all.skip(i));
        }
        if entry_in_window(&e, &bound, Ghost(gw), Ghost(ns), Ghost(nn)) {
            proof {
                lemma_multiset_commutative(seq![e], window_filtered(all.skip(i), gw, ns, nn));
                assert(seq![e] =~= Seq::<Entry>::empty().push(e));
                assert(window_filtered(all.skip(i - 1), gw, ns, nn).to_multiset()
                    =~= window_filtered(all.skip(i), gw, ns, nn).to_multiset().insert(e));
            }
            kept.push(e);
        } else {
            proof {
                assert(window_filtered(all.skip(i - 1), gw, ns, nn) == window_filtered(
                    all.skip(i),
                    gw,
                    ns,
                    nn,
                ));
            }
        }
    }
    proof {
        assert(all.skip(0) =~= all);
    }
    let ghost pool = window_filtered(all, gw, ns, nn);
    let mut sorted = sort_entries(kept);
    proof {
        assert(pool.len() == pool.to_multiset().len());
        assert(sorted@.len() == sorted@.to_multiset().len());
    }
    if sorted.len() > 10 {
        let ghost before = sorted@;
        sorted.truncate(10);
        proof {
            assert(before =~= before.subrange(0, 10) + before.skip(10));
            lemma_multiset_commutative(before.subrange(0, 10), before.skip(10));
            assert(pool.to_multiset() =~= sorted@.to_multiset().add(before.skip(10).to_multiset()));
            assert forall|x: Entry|
                #[trigger] pool.to_multiset().count(x) > sorted@.to_multiset().count(x) implies (
            forall|i: int| 0 <= i < sorted@.len() ==> #[trigger] sorted@[i].score <= x.score) by {
                let rest_ms = before.skip(10).to_multiset();
                assert(rest_ms.count(x) > 0);
                assert(before.skip(10).contains(x));
                let j = choose|j: int| 0 <= j < before.skip(10).len() && before.skip(10)[j] == x;
                assert(before[10 + j] == x);
                assert forall|i: int| 0 <= i < sorted@.len() implies #[trigger] sorted@[i].score
                    <= x.score by {
                    assert(sorted@[i] == before[i]);
                    assert(before[i].score <= before[10 + j].score);
                }
            }
        }
    }
    sorted
}

/// The 1-indexed rank a score of `score` would hold inside the window: one
/// more than the number of stored entries that match the window and score
/// at least `score`.
pub fn rank_position(
    entries: &Vec<Entry>,
    duration: &str,
    score: i32,
    now_secs: i64,
    now_nanos: u32,
) -> (p: u64)
    requires
        now_in_range(window_of(duration@), now_secs as int),
        now_nanos < 1_000_000_000,
        entries@.len() < u64::MAX,
    ensures
        p == 1 + matching_count(
            entries@,
            window_of(duration@),
            score as int,
            now_secs as int,
            now_nanos as int,
        ),
{
    let ghost gw = window_of(duration@);
    let ghost ns = now_secs as int;
    let ghost nn = now_nanos as int;
    let bound = window_bound(duration, now_secs, now_nanos);
    let mut count: u64 = 0;
    let mut i: usize = entries.len();
    proof {
        assert(entries@.skip(i as int) =~= Seq::<Entry>::empty());
    }
    while i > 0
        invariant
            i <= entries@.len(),
            entries@.len() < u64::MAX,
            count == matching_count(entries@.skip(i as int), gw, score as int, ns, nn),
            count <= entries@.len() - i,
            (bound is None) == (gw is AllTime),
            (bound matches Some(b) ==> b@ == utc_display_of(ns - window_len_seconds(gw), nn)),
        decreases i,
    {
        i -= 1;
        let e = &entries[i];
        proof {
            assert(entries@.skip(i as int).first() == entries@[i as int]);
            assert(entries@.skip(i as int).drop_first() =~= entries@.skip(i as int + 1));
        }
        let inw = entry_in_window(e, &bound, Ghost(gw), Ghost(ns), Ghost(nn));
        if inw && e.score >= score {
            count += 1;
        }
    }
    proof {
        assert(entries@.skip(0) =~= entries@);
    }
    count + 1
}

} // verus!
