use vstd::prelude::*;
use vstd::string::*;

verus! {

/// Lexicographic order on character sequences by code point: `a` is at
/// least `b` when `b` is a prefix of `a`, or the first differing character
/// of `a` is the larger one.
pub open spec fn lex_ge(a: Seq<char>, b: Seq<char>) -> bool
    decreases a.len(),
{
    if b.len() == 0 {
        true
    } else if a.len() == 0 {
        false
    } else if a[0] != b[0] {
        a[0] as u32 > b[0] as u32
    } else {
        lex_ge(a.drop_first(), b.drop_first())
    }
}

/// Dropping an equal prefix from both sequences does not change how they
/// compare.
proof fn lemma_lex_ge_common_prefix(a: Seq<char>, b: Seq<char>, i: int)
    requires
        0 <= i <= a.len(),
        i <= b.len(),
        forall|k: int| 0 <= k < i ==> a[k] == b[k],
    ensures
        lex_ge(a, b) == lex_ge(a.skip(i), b.skip(i)),
    decreases i,
{
    if i == 0 {
        assert(a.skip(0) =~= a);
        assert(b.skip(0) =~= b);
    } else {
        assert(a[0] == b[0]);
        assert(a.drop_first().skip(i - 1) =~= a.skip(i));
        assert(b.drop_first().skip(i - 1) =~= b.skip(i));
        assert(forall|k: int| 0 <= k < i - 1 ==> a.drop_first()[k] == b.drop_first()[k]);
        lemma_lex_ge_common_prefix(a.drop_first(), b.drop_first(), i - 1);
    }
}

/// Whether `a` is lexicographically at least `b`.
pub fn str_ge(a: &str, b: &str) -> (r: bool)
    ensures
        r == lex_ge(a@, b@),
{
    let la = a.unicode_len();
    let lb = b.unicode_len();
    let mut i: usize = 0;
    while i < la && i < lb
        invariant
            la == a@.len(),
            lb == b@.len(),
            i <= la,
            i <= lb,
            forall|k: int| 0 <= k < i ==> a@[k] == b@[k],
        decreases la - i,
    {
        let ca = a.get_char(i);
        let cb = b.get_char(i);
        if ca != cb {
            proof {
                lemma_lex_ge_common_prefix(a@, b@, i as int);
                assert(a@.skip(i as int)[0] == ca);
                assert(b@.skip(i as int)[0] == cb);
            }
            return (ca as u32) > (cb as u32);
        }
        i += 1;
    }
    proof {
        lemma_lex_ge_common_prefix(a@, b@, i as int);
    }
    la >= lb
}

/// Whether the two strings hold the same characters.
pub fn str_eq(a: &str, b: &str) -> (r: bool)
    ensures
        r == (a@ == b@),
{
    let la = a.unicode_len();
    let lb = b.unicode_len();
    if la != lb {
        return false;
    }
    let mut i: usize = 0;
    while i < la
        invariant
            la == a@.len(),
            lb == b@.len(),
            la == lb,
            i <= la,
            forall|k: int| 0 <= k < i ==> a@[k] == b@[k],
        decreases la - i,
    {
        let ca = a.get_char(i);
        let cb = b.get_char(i);
        if ca != cb {
            return false;
        }
        i += 1;
    }
    proof {
        assert(a@ =~= b@);
    }
    true
}

} // verus!
