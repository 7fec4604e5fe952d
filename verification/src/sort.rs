//! A stable sort of pending operations by nonce.
//!
//! The backend returns pending operations in an unspecified order; the
//! bridge imposes a non-decreasing order by nonce before answering, keeping
//! the backend's relative order among operations whose nonces are equal.

use crate::types::{Uint256, UserOperation};
use vstd::prelude::*;
use vstd::seq_lib::lemma_multiset_commutative;

verus! {

broadcast use vstd::seq_lib::group_seq_lib_default, vstd::multiset::group_multiset_axioms;

/// The sequence is ordered non-decreasing by nonce.
pub open spec fn sorted_by_nonce(s: Seq<UserOperation>) -> bool {
    forall|i: int, j: int|
        0 <= i < j < s.len() ==> s[i].nonce.value() <= s[j].nonce.value()
}

/// The predicate "this operation carries nonce `n`".
pub open spec fn nonce_is(n: Uint256) -> spec_fn(UserOperation) -> bool {
    |op: UserOperation| op.nonce == n
}

/// The subsequence of `s` whose operations carry nonce `n`, in the order
/// they stand in `s`.
pub open spec fn with_nonce(s: Seq<UserOperation>, n: Uint256) -> Seq<UserOperation> {
    s.filter(nonce_is(n))
}

/// `b` keeps, for every nonce, exactly `a`'s operations with that nonce in
/// exactly `a`'s order: the stability guarantee of the sort.
pub open spec fn same_per_nonce(a: Seq<UserOperation>, b: Seq<UserOperation>) -> bool {
    forall|n: Uint256| #[trigger] with_nonce(a, n) == with_nonce(b, n)
}

/// Filtering a one-element sequence keeps or drops that element.
proof fn lemma_filter_singleton(x: UserOperation, pred: spec_fn(UserOperation) -> bool)
    ensures
        pred(x) ==> seq![x].filter(pred) == seq![x],
        !pred(x) ==> seq![x].filter(pred) == Seq::<UserOperation>::empty(),
{
    reveal_with_fuel(Seq::filter, 2);
    assert(seq![x].drop_last() =~= Seq::<UserOperation>::empty());
    assert(seq![x].last() == x);
    if pred(x) {
        assert(seq![x].filter(pred) =~= seq![x]);
    } else {
        assert(seq![x].filter(pred) =~= Seq::<UserOperation>::empty());
    }
}

/// Filtering drops everything when no element satisfies the predicate.
proof fn lemma_filter_none(s: Seq<UserOperation>, pred: spec_fn(UserOperation) -> bool)
    requires
        forall|k: int| 0 <= k < s.len() ==> !pred(s[k]),
    ensures
        s.filter(pred) == Seq::<UserOperation>::empty(),
    decreases s.len(),
{
    reveal(Seq::filter);
    if s.len() > 0 {
        assert(forall|k: int| 0 <= k < s.drop_last().len() ==> !pred(s.drop_last()[k]));
        lemma_filter_none(s.drop_last(), pred);
        assert(!pred(s.last()));
    }
    assert(s.filter(pred) =~= Seq::<UserOperation>::empty());
}

/// Filtering keeps a satisfying head in first position.
proof fn lemma_filter_first(s: Seq<UserOperation>, pred: spec_fn(UserOperation) -> bool)
    requires
        s.len() > 0,
        pred(s[0]),
    ensures
        s.filter(pred).len() > 0,
        s.filter(pred)[0] == s[0],
    decreases s.len(),
{
    assert(s =~= seq![s[0]] + s.drop_first());
    Seq::filter_distributes_over_add(seq![s[0]], s.drop_first(), pred);
    lemma_filter_singleton(s[0], pred);
}

/// A non-empty filtering comes from some satisfying element.
proof fn lemma_filter_nonempty_gives_member(s: Seq<UserOperation>, pred: spec_fn(UserOperation) -> bool)
    requires
        s.filter(pred).len() > 0,
    ensures
        exists|k: int| 0 <= k < s.len() && pred(s[k]),
{
    if forall|k: int| 0 <= k < s.len() ==> !pred(s[k]) {
        lemma_filter_none(s, pred);
    }
}

/// The first position at which `x` can stand without breaking the order:
/// everything from `j` on carries a strictly larger nonce, and the entry
/// just before `j`, if any, carries a nonce no larger than `x`'s.
fn insertion_point(out: &Vec<UserOperation>, x: &UserOperation) -> (j: usize)
    ensures
        j <= out@.len(),
        forall|k: int| j <= k < out@.len() ==> x.nonce.value() < out@[k].nonce.value(),
        j > 0 ==> out@[j as int - 1].nonce.value() <= x.nonce.value(),
{
    let mut j: usize = out.len();
    while j > 0 && !(out[j - 1].nonce.le(&x.nonce))
        invariant
            j <= out@.len(),
            forall|k: int| j <= k < out@.len() ==> x.nonce.value() < out@[k].nonce.value(),
        decreases j,
    {
        j = j - 1;
    }
    j
}

/// Sorts pending operations non-decreasing by nonce with a stable insertion
/// sort: operations with equal nonces keep their relative order, and the
/// result holds exactly the given operations.
pub fn sort_by_nonce(ops: Vec<UserOperation>) -> (r: Vec<UserOperation>)
    ensures
        sorted_by_nonce(r@),
        same_per_nonce(ops@, r@),
        r@.to_multiset() == ops@.to_multiset(),
        r@.len() == ops@.len(),
{
    let ghost orig: Seq<UserOperation> = ops@;
    let mut rest: Vec<UserOperation> = ops;
    let mut out: Vec<UserOperation> = Vec::new();
    proof {
        assert(out@ + rest@ =~= orig);
        lemma_multiset_commutative(out@, rest@);
        assert forall|n: Uint256|
            #[trigger] with_nonce(out@, n) + with_nonce(rest@, n) == with_nonce(orig, n) by {
            reveal(Seq::filter);
            assert(with_nonce(out@, n) + with_nonce(rest@, n) =~= with_nonce(orig, n));
        }
    }
    while rest.len() > 0
        invariant
            sorted_by_nonce(out@),
            out@.len() + rest@.len() == orig.len(),
            forall|n: Uint256|
                #[trigger] with_nonce(out@, n) + with_nonce(rest@, n) == with_nonce(orig, n),
            out@.to_multiset().add(rest@.to_multiset()) == orig.to_multiset(),
        decreases rest@.len(),
    {
        let ghost out0 = out@;
        let ghost rest0 = rest@;
        let x = rest.remove(0);
        proof {
            assert(rest0 =~= seq![x] + rest@);
        }
        let j = insertion_point(&out, &x);
        let ghost jj = j as int;
        out.insert(j, x);
        proof {
            let pre = out0.subrange(0, jj);
            let suf = out0.subrange(jj, out0.len() as int);
            assert(out0 =~= pre + suf);
            assert(out@ =~= pre + seq![x] + suf);

            // The new sequence is still sorted: the prefix is at most `x`,
            // the suffix strictly above it.
            assert forall|p: int, q: int|
                0 <= p < q < out@.len() implies out@[p].nonce.value() <= out@[q].nonce.value() by {
                if q < jj {
                    assert(out@[p] == out0[p] && out@[q] == out0[q]);
                } else if p < jj && q == jj {
                    assert(out@[p] == out0[p] && out@[q] == x);
                    assert(out0[p].nonce.value() <= out0[jj - 1].nonce.value());
                } else if p < jj && q > jj {
                    assert(out@[p] == out0[p] && out@[q] == out0[q - 1]);
                } else if p == jj {
                    assert(out@[p] == x && out@[q] == out0[q - 1]);
                } else {
                    assert(out@[p] == out0[p - 1] && out@[q] == out0[q - 1]);
                }
            }

            // Per-nonce subsequences are preserved.
            assert forall|n: Uint256|
                #[trigger] with_nonce(out@, n) + with_nonce(rest@, n) == with_nonce(orig, n) by {
                let pred = nonce_is(n);
                assert(with_nonce(out0, n) + with_nonce(rest0, n) == with_nonce(orig, n));
                Seq::filter_distributes_over_add(pre + seq![x], suf, pred);
                Seq::filter_distributes_over_add(pre, seq![x], pred);
                Seq::filter_distributes_over_add(pre, suf, pred);
                Seq::filter_distributes_over_add(seq![x], rest@, pred);
                lemma_filter_singleton(x, pred);
                if n == x.nonce {
                    // Nothing in the suffix carries `x`'s nonce: every
                    // suffix nonce is strictly larger in value.
                    assert forall|k: int| 0 <= k < suf.len() implies !pred(suf[k]) by {
                        assert(x.nonce.value() < suf[k].nonce.value());
                    }
                    lemma_filter_none(suf, pred);
                    assert(with_nonce(out@, n) + with_nonce(rest@, n) =~= with_nonce(orig, n));
                } else {
                    assert(with_nonce(out@, n) + with_nonce(rest@, n) =~= with_nonce(orig, n));
                }
            }

            // The multiset of operations is preserved.
            lemma_multiset_commutative(pre + seq![x], suf);
            lemma_multiset_commutative(pre, seq![x]);
            lemma_multiset_commutative(pre, suf);
            lemma_multiset_commutative(seq![x], rest@);
            assert(out@.to_multiset().add(rest@.to_multiset()) =~= orig.to_multiset());
        }
    }
    proof {
        assert(out@ + rest@ =~= out@);
        lemma_multiset_commutative(out@, rest@);
        assert(out@.to_multiset() == orig.to_multiset());
        assert forall|n: Uint256| #[trigger] with_nonce(orig, n) == with_nonce(out@, n) by {
            assert(with_nonce(out@, n) + with_nonce(rest@, n) == with_nonce(orig, n));
            reveal(Seq::filter);
            assert(with_nonce(out@, n) + with_nonce(rest@, n) =~= with_nonce(out@, n));
        }
    }
    out
}

/// Two sequences that are both ordered non-decreasing by nonce and keep,
/// for every nonce, the same operations in the same order, are the same
/// sequence: sortedness together with stability pins the sort's answer
/// uniquely.
pub proof fn lemma_sorted_stable_unique(s1: Seq<UserOperation>, s2: Seq<UserOperation>)
    requires
        sorted_by_nonce(s1),
        sorted_by_nonce(s2),
        same_per_nonce(s1, s2),
    ensures
        s1 == s2,
    decreases s1.len(),
{
    reveal(Seq::filter);
    if s1.len() == 0 && s2.len() == 0 {
        assert(s1 =~= s2);
    } else if s1.len() == 0 {
        let n = s2[0].nonce;
        lemma_filter_first(s2, nonce_is(n));
        assert(with_nonce(s1, n) == with_nonce(s2, n));
        assert(false);
    } else if s2.len() == 0 {
        let n = s1[0].nonce;
        lemma_filter_first(s1, nonce_is(n));
        assert(with_nonce(s1, n) == with_nonce(s2, n));
        assert(false);
    } else {
        let n1 = s1[0].nonce;
        let n2 = s2[0].nonce;
        lemma_filter_first(s1, nonce_is(n1));
        lemma_filter_first(s2, nonce_is(n2));

        // Each head's nonce value is a lower bound of the other sequence,
        // because the other sequence also holds an operation with it.
        assert(with_nonce(s1, n1) == with_nonce(s2, n1));
        lemma_filter_nonempty_gives_member(s2, nonce_is(n1));
        let k1 = choose|k: int| 0 <= k < s2.len() && nonce_is(n1)(s2[k]);
        assert(n2.value() <= s2[k1].nonce.value());
        assert(with_nonce(s1, n2) == with_nonce(s2, n2));
        lemma_filter_nonempty_gives_member(s1, nonce_is(n2));
        let k2 = choose|k: int| 0 <= k < s1.len() && nonce_is(n2)(s1[k]);
        assert(n1.value() <= s1[k2].nonce.value());
        crate::types::lemma_uint256_value_injective(n1, n2);

        // Equal head nonces put both heads first in one shared per-nonce
        // subsequence, so the heads are equal.
        assert(s1[0] == with_nonce(s1, n1)[0]);
        assert(s2[0] == with_nonce(s2, n1)[0]);
        assert(s1[0] == s2[0]);

        // The tails satisfy the same hypotheses.
        let t1 = s1.drop_first();
        let t2 = s2.drop_first();
        assert(s1 =~= seq![s1[0]] + t1);
        assert(s2 =~= seq![s2[0]] + t2);
        assert(sorted_by_nonce(t1));
        assert(sorted_by_nonce(t2));
        assert forall|n: Uint256| #[trigger] with_nonce(t1, n) == with_nonce(t2, n) by {
            let pred = nonce_is(n);
            Seq::filter_distributes_over_add(seq![s1[0]], t1, pred);
            Seq::filter_distributes_over_add(seq![s2[0]], t2, pred);
            assert(with_nonce(s1, n) == with_nonce(s2, n));
            let head = seq![s1[0]].filter(pred);
            assert(head + t1.filter(pred) == head + t2.filter(pred));
            assert forall|i: int| 0 <= i < t1.filter(pred).len() implies t1.filter(pred)[i]
                == t2.filter(pred)[i] by {
                assert((head + t1.filter(pred))[head.len() + i] == t1.filter(pred)[i]);
                assert((head + t2.filter(pred))[head.len() + i] == t2.filter(pred)[i]);
            }
            assert(t1.filter(pred).len() == t2.filter(pred).len());
            assert(t1.filter(pred) =~= t2.filter(pred));
        }
        lemma_sorted_stable_unique(t1, t2);
        assert(s1 =~= s2);
    }
}

/// The dump-mempool contract has exactly one answer per backend response:
/// any two sequences meeting its ordering and stability clauses for the
/// same backend-provided operations are equal. With the mappers' results a
/// function of their own outcome alone, any interleaving of calls answers
/// as the sequential runs do.
pub proof fn lemma_dump_mempool_answer_unique(
    resp: Seq<UserOperation>,
    r1: Seq<UserOperation>,
    r2: Seq<UserOperation>,
)
    requires
        sorted_by_nonce(r1),
        sorted_by_nonce(r2),
        same_per_nonce(resp, r1),
        same_per_nonce(resp, r2),
    ensures
        r1 == r2,
{
    assert forall|n: Uint256| #[trigger] with_nonce(r1, n) == with_nonce(r2, n) by {
        assert(with_nonce(resp, n) == with_nonce(r1, n));
        assert(with_nonce(resp, n) == with_nonce(r2, n));
    }
    lemma_sorted_stable_unique(r1, r2);
}

} // verus!
