//! The pair enumerator: every unordered pair of a sequence of spheres,
//! exactly once, in a deterministic order.

use vstd::prelude::*;
use crate::shapes::Sphere;

verus! {

/// The pairs contributed by anchor position `k`: `(s[m], s[k])` for every
/// `m` in `k+1..len`.
pub open spec fn spec_pair_row(s: Seq<Sphere>, k: int) -> Seq<(Sphere, Sphere)> {
    Seq::new((s.len() - k - 1) as nat, |i: int| (s[k + 1 + i], s[k]))
}

/// The pairs contributed by the anchors before position `k`, in emission
/// order.
pub open spec fn spec_pairs_upto(s: Seq<Sphere>, k: int) -> Seq<(Sphere, Sphere)>
    decreases k,
{
    if k <= 0 {
        Seq::empty()
    } else {
        spec_pairs_upto(s, k - 1) + spec_pair_row(s, k - 1)
    }
}

/// All unordered pairs of `s`, in the order `pairs` emits them.  A pair of
/// exactly two spheres is emitted in input order; longer inputs walk the
/// anchors in order and pair each with every later element.
pub open spec fn spec_pairs(s: Seq<Sphere>) -> Seq<(Sphere, Sphere)> {
    if s.len() == 2 {
        seq![(s[0], s[1])]
    } else if s.len() > 2 {
        spec_pairs_upto(s, s.len() - 1)
    } else {
        Seq::empty()
    }
}

proof fn lemma_pairs_upto_len(s: Seq<Sphere>, k: int)
    requires
        0 <= k <= s.len() - 1,
    ensures
        2 * spec_pairs_upto(s, k).len() == k * (2 * s.len() - k - 1),
    decreases k,
{
    if k <= 0 {
        assert(k * (2 * s.len() - k - 1) == 0) by (nonlinear_arith)
            requires
                k == 0,
        ;
    } else {
        lemma_pairs_upto_len(s, k - 1);
        let n = s.len() as int;
        assert((k - 1) * (2 * n - k) + 2 * (n - k) == k * (2 * n - k - 1)) by (nonlinear_arith);
    }
}

/// Pair-count law: the enumerator yields exactly `n*(n-1)/2` pairs for a
/// sequence of `n` spheres — one pair when `n` is 2, none when `n` is below 2.
pub proof fn lemma_pair_count(s: Seq<Sphere>)
    ensures
        2 * spec_pairs(s).len() == s.len() * (s.len() - 1),
        spec_pairs(s).len() == s.len() * (s.len() - 1) / 2,
{
    let n = s.len() as int;
    if n == 2 {
    } else if n > 2 {
        lemma_pairs_upto_len(s, n - 1);
        assert((n - 1) * (2 * n - (n - 1) - 1) == n * (n - 1)) by (nonlinear_arith);
    } else {
        assert(n * (n - 1) == 0) by (nonlinear_arith)
            requires
                0 <= n <= 1,
        ;
    }
}

proof fn lemma_pairs_upto_wf(s: Seq<Sphere>, k: int)
    requires
        crate::shapes::all_wf(s),
        0 <= k <= s.len() - 1,
    ensures
        forall|t: int|
            0 <= t < spec_pairs_upto(s, k).len() ==> (#[trigger] spec_pairs_upto(s, k)[t]).0.wf()
                && spec_pairs_upto(s, k)[t].1.wf(),
    decreases k,
{
    if k > 0 {
        lemma_pairs_upto_wf(s, k - 1);
        let prev = spec_pairs_upto(s, k - 1);
        let row = spec_pair_row(s, k - 1);
        assert forall|t: int|
            0 <= t < spec_pairs_upto(s, k).len() implies (#[trigger] spec_pairs_upto(s, k)[t]).0.wf()
            && spec_pairs_upto(s, k)[t].1.wf() by {
            if t < prev.len() {
                assert(spec_pairs_upto(s, k)[t] == prev[t]);
            } else {
                assert(spec_pairs_upto(s, k)[t] == row[t - prev.len()]);
                assert(row[t - prev.len()] == (s[k + (t - prev.len())], s[k - 1]));
            }
        }
    }
}

/// Every pair the enumerator emits is made of well-formed spheres whenever
/// the input spheres all are.
pub proof fn lemma_pairs_wf(s: Seq<Sphere>)
    requires
        crate::shapes::all_wf(s),
    ensures
        forall|t: int|
            0 <= t < spec_pairs(s).len() ==> (#[trigger] spec_pairs(s)[t]).0.wf() && spec_pairs(
                s,
            )[t].1.wf(),
{
    if s.len() > 2 {
        lemma_pairs_upto_wf(s, s.len() - 1);
    }
}

/// `p` joins two distinct positions of `s`.
pub open spec fn spec_pair_of_distinct(s: Seq<Sphere>, p: (Sphere, Sphere)) -> bool {
    exists|k: int, m: int|
        0 <= k < s.len() && 0 <= m < s.len() && k != m && p == (#[trigger] s[k], #[trigger] s[m])
}

proof fn lemma_pairs_upto_shape(s: Seq<Sphere>, kk: int)
    requires
        0 <= kk <= s.len() - 1,
    ensures
        forall|t: int|
            0 <= t < spec_pairs_upto(s, kk).len() ==> spec_pair_of_distinct(
                s,
                #[trigger] spec_pairs_upto(s, kk)[t],
            ),
    decreases kk,
{
    if kk > 0 {
        lemma_pairs_upto_shape(s, kk - 1);
        let prev = spec_pairs_upto(s, kk - 1);
        let row = spec_pair_row(s, kk - 1);
        assert forall|t: int|
            0 <= t < spec_pairs_upto(s, kk).len() implies spec_pair_of_distinct(
            s,
            #[trigger] spec_pairs_upto(s, kk)[t],
        ) by {
            if t < prev.len() {
                assert(spec_pairs_upto(s, kk)[t] == prev[t]);
            } else {
                let j = t - prev.len();
                assert(spec_pairs_upto(s, kk)[t] == row[j]);
                assert(row[j] == (s[kk + j], s[kk - 1]));
            }
        }
    }
}

/// Every emitted pair joins two distinct positions of the input: there is no
/// self-pairing, and with the count law this makes every unordered pair
/// appear exactly once.
pub proof fn lemma_pairs_shape(s: Seq<Sphere>)
    ensures
        forall|t: int|
            0 <= t < spec_pairs(s).len() ==> spec_pair_of_distinct(
                s,
                #[trigger] spec_pairs(s)[t],
            ),
{
    if s.len() == 2 {
        assert forall|t: int|
            0 <= t < spec_pairs(s).len() implies spec_pair_of_distinct(
            s,
            #[trigger] spec_pairs(s)[t],
        ) by {
            assert(spec_pairs(s)[t] == (s[0], s[1]));
        }
    } else if s.len() > 2 {
        lemma_pairs_upto_shape(s, s.len() - 1);
        assert forall|t: int|
            0 <= t < spec_pairs(s).len() implies spec_pair_of_distinct(
            s,
            #[trigger] spec_pairs(s)[t],
        ) by {
            assert(spec_pairs(s)[t] == spec_pairs_upto(s, s.len() - 1)[t]);
        }
    }
}

/// Calculates all possible pairs of a `set` of spheres, in a deterministic
/// order: exactly `spec_pairs(set@)`.
pub fn pairs(set: &Vec<Sphere>) -> (r: Vec<(Sphere, Sphere)>)
    ensures
        r@ == spec_pairs(set@),
        2 * r@.len() == set@.len() * (set@.len() - 1),
{
    proof {
        lemma_pair_count(set@);
    }
    let n = set.len();
    if n == 2 {
        let mut minimal: Vec<(Sphere, Sphere)> = Vec::new();
        minimal.push((set[0], set[1]));
        proof {
            assert(minimal@ =~= spec_pairs(set@));
        }
        minimal
    } else {
        let mut vec_pairs: Vec<(Sphere, Sphere)> = Vec::new();
        if n > 2 {
            let mut k: usize = 0;
            while k < n - 1
                invariant
                    set@.len() == n,
                    n > 2,
                    0 <= k <= n - 1,
                    vec_pairs@ == spec_pairs_upto(set@, k as int),
                decreases n - 1 - k,
            {
                let mut m: usize = k + 1;
                while m < n
                    invariant
                        set@.len() == n,
                        n > 2,
                        0 <= k < n,
                        k + 1 <= m <= n,
                        vec_pairs@ == spec_pairs_upto(set@, k as int)
                            + spec_pair_row(set@, k as int).subrange(0, m - k - 1),
                    decreases n - m,
                {
                    vec_pairs.push((set[m], set[k]));
                    proof {
                        assert(vec_pairs@ =~= spec_pairs_upto(set@, k as int)
                            + spec_pair_row(set@, k as int).subrange(0, m + 1 - k - 1));
                    }
                    m = m + 1;
                }
                proof {
                    assert(spec_pair_row(set@, k as int).subrange(0, n - k as int - 1)
                        =~= spec_pair_row(set@, k as int));
                    assert(vec_pairs@ =~= spec_pairs_upto(set@, k as int + 1));
                }
                k = k + 1;
            }
            proof {
                assert(vec_pairs@ == spec_pairs(set@));
            }
        } else {
            proof {
                assert(vec_pairs@ =~= spec_pairs(set@));
            }
        }
        vec_pairs
    }
}

} // verus!
