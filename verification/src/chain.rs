//! The ring geometry of the spin chain and the per-site alignment.

use vstd::prelude::*;
use vstd::arithmetic::div_mod::{lemma_small_mod, lemma_mod_multiples_vanish, lemma_mod_self_0};

verus! {

/// A spin is one of the two orientations of a site.
pub open spec fn spin_ok(s: i32) -> bool {
    s == 1i32 || s == -1i32
}

/// Every element of the chain is a spin.
pub open spec fn chain_ok(s: Seq<i32>) -> bool {
    forall|i: int| 0 <= i < s.len() ==> spin_ok(s[i])
}

/// Index of site `i`'s right neighbor on a ring of `n` sites: `(i + 1) % n`.
pub open spec fn right_index(i: int, n: int) -> int
    recommends
        0 < n,
{
    (i + 1) % n
}

/// Index of site `i`'s left neighbor on a ring of `n` sites: `(i + n - 1) % n`.
pub open spec fn left_index(i: int, n: int) -> int
    recommends
        0 < n,
{
    (i + n - 1) % n
}

pub fn right_neighbor(i: usize, n: usize) -> (r: usize)
    requires
        i < n,
    ensures
        r == right_index(i as int, n as int),
        r < n,
{
    (i + 1) % n
}

pub fn left_neighbor(i: usize, n: usize) -> (r: usize)
    requires
        i < n,
    ensures
        r == left_index(i as int, n as int),
        r < n,
{
    let r: usize = if i == 0 { n - 1 } else { i - 1 };
    proof {
        if i == 0 {
            lemma_small_mod((n - 1) as nat, n as nat);
        } else {
            lemma_mod_multiples_vanish(1, i - 1, n as int);
            lemma_small_mod((i - 1) as nat, n as nat);
        }
    }
    r
}

/// On a ring of `n` sites, site 0's left neighbor is site `n - 1` and site
/// `n - 1`'s right neighbor is site 0: the boundary is periodic.
pub proof fn lemma_ring_wraparound(n: int)
    requires
        0 < n,
    ensures
        left_index(0, n) == n - 1,
        right_index(n - 1, n) == 0,
{
    lemma_small_mod((n - 1) as nat, n as nat);
    lemma_mod_self_0(n);
}

} // verus!
