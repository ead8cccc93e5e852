//! The Metropolis decision and the sweep itself.

use vstd::prelude::*;
use crate::chain::{spin_ok, chain_ok, right_neighbor, left_neighbor, right_index, left_index};

verus! {

/// The alignment of site `i`: its spin times the sum of its two ring
/// neighbors' spins. The local energy change of flipping site `i` is
/// `2 * J * alignment_of(s, i)`, so for a fixed coupling the alignment
/// carries everything the acceptance decision reads from the chain.
pub open spec fn alignment_of(s: Seq<i32>, i: int) -> int
    recommends
        0 < s.len(),
        0 <= i < s.len(),
{
    s[i] * (s[right_index(i, s.len() as int)] + s[left_index(i, s.len() as int)])
}

pub fn alignment(spins: &Vec<i32>, i: usize) -> (a: i32)
    requires
        chain_ok(spins@),
        i < spins.len(),
    ensures
        a as int == alignment_of(spins@, i as int),
        a == -2i32 || a == 0i32 || a == 2i32,
{
    let n = spins.len();
    let r = right_neighbor(i, n);
    let l = left_neighbor(i, n);
    assert(spin_ok(spins@[i as int]));
    assert(spin_ok(spins@[r as int]));
    assert(spin_ok(spins@[l as int]));
    spins[i] * (spins[r] + spins[l])
}

/// Whether the local energy change `2 * J * align` is negative, stated over
/// the sign of the coupling constant `J` rather than its magnitude: the
/// magnitude is nonnegative, so only the two signs decide.
pub open spec fn delta_e_negative(j_sign: int, align: int) -> bool {
    j_sign * align < 0
}

pub fn delta_negative(j_sign: i32, align: i32) -> (r: bool)
    requires
        -1 <= j_sign <= 1,
        -2 <= align <= 2,
    ensures
        r == delta_e_negative(j_sign as int, align as int),
{
    proof {
        assert(-2 <= j_sign as int * align as int <= 2) by (nonlinear_arith)
            requires
                -1 <= j_sign as int <= 1,
                -2 <= align as int <= 2,
        ;
    }
    j_sign * align < 0
}

/// A flipped spin.
pub open spec fn negated(s: i32) -> i32
    recommends
        spin_ok(s),
{
    (-s) as i32
}

/// The Metropolis decision at site `i`: an energy-lowering flip is accepted
/// unconditionally; any other flip is accepted exactly when the site's
/// random draw fell below the acceptance threshold `exp(-beta * deltaE)`,
/// an outcome the caller records in `draw_below[i]`.
pub open spec fn flip_accepted(j_sign: int, s: Seq<i32>, draw_below: Seq<bool>, i: int) -> bool
    recommends
        0 < s.len(),
        0 <= i < s.len(),
        draw_below.len() == s.len(),
{
    delta_e_negative(j_sign, alignment_of(s, i)) || draw_below[i]
}

/// The configuration one sweep produces: every accepted site carries the
/// negation of its pre-sweep spin, every other site its pre-sweep spin
/// unchanged. All decisions read the pre-sweep chain `s`.
pub open spec fn sweep_result(j_sign: int, s: Seq<i32>, draw_below: Seq<bool>) -> Seq<i32>
    recommends
        draw_below.len() == s.len(),
{
    Seq::new(
        s.len(),
        |i: int|
            if flip_accepted(j_sign, s, draw_below, i) {
                negated(s[i])
            } else {
                s[i]
            },
    )
}

/// One Metropolis sweep over the chain.
///
/// `j_sign` is the sign of the coupling constant `J` (1, 0 or -1) and
/// `draw_below[i]` records whether site `i`'s uniform random draw fell
/// below its acceptance threshold. Every site's decision is evaluated
/// against the original configuration `spins`, which is only read: the
/// result is a fresh vector of the same length whose entries stay in
/// `{spins[i], -spins[i]}`.
pub fn sweep(j_sign: i32, spins: &Vec<i32>, draw_below: &Vec<bool>) -> (out: Vec<i32>)
    requires
        -1 <= j_sign <= 1,
        chain_ok(spins@),
        draw_below@.len() == spins@.len(),
    ensures
        out@ == sweep_result(j_sign as int, spins@, draw_below@),
        out@.len() == spins@.len(),
        forall|i: int|
            0 <= i < spins@.len() ==> out@[i] == spins@[i] || out@[i] == negated(spins@[i]),
        chain_ok(out@),
{
    let n = spins.len();
    let mut out: Vec<i32> = Vec::new();
    let mut i: usize = 0;
    while i < n
        invariant
            i <= n,
            n == spins@.len(),
            draw_below@.len() == n,
            chain_ok(spins@),
            -1 <= j_sign <= 1,
            out@.len() == i,
            forall|k: int|
                0 <= k < i ==> out@[k] == sweep_result(j_sign as int, spins@, draw_below@)[k],
        decreases n - i,
    {
        let a = alignment(spins, i);
        let accept = delta_negative(j_sign, a) || draw_below[i];
        assert(spin_ok(spins@[i as int]));
        if accept {
            out.push(-spins[i]);
        } else {
            out.push(spins[i]);
        }
        i += 1;
    }
    proof {
        assert(out@ =~= sweep_result(j_sign as int, spins@, draw_below@));
    }
    out
}

/// An energy-lowering flip is accepted with no randomness involved: at any
/// site whose energy change is negative — the sign of the coupling times
/// the site's alignment is negative, as when the coupling is ferromagnetic
/// and the site disagrees with both neighbors — the sweep flips the spin
/// whatever the site's draw came out to be.
pub proof fn lemma_unconditional_acceptance(j_sign: int, s: Seq<i32>, draw_below: Seq<bool>, i: int)
    requires
        0 <= i < s.len(),
        draw_below.len() == s.len(),
        delta_e_negative(j_sign, alignment_of(s, i)),
    ensures
        sweep_result(j_sign, s, draw_below)[i] == negated(s[i]),
{
}

/// When every site's draw falls below its acceptance threshold — as happens
/// whenever the threshold is 1, that is at zero inverse temperature or at
/// zero coupling, where the energy change vanishes — every site flips: the
/// sweep returns the pointwise negation of its input.
pub proof fn lemma_all_draws_accept(j_sign: int, s: Seq<i32>, draw_below: Seq<bool>)
    requires
        draw_below.len() == s.len(),
        forall|i: int| 0 <= i < draw_below.len() ==> draw_below[i],
    ensures
        forall|i: int| 0 <= i < s.len() ==> sweep_result(j_sign, s, draw_below)[i] == negated(s[i]),
{
}

} // verus!
