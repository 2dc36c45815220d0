//! The Metropolis stepper: random single-spin flips accepted with the
//! Boltzmann probability `min(1, exp(-beta * dE))`.
//!
//! A uniform draw `u` in `[0, 1)` is held as a `u32` numerator over `2^32`,
//! and each acceptance probability as a `u64` numerator over the same
//! denominator; a flip is accepted when `u` is below that numerator.
use crate::lattice::{Lattice, lemma_dims, wrap_next, wrap_prev};
use crate::random::{draw_index, draw_u32};
use rand::rngs::StdRng;
use vstd::prelude::*;

verus! {

/// The numerator of probability one: `2^32`.
pub const CERTAIN: u64 = 4_294_967_296;

/// Acceptance probabilities, over `2^32`, of the flips that raise the local
/// energy. A flip that does not raise it is always accepted. A numerator of
/// `CERTAIN` or more means that the flip is always accepted, which is how an
/// exponential at or above one saturates.
#[derive(Debug, Clone, Copy, PartialEq, Eq, Structural)]
pub struct Acceptance {
    /// For a cell with local energy `-2`, whose flip raises the energy by 4:
    /// `exp(-4 beta)`.
    pub raise_four: u64,
    /// For a cell with local energy `-4`, whose flip raises the energy by 8:
    /// `exp(-8 beta)`.
    pub raise_eight: u64,
}

/// Whether a flip of a cell with local energy `energy` is accepted on the
/// uniform draw `u`: the draw lies below `exp(2 * beta * energy)`, read from
/// the table.
pub open spec fn accepts(energy: int, table: Acceptance, u: u32) -> bool {
    if energy >= 0 {
        true
    } else if energy == -2 {
        (u as int) < table.raise_four
    } else {
        (u as int) < table.raise_eight
    }
}

/// The number of the `2^32` equally likely draws on which a flip of a cell
/// with local energy `energy` is accepted: the acceptance probability times
/// `2^32`, saturating at one.
pub open spec fn accepting_draws(energy: int, table: Acceptance) -> int {
    if energy >= 0 {
        CERTAIN as int
    } else if energy == -2 {
        if table.raise_four < CERTAIN {
            table.raise_four as int
        } else {
            CERTAIN as int
        }
    } else {
        if table.raise_eight < CERTAIN {
            table.raise_eight as int
        } else {
            CERTAIN as int
        }
    }
}

/// A draw is accepted exactly when it lies below the count of accepting
/// draws, so that count over `2^32` is the acceptance probability.
pub proof fn lemma_accepts_below_count(energy: int, table: Acceptance, u: u32)
    ensures
        accepts(energy, table, u) <==> (u as int) < accepting_draws(energy, table),
        0 <= accepting_draws(energy, table) <= CERTAIN,
{
}

/// A flip that does not raise the local energy (local energy zero or more)
/// is accepted on every draw, whatever the table.
pub proof fn lemma_non_raising_flip_accepted(energy: int, table: Acceptance, u: u32)
    requires
        energy >= 0,
    ensures
        accepts(energy, table, u),
        accepting_draws(energy, table) == CERTAIN,
{
}

/// With the table of `beta = 0` every flip is accepted, whatever its energy.
pub proof fn lemma_zero_beta_accepts_all(energy: int, u: u32)
    ensures
        accepts(energy, Acceptance { raise_four: CERTAIN, raise_eight: CERTAIN }, u),
{
}

/// Raising the table's probabilities never removes an accepted draw: the
/// acceptance probability is monotone in the table, for every energy.
pub proof fn lemma_acceptance_monotone(energy: int, lo: Acceptance, hi: Acceptance, u: u32)
    requires
        lo.raise_four <= hi.raise_four,
        lo.raise_eight <= hi.raise_eight,
    ensures
        accepting_draws(energy, lo) <= accepting_draws(energy, hi),
        accepts(energy, lo, u) ==> accepts(energy, hi, u),
{
}

impl Acceptance {
    /// The table at `beta = 0`, where every exponent is zero and every flip
    /// is accepted.
    pub fn certain() -> (r: Acceptance)
        ensures
            r.raise_four == CERTAIN,
            r.raise_eight == CERTAIN,
    {
        Acceptance { raise_four: CERTAIN, raise_eight: CERTAIN }
    }
}

/// The Metropolis acceptance decision for a cell with local energy `energy`.
pub fn accept_flip(energy: i8, table: &Acceptance, u: u32) -> (r: bool)
    ensures
        r == accepts(energy as int, *table, u),
{
    if energy >= 0 {
        true
    } else if energy == -2 {
        (u as u64) < table.raise_four
    } else {
        (u as u64) < table.raise_eight
    }
}

/// One trial at cell `(i, j)` with uniform draw `u`: the local energy is
/// computed and the spin flipped if the draw is accepted. Returns whether it
/// flipped.
pub fn metropolis_trial(lattice: &mut Lattice, i: usize, j: usize, table: &Acceptance, u: u32) -> (r:
    bool)
    requires
        old(lattice).wf(),
        old(lattice).in_bounds(i as int, j as int),
    ensures
        final(lattice).wf(),
        r == accepts(old(lattice).energy_of(i as int, j as int), *table, u),
        r ==> final(lattice).is_flip_of(&*old(lattice), i as int, j as int),
        !r ==> final(lattice).same_spins(&*old(lattice)),
{
    let old_energy = lattice.local_energy(i, j);
    if accept_flip(old_energy, table, u) {
        lattice.flip(i, j);
        true
    } else {
        false
    }
}

/// `after` is `before` after one trial at cell `(i, j)` with uniform draw `u`:
/// flipped there if the draw is accepted, else unchanged.
pub open spec fn trial_step(before: Lattice, after: Lattice, table: Acceptance, i: int, j: int, u: u32) -> bool {
    &&& before.in_bounds(i, j)
    &&& if accepts(before.energy_of(i, j), table, u) {
        after.is_flip_of(&before, i, j)
    } else {
        after.same_spins(&before)
    }
}

/// `after` is what `k` trials can make of `before`: `k` steps, each a trial
/// at some cell with some draw, in the manner of `trial_step`.
pub open spec fn reaches(before: Lattice, after: Lattice, table: Acceptance, k: nat) -> bool
    decreases k,
{
    if k == 0 {
        after.same_spins(&before)
    } else {
        exists|mid: Lattice, i: int, j: int, u: u32|
            #[trigger] trial_step(mid, after, table, i, j, u) && reaches(
                before,
                mid,
                table,
                (k - 1) as nat,
            )
    }
}

/// At `beta = 0` every trial flips its cell: a lattice one trial away from
/// `before` under the certain table is `before` with one spin negated.
pub proof fn lemma_zero_beta_trial_flips(before: Lattice, after: Lattice)
    requires
        reaches(before, after, Acceptance { raise_four: CERTAIN, raise_eight: CERTAIN }, 1),
    ensures
        exists|i: int, j: int| before.in_bounds(i, j) && #[trigger] after.is_flip_of(&before, i, j),
{
    let t = Acceptance { raise_four: CERTAIN, raise_eight: CERTAIN };
    let (mid, i, j, u) = choose|mid: Lattice, i: int, j: int, u: u32|
        #[trigger] trial_step(mid, after, t, i, j, u) && reaches(before, mid, t, 0);
    assert(accepts(mid.energy_of(i, j), t, u));
    assert(before.in_bounds(i, j));
    assert forall|p: int, q: int|
        #[trigger] after.in_bounds(p, q) && (p != i || q != j) implies after.spin(p, q)
        == before.spin(p, q) by {
        assert(mid.in_bounds(p, q));
    }
    assert(mid.in_bounds(i, j));
    assert(after.is_flip_of(&before, i, j));
}

/// In a lattice whose spins are all `+1`, every cell has local energy `-4`.
pub proof fn lemma_aligned_energy(l: &Lattice, i: int, j: int)
    requires
        l.wf(),
        l.all_up(),
        l.in_bounds(i, j),
    ensures
        l.energy_of(i, j) == -4,
{
    let nx = l.nx() as int;
    let ny = l.ny() as int;
    assert(l.in_bounds(wrap_prev(i, nx), j));
    assert(l.in_bounds(wrap_next(i, nx), j));
    assert(l.in_bounds(i, wrap_prev(j, ny)));
    assert(l.in_bounds(i, wrap_next(j, ny)));
    assert(l.in_bounds(i, j));
}

/// `count` trials, each at a cell drawn uniformly with replacement and with
/// its own uniform draw: the result is reached from the old lattice by
/// `count` trial steps. The lattice stays well formed and keeps its shape; a
/// fully aligned lattice stays aligned when energy-raising flips by 8 are
/// never accepted.
pub fn run_trials(lattice: &mut Lattice, rng: &mut StdRng, table: &Acceptance, count: usize)
    requires
        old(lattice).wf(),
    ensures
        final(lattice).wf(),
        final(lattice).nx() == old(lattice).nx(),
        final(lattice).ny() == old(lattice).ny(),
        old(lattice).all_up() && table.raise_eight == 0 ==> final(lattice).all_up(),
        reaches(*old(lattice), *final(lattice), *table, count as nat),
{
    let n_x = lattice.n_x();
    let n_y = lattice.n_y();
    proof {
        lemma_dims(&*lattice);
    }
    let mut k: usize = 0;
    while k < count
        invariant
            lattice.wf(),
            lattice.nx() == n_x,
            lattice.ny() == n_y,
            n_x == old(lattice).nx(),
            n_y == old(lattice).ny(),
            n_x > 0,
            n_y > 0,
            old(lattice).all_up() && table.raise_eight == 0 ==> lattice.all_up(),
            k <= count,
            reaches(*old(lattice), *lattice, *table, k as nat),
        decreases count - k,
    {
        let i = draw_index(rng, n_x);
        let j = draw_index(rng, n_y);
        let u = draw_u32(rng);
        proof {
            if lattice.all_up() && table.raise_eight == 0 {
                lemma_aligned_energy(&*lattice, i as int, j as int);
            }
        }
        let ghost before = *lattice;
        metropolis_trial(lattice, i, j, table, u);
        proof {
            if before.all_up() && table.raise_eight == 0 {
                assert forall|p: int, q: int| #[trigger] lattice.in_bounds(p, q) implies lattice.spin(
                    p,
                    q,
                ) == 1 by {
                    assert(before.in_bounds(p, q));
                }
            }
        }
        assert(trial_step(before, *lattice, *table, i as int, j as int, u));
        assert(reaches(*old(lattice), *lattice, *table, (k + 1) as nat));
        k = k + 1;
    }
}

} // verus!
