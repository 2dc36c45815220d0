//! The simulation context: a lattice, its annealing schedule and its random
//! source, advanced one tick at a time, and read cell by cell for display.
use crate::lattice::{Lattice, LatticeError, lemma_dims};
use crate::metropolis::{Acceptance, reaches, run_trials};
use crate::random::seeded_rng;
use crate::schedule::Schedule;
use rand::rngs::StdRng;
use vstd::prelude::*;

verus! {

/// Colours for the two spin values.
#[derive(Debug, Clone, Copy, PartialEq, Eq)]
pub struct Palette {
    /// Colour of a `-1` spin.
    pub down_rgba: [u8; 4],
    /// Colour of a `+1` spin.
    pub up_rgba: [u8; 4],
}

impl Palette {
    /// Black for `-1`, white for `+1`, both opaque.
    pub fn black_and_white() -> (r: Palette)
        ensures
            r.down_rgba@ == seq![0u8, 0u8, 0u8, 255u8],
            r.up_rgba@ == seq![255u8, 255u8, 255u8, 255u8],
    {
        Palette { down_rgba: [0, 0, 0, 255], up_rgba: [255, 255, 255, 255] }
    }
}

/// The lattice, the schedule and the random source, owned together.
pub struct Simulation {
    lattice: Lattice,
    schedule: Schedule,
    rng: StdRng,
}

impl Simulation {
    pub closed spec fn lattice_of(&self) -> Lattice {
        self.lattice
    }

    pub closed spec fn schedule_of(&self) -> Schedule {
        self.schedule
    }

    pub open spec fn wf(&self) -> bool {
        self.lattice_of().wf() && self.schedule_of().wf()
    }

    /// A simulation on an all-`+1` lattice of `n_x` by `n_y` cells, with
    /// `schedule` and a random source seeded by `seed`. Fails as
    /// `Lattice::new` does.
    pub fn new(n_x: usize, n_y: usize, schedule: Schedule, seed: u64) -> (r: Result<
        Simulation,
        LatticeError,
    >)
        requires
            schedule.wf(),
        ensures
            n_x < 2 || n_y < 2 <==> r == Err::<Simulation, _>(LatticeError::TooSmall),
            (n_x >= 2 && n_y >= 2 && n_x * n_y > isize::MAX) <==> r == Err::<Simulation, _>(
                LatticeError::TooLarge,
            ),
            r is Ok <==> n_x >= 2 && n_y >= 2 && n_x * n_y <= isize::MAX,
            r is Ok ==> {
                let s = r->Ok_0;
                &&& s.wf()
                &&& s.lattice_of().nx() == n_x
                &&& s.lattice_of().ny() == n_y
                &&& s.lattice_of().all_up()
                &&& s.schedule_of() == schedule
            },
    {
        match Lattice::new(n_x, n_y) {
            Ok(lattice) => Ok(Simulation { lattice, schedule, rng: seeded_rng(seed) }),
            Err(e) => Err(e),
        }
    }

    /// The lattice.
    pub fn lattice(&self) -> (r: &Lattice)
        ensures
            *r == self.lattice_of(),
    {
        &self.lattice
    }

    /// The schedule.
    pub fn schedule(&self) -> (r: &Schedule)
        ensures
            *r == self.schedule_of(),
    {
        &self.schedule
    }

    /// The current beta, in units of `1 / BETA_SCALE`.
    pub fn beta(&self) -> (r: i128)
        ensures
            r == self.schedule_of().beta_of(),
    {
        self.schedule.beta()
    }

    /// The spin at `(i, j)`, always `-1` or `+1`.
    pub fn spin_at(&self, i: usize, j: usize) -> (r: i8)
        requires
            self.wf(),
            self.lattice_of().in_bounds(i as int, j as int),
        ensures
            r == self.lattice_of().spin(i as int, j as int),
            r == 1 || r == -1,
    {
        self.lattice.spin_at(i, j)
    }

    /// One tick: `n_x * n_y` Metropolis trials at the current beta, whose
    /// acceptance probabilities `table` holds, then one schedule step.
    pub fn tick(&mut self, table: &Acceptance)
        requires
            old(self).wf(),
        ensures
            final(self).wf(),
            final(self).lattice_of().nx() == old(self).lattice_of().nx(),
            final(self).lattice_of().ny() == old(self).lattice_of().ny(),
            final(self).schedule_of().is_advance_of(&old(self).schedule_of()),
            old(self).lattice_of().all_up() && table.raise_eight == 0
                ==> final(self).lattice_of().all_up(),
            reaches(
                old(self).lattice_of(),
                final(self).lattice_of(),
                *table,
                old(self).lattice_of().nx() * old(self).lattice_of().ny(),
            ),
    {
        proof {
            lemma_dims(&self.lattice);
            assert(self.lattice.nx() * self.lattice.ny() <= usize::MAX);
        }
        let count = self.lattice.n_x() * self.lattice.n_y();
        run_trials(&mut self.lattice, &mut self.rng, table, count);
        self.schedule.advance();
    }
}

/// The colour of pixel `(pixel_x, pixel_y)` when each cell is drawn as a block
/// of `w_x` by `w_y` pixels, the pattern repeating past the lattice's edges.
pub fn get_rgba(pixel_x: usize, pixel_y: usize, lattice: &Lattice, w_x: u32, w_y: u32, palette: &Palette) -> (r: [u8; 4])
    requires
        lattice.wf(),
        w_x > 0,
        w_y > 0,
    ensures
        ({
            let i = (pixel_x as int / w_x as int) % lattice.nx() as int;
            let j = (pixel_y as int / w_y as int) % lattice.ny() as int;
            r == if lattice.spin(i, j) == -1 {
                palette.down_rgba
            } else {
                palette.up_rgba
            }
        }),
{
    proof {
        lemma_dims(lattice);
    }
    let i: usize = (pixel_x / w_x as usize) % lattice.n_x();
    let j: usize = (pixel_y / w_y as usize) % lattice.n_y();
    let val = lattice.spin_at(i, j);
    if val == -1 {
        palette.down_rgba
    } else {
        palette.up_rgba
    }
}

} // verus!
