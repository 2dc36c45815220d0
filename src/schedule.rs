//! The bounded oscillating annealing schedule: beta ramps from its lower
//! bound to its upper bound and back in equal steps, forever.
//!
//! Beta is held in fixed point: a value `b` stands for `b / BETA_SCALE`.
use vstd::prelude::*;

verus! {

/// Fixed-point units of beta per unit of inverse temperature.
pub const BETA_SCALE: u64 = 1_000_000_000;

/// The critical inverse temperature of the square-lattice Ising model,
/// `ln(1 + sqrt 2) / 2`, in units of `1 / BETA_SCALE`.
pub const BETA_CRITICAL: u64 = 440_686_794;

/// Lower bound of the default ramp: a tenth of the critical value.
pub const BETA_START: u64 = 44_068_679;

/// Upper bound of the default ramp: the critical value.
pub const BETA_END: u64 = BETA_CRITICAL;

/// Ticks the default ramp takes from one bound to the other.
pub const N_STEPS: u64 = 100;

/// Which way beta is moving.
#[derive(Debug, Clone, Copy, PartialEq, Eq, Structural)]
pub enum Direction {
    RampingUp,
    RampingDown,
}

/// A triangle wave of beta between `start` and `end`.
#[derive(Debug, Clone, Copy)]
pub struct Schedule {
    start: u64,
    end: u64,
    step: u64,
    beta: i128,
    direction: Direction,
}

impl Schedule {
    pub closed spec fn start_of(&self) -> int {
        self.start as int
    }

    pub closed spec fn end_of(&self) -> int {
        self.end as int
    }

    /// The amount beta moves each tick.
    pub closed spec fn step_of(&self) -> int {
        self.step as int
    }

    pub closed spec fn beta_of(&self) -> int {
        self.beta as int
    }

    pub closed spec fn direction_of(&self) -> Direction {
        self.direction
    }

    /// The bounds are ordered and positive, the step is positive, and beta
    /// lies within the bounds but for at most one step past the bound it is
    /// moving away from.
    pub closed spec fn wf(&self) -> bool {
        &&& 0 < self.start < self.end
        &&& 0 < self.step
        &&& match self.direction {
            Direction::RampingUp => self.start <= self.beta <= self.end + self.step,
            Direction::RampingDown => self.start - self.step <= self.beta <= self.end,
        }
    }

    /// `self` is `before` after one tick: the direction turns if beta had left
    /// `[start, end]`, then beta moves one step in the resulting direction.
    pub open spec fn is_advance_of(&self, before: &Schedule) -> bool {
        &&& self.start_of() == before.start_of()
        &&& self.end_of() == before.end_of()
        &&& self.step_of() == before.step_of()
        &&& self.direction_of() == if before.beta_of() > before.end_of() {
            Direction::RampingDown
        } else if before.beta_of() < before.start_of() {
            Direction::RampingUp
        } else {
            before.direction_of()
        }
        &&& self.beta_of() == before.beta_of() + match self.direction_of() {
            Direction::RampingUp => before.step_of(),
            Direction::RampingDown => -before.step_of(),
        }
    }

    /// A schedule ramping from `start` to `end` in steps of
    /// `(end - start) / n_steps`, beginning at `start` and moving up.
    /// Refused unless `0 < start < end`, `n_steps > 0` and the step is at
    /// least one unit.
    pub fn new(start: u64, end: u64, n_steps: u64) -> (r: Option<Schedule>)
        ensures
            r is Some <==> 0 < start < end && 0 < n_steps <= end - start,
            r is Some ==> {
                let s = r->Some_0;
                &&& s.wf()
                &&& s.start_of() == start
                &&& s.end_of() == end
                &&& s.step_of() == (end - start) as int / n_steps as int
                &&& s.beta_of() == start
                &&& s.direction_of() == Direction::RampingUp
            },
    {
        if start == 0 || start >= end || n_steps == 0 || n_steps > end - start {
            return None;
        }
        let step = (end - start) / n_steps;
        proof {
            assert(step >= 1) by (nonlinear_arith)
                requires
                    step == (end - start) / n_steps as int,
                    0 < n_steps <= end - start,
            ;
        }
        Some(Schedule { start, end, step, beta: start as i128, direction: Direction::RampingUp })
    }

    /// The current beta, in units of `1 / BETA_SCALE`.
    pub fn beta(&self) -> (r: i128)
        ensures
            r == self.beta_of(),
    {
        self.beta
    }

    /// The current direction.
    pub fn direction(&self) -> (r: Direction)
        ensures
            r == self.direction_of(),
    {
        self.direction
    }

    /// One tick: if beta has left `[start, end]` the direction turns, then
    /// beta moves one step in the (new) direction.
    pub fn advance(&mut self)
        requires
            old(self).wf(),
        ensures
            final(self).wf(),
            final(self).is_advance_of(&*old(self)),
    {
        if self.beta > self.end as i128 {
            self.direction = Direction::RampingDown;
        } else if self.beta < self.start as i128 {
            self.direction = Direction::RampingUp;
        }
        match self.direction {
            Direction::RampingUp => {
                self.beta = self.beta + self.step as i128;
            },
            Direction::RampingDown => {
                self.beta = self.beta - self.step as i128;
            },
        }
    }
}

/// Beta lies on the near side of the bound it is moving towards: a schedule
/// ramping down is never above `end`, and one ramping up never below `start`.
/// So the direction turns only after beta has passed a bound, and at most one
/// step past it.
pub proof fn lemma_direction_bound(s: &Schedule)
    requires
        s.wf(),
    ensures
        s.start_of() > 0,
        s.start_of() < s.end_of(),
        s.step_of() > 0,
        s.direction_of() == Direction::RampingDown ==> s.start_of() - s.step_of() <= s.beta_of()
            <= s.end_of(),
        s.direction_of() == Direction::RampingUp ==> s.start_of() <= s.beta_of() <= s.end_of()
            + s.step_of(),
{
}

/// However many ticks have passed, beta stays within the schedule's bounds
/// but for at most one step of overshoot: `start - step <= beta <= end + step`.
pub proof fn lemma_beta_bounded(s: &Schedule)
    requires
        s.wf(),
    ensures
        s.start_of() - s.step_of() <= s.beta_of() <= s.end_of() + s.step_of(),
{
}

/// A tick taken from a schedule that holds the bound yields a schedule that
/// holds it too; with `new` starting at `start`, the bound holds at every tick.
pub proof fn lemma_tick_keeps_bound(before: &Schedule, after: &Schedule)
    requires
        before.wf(),
        after.is_advance_of(before),
    ensures
        after.wf(),
        after.start_of() - after.step_of() <= after.beta_of() <= after.end_of() + after.step_of(),
{
}

} // verus!
