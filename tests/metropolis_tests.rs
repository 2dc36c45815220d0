use ising::lattice::Lattice;
use ising::metropolis::{accept_flip, metropolis_trial, Acceptance, CERTAIN};
use ising::schedule::{Schedule, BETA_SCALE};
use ising::simulation::{get_rgba, Palette, Simulation};

fn table_for(beta: f64) -> Acceptance {
    let scaled = |x: f64| -> u64 {
        let v = (x * CERTAIN as f64).ceil();
        if v >= CERTAIN as f64 {
            CERTAIN
        } else {
            v as u64
        }
    };
    Acceptance {
        raise_four: scaled((-4.0 * beta).exp()),
        raise_eight: scaled((-8.0 * beta).exp()),
    }
}

fn schedule() -> Schedule {
    Schedule::new(10, 20, 5).unwrap()
}

#[test]
fn accept_flip_follows_the_table() {
    let t = Acceptance { raise_four: 100, raise_eight: 10 };
    assert!(accept_flip(4, &t, u32::MAX));
    assert!(accept_flip(2, &t, u32::MAX));
    assert!(accept_flip(0, &t, u32::MAX));
    assert!(accept_flip(-2, &t, 99));
    assert!(!accept_flip(-2, &t, 100));
    assert!(accept_flip(-4, &t, 9));
    assert!(!accept_flip(-4, &t, 10));
    let c = Acceptance::certain();
    assert_eq!(c.raise_four, CERTAIN);
    assert!(accept_flip(-4, &c, u32::MAX));
    assert!(accept_flip(-2, &c, u32::MAX));
}

#[test]
fn non_raising_flips_always_accepted() {
    let never = Acceptance { raise_four: 0, raise_eight: 0 };
    for u in [0u32, 1, 1 << 31, u32::MAX] {
        assert!(accept_flip(0, &never, u));
        assert!(accept_flip(2, &never, u));
        assert!(accept_flip(4, &never, u));
        assert!(!accept_flip(-2, &never, u));
        assert!(!accept_flip(-4, &never, u));
    }
}

#[test]
fn acceptance_grows_with_lower_beta() {
    let hot = table_for(0.1);
    let cold = table_for(0.5);
    assert!(hot.raise_four > cold.raise_four);
    assert!(hot.raise_eight > cold.raise_eight);
    let u = ((-4.0f64 * 0.3).exp() * CERTAIN as f64) as u32;
    assert!(accept_flip(-2, &hot, u));
    assert!(!accept_flip(-2, &cold, u));
    assert_eq!(table_for(0.0), Acceptance::certain());
}

#[test]
fn trial_flips_when_accepted() {
    let mut l = Lattice::new(4, 4).unwrap();
    let t = Acceptance { raise_four: 0, raise_eight: 5 };
    assert!(!metropolis_trial(&mut l, 1, 1, &t, 5));
    assert_eq!(l.spin_at(1, 1), 1);
    assert!(metropolis_trial(&mut l, 1, 1, &t, 4));
    assert_eq!(l.spin_at(1, 1), -1);
    // The flipped cell now has local energy 4 and flips back on any draw.
    assert!(metropolis_trial(&mut l, 1, 1, &t, u32::MAX));
    assert_eq!(l.spin_at(1, 1), 1);
}

#[test]
fn zero_beta_flips_about_half() {
    let mut sim = Simulation::new(4, 4, schedule(), 42).unwrap();
    let table = table_for(0.0);
    for _ in 0..1000 {
        sim.tick(&table);
    }
    let mut flipped = 0;
    for i in 0..4 {
        for j in 0..4 {
            if sim.spin_at(i, j) != 1 {
                flipped += 1;
            }
        }
    }
    assert!(flipped * 5 >= 16 && flipped * 5 <= 4 * 16, "flipped {}", flipped);
}

#[test]
fn large_beta_keeps_aligned_lattice() {
    let mut sim = Simulation::new(4, 4, schedule(), 7).unwrap();
    let table = table_for(100.0);
    assert_eq!(table.raise_eight, 0);
    sim.tick(&table);
    for i in 0..4 {
        for j in 0..4 {
            assert_eq!(sim.spin_at(i, j), 1);
        }
    }
}

#[test]
fn tick_runs_trials_and_advances_beta() {
    let mut sim = Simulation::new(8, 8, schedule(), 3).unwrap();
    assert_eq!(sim.beta(), 10);
    sim.tick(&Acceptance::certain());
    assert_eq!(sim.beta(), 12);
    assert_eq!(sim.schedule().beta(), 12);
    let mut flipped = 0;
    for i in 0..8 {
        for j in 0..8 {
            if sim.lattice().spin_at(i, j) == -1 {
                flipped += 1;
            }
        }
    }
    assert!(flipped > 0);
    assert_eq!(sim.lattice().n_x(), 8);
    assert!(BETA_SCALE > 0);
}

#[test]
fn same_seed_same_trajectory() {
    let mut a = Simulation::new(6, 5, schedule(), 11).unwrap();
    let mut b = Simulation::new(6, 5, schedule(), 11).unwrap();
    let table = table_for(0.3);
    for _ in 0..20 {
        a.tick(&table);
        b.tick(&table);
    }
    for i in 0..6 {
        for j in 0..5 {
            assert_eq!(a.spin_at(i, j), b.spin_at(i, j));
        }
    }
}

#[test]
fn simulation_rejects_bad_dimensions() {
    assert!(Simulation::new(1, 4, schedule(), 0).is_err());
    assert!(Simulation::new(4, 0, schedule(), 0).is_err());
}

#[test]
fn rgba_maps_pixels_to_cells() {
    let mut l = Lattice::new(3, 2).unwrap();
    l.flip(1, 0);
    let p = Palette::black_and_white();
    assert_eq!(p.down_rgba, [0, 0, 0, 255]);
    assert_eq!(p.up_rgba, [255, 255, 255, 255]);
    assert_eq!(get_rgba(0, 0, &l, 1, 1, &p), p.up_rgba);
    assert_eq!(get_rgba(1, 0, &l, 1, 1, &p), p.down_rgba);
    // Pixel 4 past a width of 3 wraps to row 1.
    assert_eq!(get_rgba(4, 2, &l, 1, 1, &p), p.down_rgba);
    let custom = Palette { down_rgba: [1, 2, 3, 4], up_rgba: [5, 6, 7, 8] };
    // Blocks of 2 by 3 pixels: pixel (3, 2) is cell (1, 0).
    assert_eq!(get_rgba(3, 2, &l, 2, 3, &custom), [1, 2, 3, 4]);
    assert_eq!(get_rgba(3, 3, &l, 2, 3, &custom), [5, 6, 7, 8]);
    assert_eq!(get_rgba(1, 2, &l, 2, 3, &custom), [5, 6, 7, 8]);
}

#[test]
fn zero_beta_tick_flips_on_every_trial() {
    // Every one of the 16 trials flips a cell, so the number of flipped
    // cells has the parity of 16.
    for seed in 0..20u64 {
        let mut sim = Simulation::new(4, 4, schedule(), seed).unwrap();
        sim.tick(&Acceptance::certain());
        let mut flipped = 0;
        for i in 0..4 {
            for j in 0..4 {
                if sim.spin_at(i, j) == -1 {
                    flipped += 1;
                }
            }
        }
        assert_eq!(flipped % 2, 0);
    }
}
