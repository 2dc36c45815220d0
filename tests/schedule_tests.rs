use ising::schedule::{Direction, Schedule, BETA_CRITICAL, BETA_END, BETA_SCALE, BETA_START, N_STEPS};

#[test]
fn schedule_rejects_bad_bounds() {
    assert!(Schedule::new(0, 10, 2).is_none());
    assert!(Schedule::new(10, 10, 1).is_none());
    assert!(Schedule::new(20, 10, 1).is_none());
    assert!(Schedule::new(10, 20, 0).is_none());
    assert!(Schedule::new(10, 20, 11).is_none());
    assert!(Schedule::new(10, 20, 10).is_some());
}

#[test]
fn schedule_triangle_wave() {
    let mut s = Schedule::new(10, 20, 5).unwrap();
    assert_eq!(s.beta(), 10);
    assert_eq!(s.direction(), Direction::RampingUp);
    let mut seen = Vec::new();
    for _ in 0..14 {
        s.advance();
        seen.push(s.beta());
    }
    assert_eq!(seen, vec![12, 14, 16, 18, 20, 22, 20, 18, 16, 14, 12, 10, 8, 10]);
    assert_eq!(s.direction(), Direction::RampingUp);
}

#[test]
fn schedule_uneven_step_stays_bounded() {
    let mut s = Schedule::new(7, 30, 4).unwrap();
    // step is (30 - 7) / 4 = 5
    s.advance();
    assert_eq!(s.beta(), 12);
    for _ in 0..1000 {
        s.advance();
        assert!(s.beta() >= 7 - 5 && s.beta() <= 30 + 5);
    }
}

#[test]
fn default_schedule_stays_within_one_step_of_bounds() {
    let mut s = Schedule::new(BETA_START, BETA_END, N_STEPS).unwrap();
    let step = ((BETA_END - BETA_START) / N_STEPS) as i128;
    let mut turned_down = false;
    for _ in 0..1000 {
        s.advance();
        let b = s.beta();
        assert!(b >= BETA_START as i128 - step);
        assert!(b <= BETA_END as i128 + step);
        if s.direction() == Direction::RampingDown {
            turned_down = true;
        }
    }
    assert!(turned_down);
    assert_eq!(BETA_END, BETA_CRITICAL);
    let critical = BETA_CRITICAL as f64 / BETA_SCALE as f64;
    assert!((critical - 0.440686793509772).abs() < 1e-9);
}

#[test]
fn schedule_accepts_large_bounds() {
    // beta from 10 to 100, in units of 1 / BETA_SCALE
    let start = 10 * BETA_SCALE;
    let end = 100 * BETA_SCALE;
    let mut s = Schedule::new(start, end, 90).unwrap();
    s.advance();
    assert_eq!(s.beta(), (11 * BETA_SCALE) as i128);
    let mut t = Schedule::new(1, u64::MAX, 1).unwrap();
    t.advance();
    assert_eq!(t.beta(), u64::MAX as i128);
    t.advance();
    assert_eq!(t.beta(), u64::MAX as i128 + (u64::MAX - 1) as i128);
    assert_eq!(t.direction(), Direction::RampingUp);
    t.advance();
    assert_eq!(t.beta(), u64::MAX as i128);
    assert_eq!(t.direction(), Direction::RampingDown);
}
