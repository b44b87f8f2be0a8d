use rand::SeedableRng;
use rand::rngs::SmallRng;
use saru::AnnealingOptions;
use saru::derive_seeds;
use saru::metropolis::accept;
use saru::schedule::FP_ONE;
use saru::schedule::cool;
use saru::schedule::decay_factor;
use saru::select_best;

#[test]
fn it_works() {
    assert_eq!(2 + 2, 4);
}

#[test]
fn options_carry_their_fields() {
    let o = AnnealingOptions { steps: 10, limit_temp: 3, restart: 2, threads: 4, silent: false };
    let c = o.clone();
    assert_eq!(c.steps, 10);
    assert_eq!(c.limit_temp, 3);
    assert_eq!(c.restart, 2);
    assert_eq!(c.threads, 4);
    assert!(!c.silent);
}

#[test]
fn decay_factor_single_step_is_the_ratio() {
    // With one step the factor is exactly t_min / t_max in Q32: here one half.
    let d = decay_factor(2, 1, 1);
    assert_eq!(d, 1u64 << 31);
}

#[test]
fn decay_factor_stays_inside_the_open_unit_interval() {
    let d = decay_factor(1_000_000, 10, 500);
    assert!(1 <= d && d < FP_ONE);
    let e = decay_factor(5, 5, 3);
    assert!(1 <= e && e < FP_ONE);
}

#[test]
fn cool_halves_with_a_half_factor() {
    assert_eq!(cool(100, 1u64 << 31), 50);
    assert_eq!(cool(7, 1u64 << 31), 3);
}

#[test]
fn cooling_is_strictly_decreasing() {
    let d = decay_factor(1_000_000, 10, 100);
    let mut t: i64 = 1_000_000;
    while t >= 10 {
        let n = cool(t, d);
        assert!(n < t);
        t = n;
    }
}

#[test]
fn accept_always_takes_non_worsening_moves() {
    let mut rng = SmallRng::seed_from_u64(7);
    let mut i: i64 = 0;
    while i < 50 {
        assert!(accept(&mut rng, 100, 100 - i, 5));
        i += 1;
    }
}

#[test]
fn accept_rejects_a_huge_worsening_when_cold() {
    let mut rng = SmallRng::seed_from_u64(7);
    for _ in 0..200 {
        assert!(!accept(&mut rng, 0, 1_000_000, 1));
    }
}

#[test]
fn select_best_picks_the_minimum_score() {
    let results = vec![(5i64, 'a'), (3, 'b'), (9, 'c'), (4, 'd')];
    assert_eq!(select_best(results), (3, 'b'));
}

#[test]
fn select_best_keeps_the_earliest_of_equal_minima() {
    let results = vec![(4i64, 'a'), (3, 'b'), (3, 'c'), (7, 'd')];
    assert_eq!(select_best(results), (3, 'b'));
}

#[test]
fn select_best_of_one_returns_it() {
    let results = vec![(42i64, 'z')];
    assert_eq!(select_best(results), (42, 'z'));
}

#[test]
fn derive_seeds_is_deterministic_and_sized() {
    let a = derive_seeds(42, 8);
    let b = derive_seeds(42, 8);
    assert_eq!(a.len(), 8);
    assert_eq!(a, b);
    let c = derive_seeds(43, 8);
    assert_ne!(a, c);
}
