use rand::SeedableRng;
use rand::rngs::SmallRng;
use saru::Annealer;
use saru::AnnealingOptions;
use saru::anneal_from;
use saru::annealing;
use saru::derive_seeds;
use saru::do_annealing;
use saru::problems::BitSquare;

fn opt(threads: usize) -> AnnealingOptions {
    AnnealingOptions { steps: 300, limit_temp: 2, restart: 3, threads, silent: true }
}

#[test]
fn single_run_never_worse_than_its_start() {
    let p = BitSquare { target: 0x2E };
    let mut rng = SmallRng::seed_from_u64(11);
    let init: u64 = 0xFFFF;
    let init_score = p.eval(&init);
    let report = anneal_from(&p, &opt(1), init, &mut rng);
    assert!(report.best_score <= init_score);
    assert_eq!(report.best_score, p.eval(&report.best_state));
}

#[test]
fn reheats_stay_below_the_restart_budget() {
    let p = BitSquare { target: 0x7777 };
    let mut rng = SmallRng::seed_from_u64(5);
    let report = anneal_from(&p, &opt(1), 0u64, &mut rng);
    assert!(report.reheats < 3);
}

#[test]
fn apply_then_unapply_restores_state_and_score() {
    let p = BitSquare { target: 123 };
    let mut s: u64 = 0x00F0;
    let before = p.eval(&s);
    let m: u64 = 1 << 3;
    p.apply(&mut s, &m);
    assert_ne!(s, 0x00F0);
    p.unapply(&mut s, &m);
    assert_eq!(s, 0x00F0);
    assert_eq!(p.eval(&s), before);
}

#[test]
fn same_seed_gives_identical_results_single_thread() {
    let p = BitSquare { target: 0x0123 };
    let a = annealing(&p, &opt(1), 99);
    let b = annealing(&p, &opt(1), 99);
    assert_eq!(a.0, b.0);
    assert_eq!(a.1, b.1);
}

#[test]
fn parallel_result_is_the_best_of_the_derived_runs() {
    let p = BitSquare { target: 0x4D2 };
    let par = annealing(&p, &opt(4), 2024);
    let seeds = derive_seeds(2024, 4);
    assert_eq!(seeds.len(), 4);
    let mut best = i64::MAX;
    for s in seeds {
        let r = do_annealing(&p, &opt(1), s);
        if r.0 < best {
            best = r.0;
        }
    }
    assert!(par.0 <= best);
    assert_eq!(par.0, best);
}

#[test]
fn eval_is_the_squared_distance_of_the_low_bits() {
    let p = BitSquare { target: 5 };
    assert_eq!(p.eval(&9u64), 16);
    assert_eq!(p.eval(&5u64), 0);
    assert_eq!(p.eval(&0x1_0005u64), 0);
}

#[test]
fn long_run_reaches_the_target_register() {
    let p = BitSquare { target: 0x5A5A };
    let o = AnnealingOptions { steps: 4000, limit_temp: 1, restart: 3, threads: 1, silent: true };
    let r = annealing(&p, &o, 7);
    assert_eq!(r.0, 0);
    assert_eq!(r.1 & 0xFFFF, 0x5A5A);
}
