use saru::Annealer;
use saru::AnnealingOptions;
use saru::annealing;
use saru::derive_seeds;
use saru::do_annealing;
use saru::problems::Quadratic;

#[test]
fn quadratic_descends_close_to_zero() {
    // steps = 1000, terminal temperature a thousandth of a unit,
    // one pass, one worker, a fixed seed: the best position must come
    // within a hundredth of the optimum.
    let p = Quadratic { step: 5_000 };
    let o = AnnealingOptions { steps: 1000, limit_temp: 1_000, restart: 1, threads: 1, silent: true };
    let (score, x) = annealing(&p, &o, 12345);
    assert!(score < 10_000, "score = {}, x = {}", score, x);
    let xf = (x as f64) / 1_000_000.0;
    assert!(xf * xf < 0.01 + 1e-9);
}

#[test]
fn quadratic_eval_is_exact() {
    let p = Quadratic { step: 1 };
    assert_eq!(p.eval(&2_000_000i64), 4_000_000);
    assert_eq!(p.eval(&-500_000i64), 250_000);
    assert_eq!(p.eval(&0i64), 0);
}

#[test]
fn quadratic_moves_are_invertible() {
    let p = Quadratic { step: 5_000 };
    let mut s: i64 = 123_456;
    let before = p.eval(&s);
    let m: i64 = -5_000;
    p.apply(&mut s, &m);
    p.unapply(&mut s, &m);
    assert_eq!(s, 123_456);
    assert_eq!(p.eval(&s), before);
}

#[test]
fn quadratic_parallel_is_not_worse_than_any_derived_run() {
    let p = Quadratic { step: 5_000 };
    let o4 = AnnealingOptions { steps: 1000, limit_temp: 1_000, restart: 1, threads: 4, silent: true };
    let o1 = AnnealingOptions { steps: 1000, limit_temp: 1_000, restart: 1, threads: 1, silent: true };
    let par = annealing(&p, &o4, 777);
    let seeds = derive_seeds(777, 4);
    let mut best = i64::MAX;
    for s in seeds {
        let r = do_annealing(&p, &o1, s);
        if r.0 < best {
            best = r.0;
        }
    }
    assert!(par.0 <= best);
}
