use vstd::prelude::*;
use crate::annealer::Annealer;
use crate::annealer::SCORE_LIMIT;
use crate::annealer::TEMP_LIMIT;
use crate::AnnealingOptions;

verus! {

/// What a completed single run reports: the best score found, the
/// state snapshot achieving it, and how many reheats the run spent.
pub struct RunReport<S> {
    pub best_score: i64,
    pub best_state: S,
    pub reheats: usize,
}

/// One full anneal starting from a given state: repeated cooling passes
/// with Metropolis acceptance, reheating the temperature (but not the
/// state) until the restart budget is exhausted or the problem reports
/// completion.
///
/// The returned score is the objective value of the returned state, and
/// it never exceeds the objective value of the starting state: the
/// search cannot end worse than where it began. The number of reheats
/// stays strictly below the restart budget.
pub fn anneal_from<A: Annealer>(
    annealer: &A,
    opt: &AnnealingOptions,
    init: A::State,
    rng: &mut rand::rngs::SmallRng,
) -> (r: RunReport<A::State>)
    requires
        opt.wf(),
    ensures
        r.best_score == annealer.spec_eval(r.best_state),
        r.best_score <= annealer.spec_eval(init),
        r.reheats < opt.restart,
{
    let mut state = init;
    let mut cur_score = annealer.eval(&state);
    let mut best_score = cur_score;
    let mut best_state = annealer.clone_state(&state);

    let t_max = annealer.start_temp(cur_score);
    let t_min = opt.limit_temp;
    let decay = crate::schedule::decay_factor(t_max, t_min, opt.steps);

    let mut reheats: usize = 0;
    let mut temp = t_max;
    loop
        invariant_except_break
            reheats < opt.restart,
        invariant
            opt.wf(),
            cur_score == annealer.spec_eval(state),
            best_score == annealer.spec_eval(best_state),
            best_score <= annealer.spec_eval(init),
            best_score <= cur_score,
            -SCORE_LIMIT <= cur_score <= SCORE_LIMIT,
            -SCORE_LIMIT <= best_score <= SCORE_LIMIT,
            1 <= t_max <= TEMP_LIMIT,
            t_min == opt.limit_temp,
            1 <= crate::schedule::FP_ONE <= 0x1_0000_0000,
            1 <= decay < crate::schedule::FP_ONE,
            0 <= temp <= t_max,
        ensures
            reheats < opt.restart,
            cur_score == annealer.spec_eval(state),
            best_score == annealer.spec_eval(best_state),
            best_score <= annealer.spec_eval(init),
        decreases opt.restart - reheats, temp,
    {
        if temp < t_min {
            if reheats + 1 >= opt.restart {
                break;
            }
            reheats = reheats + 1;
            temp = t_max;
        }

        let ghost pre_move = state;
        let mov = annealer.neighbour(&state, rng);
        let new_score = annealer.apply_and_eval(&mut state, &mov, cur_score);

        if crate::metropolis::accept(rng, cur_score, new_score, temp) {
            cur_score = new_score;
            if cur_score < best_score {
                best_score = cur_score;
                best_state = annealer.clone_state(&state);
            }
            if annealer.is_done(cur_score) {
                break;
            }
        } else {
            annealer.unapply(&mut state, &mov);
            proof {
                annealer.unapply_inverts_apply(pre_move, mov);
            }
        }

        temp = crate::schedule::cool(temp, decay);
    }

    RunReport { best_score, best_state, reheats }
}

/// One independent run: seeds a private random stream, draws the
/// initial state, and anneals from it. The returned score is the
/// objective value of the returned state.
pub fn do_annealing<A: Annealer>(
    annealer: &A,
    opt: &AnnealingOptions,
    seed: u64,
) -> (r: (i64, A::State))
    requires
        opt.wf(),
    ensures
        r.0 == annealer.spec_eval(r.1),
{
    let mut rng = crate::rng::small_rng_from_seed(seed);
    let init = annealer.init_state(&mut rng);
    let report = anneal_from(annealer, opt, init, &mut rng);
    (report.best_score, report.best_state)
}

} // verus!
