use vstd::prelude::*;

verus! {

/// Largest magnitude an objective value may take. Implementations of
/// [`Annealer::eval`] promise to stay within it, so score differences
/// never overflow an `i64` and fixed-point products fit in a `u128`.
pub const SCORE_LIMIT: i64 = 0x4_0000_0000_0000;

/// Largest temperature a problem may report from
/// [`Annealer::start_temp`].
pub const TEMP_LIMIT: i64 = 0x4_0000_0000_0000;

/// The capability contract a problem must satisfy to be searched.
///
/// A problem describes candidate solutions (`State`), local reversible
/// perturbations (`Move`), and an objective to minimise (`eval`). The
/// three spec functions give the engine a mathematical model of the
/// problem: `eval` is a pure function of the state, `apply` and
/// `unapply` are deterministic state transformers, and
/// [`Annealer::unapply_inverts_apply`] obliges every verified
/// implementation to prove that `unapply` exactly reverses the most
/// recent `apply` of the same move. The engine's guarantees rest on
/// these obligations; an unverified implementation that breaks them
/// silently corrupts its own search, as the contract warns.
pub trait Annealer: Sized {
    type State;
    type Move;

    /// The objective value of a state, in the caller's fixed-point units.
    spec fn spec_eval(&self, s: Self::State) -> int;

    /// The state produced by applying `m` to `s`.
    spec fn spec_apply(&self, s: Self::State, m: Self::Move) -> Self::State;

    /// The state produced by undoing `m` on `s`.
    spec fn spec_unapply(&self, s: Self::State, m: Self::Move) -> Self::State;

    /// Undoing a move right after applying it restores the state.
    proof fn unapply_inverts_apply(&self, s: Self::State, m: Self::Move)
        ensures
            self.spec_unapply(self.spec_apply(s, m), m) == s,
    ;

    /// Builds the initial candidate; may consume randomness.
    fn init_state(&self, rng: &mut rand::rngs::SmallRng) -> Self::State;

    /// The starting temperature, computed from the initial objective
    /// value. It must exceed the configured terminal temperature for the
    /// cooling rate to be meaningful; the engine survives a violation
    /// but the schedule then degenerates.
    fn start_temp(&self, init_score: i64) -> (t: i64)
        ensures
            1 <= t <= TEMP_LIMIT,
    ;

    /// Early-termination predicate checked after every accepted move.
    fn is_done(&self, _score: i64) -> bool {
        false
    }

    /// The objective function; a deterministic, pure function of the
    /// state, bounded so that score differences fit the engine's
    /// arithmetic.
    fn eval(&self, state: &Self::State) -> (r: i64)
        ensures
            r == self.spec_eval(*state),
            -SCORE_LIMIT <= r <= SCORE_LIMIT,
    ;

    /// Proposes a perturbation; may consume randomness but leaves the
    /// state untouched.
    fn neighbour(&self, state: &Self::State, rng: &mut rand::rngs::SmallRng) -> Self::Move;

    /// Mutates the state in place according to the move.
    fn apply(&self, state: &mut Self::State, mov: &Self::Move)
        ensures
            *final(state) == self.spec_apply(*old(state), *mov),
    ;

    /// Mutates the state in place to exactly reverse the most recent
    /// `apply` of the same move.
    fn unapply(&self, state: &mut Self::State, mov: &Self::Move)
        ensures
            *final(state) == self.spec_unapply(*old(state), *mov),
    ;

    /// An independent duplicate of the state, so a best-so-far snapshot
    /// is decoupled from further in-place mutation.
    fn clone_state(&self, state: &Self::State) -> (r: Self::State)
        ensures
            r == *state,
    ;

    /// Applies the move and returns the new objective value. The default
    /// evaluates from scratch; an implementation may override it with an
    /// incremental computation, provided the returned score equals what
    /// full re-evaluation would produce.
    fn apply_and_eval(&self, state: &mut Self::State, mov: &Self::Move, _prev_score: i64) -> (r: i64)
        ensures
            *final(state) == self.spec_apply(*old(state), *mov),
            r == self.spec_eval(*final(state)),
            -SCORE_LIMIT <= r <= SCORE_LIMIT,
    {
        self.apply(state, mov);
        self.eval(state)
    }
}

/// Invertibility law: evaluating immediately after applying a move and
/// then undoing it yields the same score as evaluating the state
/// before the move.
pub proof fn lemma_apply_unapply_preserves_eval<A: Annealer>(a: &A, s: A::State, m: A::Move)
    ensures
        a.spec_eval(a.spec_unapply(a.spec_apply(s, m), m)) == a.spec_eval(s),
{
    a.unapply_inverts_apply(s, m);
}

} // verus!
