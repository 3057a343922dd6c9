pub use crate::math::scalar::Scalar;
use vstd::prelude::*;

verus! {

/// A quadrature strategy: four ways of estimating a definite integral, from a
/// function or from samples. None of them fails: an empty input or a step
/// count of zero gives zero.
pub trait Integrator<S: Scalar> {
    /// Integrates `f` over `[a, b]` with `steps` sub-intervals.
    fn integrate_func<F: Fn(S) -> S>(f: F, a: S, b: S, steps: u64) -> (r: S)
        requires
            forall|x: S| #[trigger] f.requires((x,)),
        ensures
            steps == 0 ==> r == S::zero_spec(),
    ;

    /// Integrates `f` over the ordered sample times `times`.
    fn integrate_func_time_series<F: Fn(S) -> S>(f: F, times: Vec<S>) -> (r: S)
        requires
            forall|x: S| #[trigger] f.requires((x,)),
        ensures
            times.len() == 0 ==> r == S::zero_spec(),
    ;

    /// Integrates samples `vals` that lie `dx` apart.
    fn integrate_data(vals: Vec<S>, dx: S) -> (r: S)
        ensures
            vals.len() == 0 ==> r == S::zero_spec(),
    ;

    /// Integrates the samples `vals` taken at the ordered times `times`.
    fn integrate_data_time_series(times: Vec<S>, vals: Vec<S>) -> (r: S)
        ensures
            times.len() == 0 || vals.len() == 0 ==> r == S::zero_spec(),
    ;
}

} // verus!
