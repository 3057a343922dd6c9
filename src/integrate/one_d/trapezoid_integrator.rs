pub use super::integrator::{Integrator, Scalar};
pub use std::marker::PhantomData;
use vstd::prelude::*;

verus! {

/// `start + vals[1] + ... + vals[end - 1]`, added in increasing index order.
pub open spec fn running_sum<S: Scalar>(start: S, vals: Seq<S>, end: int) -> S
    decreases end,
{
    if end <= 1 {
        start
    } else {
        running_sum(start, vals, end - 1).add_spec(vals[end - 1])
    }
}

/// The composite trapezoidal rule over samples `dx` apart, with the two end
/// samples weighted by one half:
/// `(vals[0]*½ + vals[1] + ... + vals[n-2] + vals[n-1]*½) * dx`; zero for no samples.
pub open spec fn uniform_trapezoid<S: Scalar>(vals: Seq<S>, dx: S) -> S {
    if vals.len() == 0 {
        S::zero_spec()
    } else {
        let n = vals.len() as int;
        let head = vals[0].mul_spec(S::half_spec());
        running_sum(head, vals, n - 1).add_spec(vals[n - 1].mul_spec(S::half_spec())).mul_spec(dx)
    }
}

/// `0 + Σ_{i=1}^{end-1} (vals[i] + vals[i-1]) * (times[i] - times[i-1])`, added
/// in increasing index order.
pub open spec fn paired_sum<S: Scalar>(times: Seq<S>, vals: Seq<S>, end: int) -> S
    decreases end,
{
    if end <= 1 {
        S::zero_spec()
    } else {
        paired_sum(times, vals, end - 1).add_spec(
            vals[end - 1].add_spec(vals[end - 2]).mul_spec(times[end - 1].sub_spec(times[end - 2])),
        )
    }
}

/// The trapezoidal rule over samples `vals` taken at `times`, using as many
/// pairs as the shorter sequence has: the paired sum times one half, or zero
/// when either sequence is empty.
pub open spec fn paired_trapezoid<S: Scalar>(times: Seq<S>, vals: Seq<S>) -> S {
    let n = if times.len() < vals.len() {
        times.len() as int
    } else {
        vals.len() as int
    };
    if n == 0 {
        S::zero_spec()
    } else {
        paired_sum(times, vals, n).mul_spec(S::half_spec())
    }
}

/// The width of each of the `steps` sub-intervals of `[a, b]`: `(b - a) / steps`.
pub open spec fn step_width<S: Scalar>(a: S, b: S, steps: u64) -> S {
    b.sub_spec(a).div_spec(S::from_u64_spec(steps))
}

/// The abscissa of sample `i` of `[a, b]` cut into `steps` sub-intervals: `a`
/// first, `b` last, and `a + width * i` between.
pub open spec fn sample_point<S: Scalar>(a: S, b: S, steps: u64, i: int) -> S {
    if i == 0 {
        a
    } else if i == steps {
        b
    } else {
        a.add_spec(step_width(a, b, steps).mul_spec(S::from_u64_spec(i as u64)))
    }
}

/// Whether `ys` holds, for each of the `steps + 1` sample points of `[a, b]`, a
/// value that `f` returns there.
pub open spec fn is_uniform_sampling<S: Scalar, F: Fn(S) -> S>(
    f: F,
    a: S,
    b: S,
    steps: u64,
    ys: Seq<S>,
) -> bool {
    &&& ys.len() == steps + 1
    &&& forall|i: int| 0 <= i <= steps ==> f.ensures((sample_point(a, b, steps, i),), #[trigger] ys[i])
}

/// Whether `ys` holds, for each time of `times`, a value that `f` returns there.
pub open spec fn is_sampling_at<S: Scalar, F: Fn(S) -> S>(f: F, times: Seq<S>, ys: Seq<S>) -> bool {
    &&& ys.len() == times.len()
    &&& forall|i: int| 0 <= i < times.len() ==> f.ensures((times[i],), #[trigger] ys[i])
}

/// What integrating `f` over `[a, b]` with `steps` sub-intervals gives: zero for
/// no steps, else the trapezoidal rule over the values of `f` at the sample points.
pub open spec fn is_func_integral<S: Scalar, F: Fn(S) -> S>(
    f: F,
    a: S,
    b: S,
    steps: u64,
    r: S,
) -> bool {
    if steps == 0 {
        r == S::zero_spec()
    } else {
        exists|ys: Seq<S>|
            #[trigger] is_uniform_sampling(f, a, b, steps, ys) && r == uniform_trapezoid(
                ys,
                step_width(a, b, steps),
            )
    }
}

/// What integrating `f` over the sample times `times` gives.
pub open spec fn is_func_time_series_integral<S: Scalar, F: Fn(S) -> S>(
    f: F,
    times: Seq<S>,
    r: S,
) -> bool {
    exists|ys: Seq<S>| #[trigger] is_sampling_at(f, times, ys) && r == paired_trapezoid(times, ys)
}

proof fn lemma_running_sum_prefix<S: Scalar>(start: S, s: Seq<S>, t: Seq<S>, end: int)
    requires
        end <= s.len(),
        end <= t.len(),
        forall|k: int| 0 <= k < end ==> s[k] == t[k],
    ensures
        running_sum(start, s, end) == running_sum(start, t, end),
    decreases end,
{
    if end > 1 {
        lemma_running_sum_prefix(start, s, t, end - 1);
    }
}

proof fn lemma_paired_sum_prefix<S: Scalar>(times: Seq<S>, s: Seq<S>, t: Seq<S>, end: int)
    requires
        end <= s.len(),
        end <= t.len(),
        forall|k: int| 0 <= k < end ==> s[k] == t[k],
    ensures
        paired_sum(times, s, end) == paired_sum(times, t, end),
    decreases end,
{
    if end > 1 {
        lemma_paired_sum_prefix(times, s, t, end - 1);
    }
}

/// Integrating a function and integrating its samples agree: where `vals` are
/// the values that `f` returns at the `steps + 1` uniform sample points of
/// `[a, b]`, the integral of `f` equals the integral of `vals` spaced by the
/// step width, for any positive number of steps.
pub proof fn lemma_func_matches_data<S: Scalar, F: Fn(S) -> S>(
    f: F,
    a: S,
    b: S,
    steps: u64,
    vals: Seq<S>,
    r: S,
)
    requires
        steps > 0,
        vals.len() == steps + 1,
        forall|i: int, y: S|
            0 <= i <= steps && #[trigger] f.ensures((sample_point(a, b, steps, i),), y) ==> y
                == vals[i],
        is_func_integral(f, a, b, steps, r),
    ensures
        r == uniform_trapezoid(vals, step_width(a, b, steps)),
{
    let ys = choose|ys: Seq<S>|
        #[trigger] is_uniform_sampling(f, a, b, steps, ys) && r == uniform_trapezoid(
            ys,
            step_width(a, b, steps),
        );
    assert forall|i: int| 0 <= i < ys.len() implies ys[i] == vals[i] by {
        assert(f.ensures((sample_point(a, b, steps, i),), ys[i]));
    }
    assert(ys =~= vals);
}

/// The composite trapezoidal rule. It holds no state; the scalar type is
/// carried at compile time only.
pub struct TrapezoidIntegrator<S> {
    _s: PhantomData<S>,
}

impl<S: Scalar> TrapezoidIntegrator<S> {
    pub fn new() -> Self {
        TrapezoidIntegrator { _s: PhantomData }
    }
}

impl<S: Scalar> Integrator<S> for TrapezoidIntegrator<S> {
    /// Adds the end values once, each weighted by one half, and the inner
    /// values whole, then multiplies by the step width.
    fn integrate_func<F: Fn(S) -> S>(f: F, a: S, b: S, steps: u64) -> (r: S)
        ensures
            is_func_integral(f, a, b, steps, r),
    {
        if steps == 0 {
            S::zero()
        } else {
            let fa = f(a);
            let ghost mut ys: Seq<S> = seq![fa];
            let ghost head = fa.mul_spec(S::half_spec());
            let mut digest: S = fa.mul(S::half());
            let dx: S = b.sub(a).div(S::from_u64(steps));
            let mut i: u64 = 1;
            while i < steps
                invariant
                    1 <= i <= steps,
                    forall|x: S| #[trigger] f.requires((x,)),
                    dx == step_width(a, b, steps),
                    ys.len() == i,
                    ys[0] == fa,
                    head == fa.mul_spec(S::half_spec()),
                    forall|k: int| 0 <= k < i ==> f.ensures((sample_point(a, b, steps, k),), #[trigger] ys[k]),
                    digest == running_sum(head, ys, i as int),
                decreases steps - i,
            {
                let t = a.add(dx.mul(S::from_u64(i)));
                let y = f(t);
                proof {
                    let old_ys = ys;
                    ys = ys.push(y);
                    lemma_running_sum_prefix(head, old_ys, ys, i as int);
                }
                digest = digest.add(y);
                i = i + 1;
            }
            let fb = f(b);
            proof {
                let old_ys = ys;
                ys = ys.push(fb);
                lemma_running_sum_prefix(head, old_ys, ys, steps as int);
                assert(is_uniform_sampling(f, a, b, steps, ys));
            }
            digest = digest.add(fb.mul(S::half()));
            digest.mul(dx)
        }
    }

    /// Adds `(f(t[i]) + f(t[i-1])) * (t[i] - t[i-1])` over consecutive times,
    /// then halves the sum. The times are not checked to be ordered.
    fn integrate_func_time_series<F: Fn(S) -> S>(f: F, times: Vec<S>) -> (r: S)
        ensures
            is_func_time_series_integral(f, times@, r),
    {
        if times.len() == 0 {
            proof {
                assert(is_sampling_at(f, times@, Seq::<S>::empty()));
            }
            S::zero()
        } else {
            let mut digest = S::zero();
            let length = times.len();
            let mut past_x: S = times[0];
            let mut past_val: S = f(past_x);
            let ghost mut ys: Seq<S> = seq![past_val];
            let mut i: usize = 1;
            while i < length
                invariant
                    1 <= i <= length,
                    length == times.len(),
                    forall|x: S| #[trigger] f.requires((x,)),
                    ys.len() == i,
                    past_x == times[i - 1],
                    past_val == ys[i - 1],
                    forall|k: int| 0 <= k < i ==> f.ensures((times[k],), #[trigger] ys[k]),
                    digest == paired_sum(times@, ys, i as int),
                decreases length - i,
            {
                let curr_val = f(times[i]);
                proof {
                    let old_ys = ys;
                    ys = ys.push(curr_val);
                    lemma_paired_sum_prefix(times@, old_ys, ys, i as int);
                }
                digest = digest.add(curr_val.add(past_val).mul(times[i].sub(past_x)));
                past_val = curr_val;
                past_x = times[i];
                i = i + 1;
            }
            proof {
                assert(is_sampling_at(f, times@, ys));
            }
            digest.mul(S::half())
        }
    }

    /// Adds the first and last samples once, each weighted by one half, and the
    /// inner samples whole, then multiplies by `dx`.
    fn integrate_data(vals: Vec<S>, dx: S) -> (r: S)
        ensures
            r == uniform_trapezoid(vals@, dx),
    {
        if vals.len() == 0 {
            S::zero()
        } else {
            let ghost head = vals[0].mul_spec(S::half_spec());
            let mut digest: S = vals[0].mul(S::half());
            let length = vals.len() - 1;
            let mut i: usize = 1;
            while i < length
                invariant
                    1 <= i,
                    i <= length || i == 1,
                    length == vals.len() - 1,
                    head == vals[0].mul_spec(S::half_spec()),
                    digest == running_sum(head, vals@, i as int),
                decreases length - i,
            {
                digest = digest.add(vals[i]);
                i = i + 1;
            }
            digest = digest.add(vals[vals.len() - 1].mul(S::half()));
            digest.mul(dx)
        }
    }

    /// Adds `(v[i] + v[i-1]) * (t[i] - t[i-1])` over consecutive pairs, then
    /// halves the sum. Where the two sequences differ in length, the tail of
    /// the longer one is ignored.
    fn integrate_data_time_series(times: Vec<S>, vals: Vec<S>) -> (r: S)
        ensures
            r == paired_trapezoid(times@, vals@),
    {
        if times.len() == 0 || vals.len() == 0 {
            S::zero()
        } else {
            let mut digest = S::zero();
            let length = if times.len() < vals.len() {
                times.len()
            } else {
                vals.len()
            };
            let mut past_x: S = times[0];
            let mut past_val: S = vals[0];
            let mut i: usize = 1;
            while i < length
                invariant
                    1 <= i <= length,
                    length <= times.len(),
                    length <= vals.len(),
                    length == times.len() || length == vals.len(),
                    past_x == times[i - 1],
                    past_val == vals[i - 1],
                    digest == paired_sum(times@, vals@, i as int),
                decreases length - i,
            {
                let curr_val = vals[i];
                digest = digest.add(curr_val.add(past_val).mul(times[i].sub(past_x)));
                past_val = curr_val;
                past_x = times[i];
                i = i + 1;
            }
            digest.mul(S::half())
        }
    }
}

} // verus!
