//! Gradient descent on the linear model: forward finite-difference
//! derivatives and the update `w <- w - learning_rate * derivative`.
use vstd::prelude::*;
use crate::cost::{compute_cost, cost_of, row_cost_bound};
use crate::dataset::{Dataset, FitError, valid_rows};
use crate::fixed::{SCALE, div_toward_zero, fixed_div, fixed_mul};

verus! {

/// Largest weight magnitude (in fixed-point units) that training keeps.
pub const MAX_PARAM: i64 = 1_000_000_000_000;

/// Largest finite-difference step (in fixed-point units).
pub const MAX_EPS: i64 = 1_000_000_000_000;

pub open spec fn param_in_range(w: int) -> bool {
    -MAX_PARAM <= w <= MAX_PARAM
}

/// The constants of one training configuration. `eps` and
/// `learning_rate` are fixed-point values.
#[derive(PartialEq, Eq, Structural, Debug, Clone, Copy)]
pub struct Hyper {
    pub eps: i64,
    pub learning_rate: i64,
    pub iterations: u64,
    pub report_every: u64,
}

impl Hyper {
    pub open spec fn wf(&self) -> bool {
        0 < self.eps <= MAX_EPS && self.report_every > 0
    }
}

/// Forward finite-difference estimate of the cost's derivative at `w`:
/// `(cost(w + eps) - cost(w)) / eps`.
pub open spec fn derivative_of(rows: Seq<(u32, u32)>, w: int, eps: int) -> int {
    fixed_div(cost_of(rows, w + eps) - cost_of(rows, w), eps)
}

/// The update rule: `w - learning_rate * derivative`.
pub open spec fn updated(w: int, derivative: int, learning_rate: int) -> int {
    w - fixed_mul(learning_rate, derivative)
}

/// The weight after one descent step from `w`.
pub open spec fn next_weight(rows: Seq<(u32, u32)>, w: int, eps: int, learning_rate: int) -> int {
    updated(w, derivative_of(rows, w, eps), learning_rate)
}

/// The weight after `k` steps from `w`, or `None` once a step leaves the
/// range of trainable weights.
pub open spec fn run(rows: Seq<(u32, u32)>, w: int, eps: int, learning_rate: int, k: nat) -> Option<
    int,
>
    decreases k,
{
    if k == 0 {
        Some(w)
    } else {
        match run(rows, w, eps, learning_rate, (k - 1) as nat) {
            Some(v) => {
                let n = next_weight(rows, v, eps, learning_rate);
                if param_in_range(n) {
                    Some(n)
                } else {
                    None
                }
            },
            None => None,
        }
    }
}

proof fn lemma_run_stays_failed(
    rows: Seq<(u32, u32)>,
    w: int,
    eps: int,
    learning_rate: int,
    i: nat,
    k: nat,
)
    requires
        i <= k,
        run(rows, w, eps, learning_rate, i) is None,
    ensures
        run(rows, w, eps, learning_rate, k) is None,
    decreases k - i,
{
    if i < k {
        lemma_run_stays_failed(rows, w, eps, learning_rate, i, (k - 1) as nat);
    }
}

/// What one descent step computed.
#[derive(PartialEq, Eq, Structural, Debug, Clone, Copy)]
pub struct StepReport {
    pub cost: i128,
    pub derivative: i128,
    pub weight_before: i64,
    pub weight_after: i64,
}

/// The finite-difference quotient of two costs taken `eps` apart.
pub fn derivative_from_costs(cost_before: i128, cost_after: i128, eps: i64) -> (r: i128)
    requires
        0 <= cost_before <= row_cost_bound(),
        0 <= cost_after <= row_cost_bound(),
        0 < eps,
    ensures
        r == fixed_div(cost_after - cost_before, eps as int),
{
    let diff = cost_after - cost_before;
    proof {
        let b = row_cost_bound();
        assert(-b * 1_000_000 <= diff * 1_000_000 <= b * 1_000_000) by (nonlinear_arith)
            requires
                -b <= diff <= b,
        ;
    }
    div_toward_zero(diff * (SCALE as i128), eps as i128)
}

/// `cost(w + eps) - cost(w)`: the numerator of the derivative estimate.
pub fn cost_difference(data: &Dataset, w: i64, eps: i64) -> (r: i128)
    requires
        data.wf(),
        param_in_range(w as int),
        0 < eps <= MAX_EPS,
    ensures
        r == cost_of(data@, w + eps) - cost_of(data@, w as int),
{
    let after = compute_cost(data, w + eps);
    let before = compute_cost(data, w);
    after - before
}

/// Forward finite-difference estimate of the derivative of the cost at `w`.
pub fn derivative(data: &Dataset, w: i64, eps: i64) -> (r: i128)
    requires
        data.wf(),
        param_in_range(w as int),
        0 < eps <= MAX_EPS,
    ensures
        r == derivative_of(data@, w as int, eps as int),
{
    let after = compute_cost(data, w + eps);
    let before = compute_cost(data, w);
    derivative_from_costs(before, after, eps)
}

/// Moves `w` against the derivative: `w - learning_rate * derivative`.
/// Fails with `Diverged` when the result leaves the trainable range.
pub fn update_weight(w: i64, derivative: i128, learning_rate: i64) -> (r: Result<i64, FitError>)
    requires
        param_in_range(w as int),
    ensures
        r is Ok <==> param_in_range(updated(w as int, derivative as int, learning_rate as int)),
        r matches Ok(v) ==> v == updated(w as int, derivative as int, learning_rate as int),
        r is Err ==> r == Err::<i64, FitError>(FitError::Diverged),
{
    match (learning_rate as i128).checked_mul(derivative) {
        None => Err(FitError::Diverged),
        Some(p) => {
            if p == i128::MIN {
                return Err(FitError::Diverged);
            }
            let q = div_toward_zero(p, SCALE as i128);
            let v: i128 = (w as i128) - q;
            if v < -(MAX_PARAM as i128) || v > MAX_PARAM as i128 {
                Err(FitError::Diverged)
            } else {
                Ok(v as i64)
            }
        },
    }
}

/// Moves every parameter against its own derivative, all from the same
/// snapshot `before`: `after[i] == before[i] - learning_rate * derivatives[i]`.
/// Fails with `Diverged` when any result leaves the trainable range.
pub fn update_params(before: &Vec<i64>, derivatives: &Vec<i128>, learning_rate: i64) -> (r: Result<
    Vec<i64>,
    FitError,
>)
    requires
        before@.len() == derivatives@.len(),
        forall|i: int| 0 <= i < before@.len() ==> param_in_range(#[trigger] before@[i] as int),
    ensures
        r is Ok <==> forall|i: int|
            0 <= i < before@.len() ==> param_in_range(
                #[trigger] updated(before@[i] as int, derivatives@[i] as int, learning_rate as int),
            ),
        r matches Ok(after) ==> after@.len() == before@.len() && forall|i: int|
            0 <= i < before@.len() ==> #[trigger] after@[i] == updated(
                before@[i] as int,
                derivatives@[i] as int,
                learning_rate as int,
            ),
        r is Err ==> r == Err::<Vec<i64>, FitError>(FitError::Diverged),
{
    let mut after: Vec<i64> = Vec::new();
    let mut i: usize = 0;
    while i < before.len()
        invariant
            before@.len() == derivatives@.len(),
            forall|j: int| 0 <= j < before@.len() ==> param_in_range(#[trigger] before@[j] as int),
            i <= before@.len(),
            after@.len() == i,
            forall|j: int|
                0 <= j < i ==> param_in_range(
                    #[trigger] updated(before@[j] as int, derivatives@[j] as int, learning_rate as int),
                ),
            forall|j: int|
                0 <= j < i ==> #[trigger] after@[j] == updated(
                    before@[j] as int,
                    derivatives@[j] as int,
                    learning_rate as int,
                ),
        decreases before@.len() - i,
    {
        match update_weight(before[i], derivatives[i], learning_rate) {
            Ok(v) => after.push(v),
            Err(e) => {
                return Err(e);
            },
        }
        i += 1;
    }
    Ok(after)
}

/// One descent step from `w`: the cost there, the derivative estimate, and
/// the updated weight.
pub fn step(data: &Dataset, w: i64, hyper: &Hyper) -> (r: Result<StepReport, FitError>)
    requires
        data.wf(),
        param_in_range(w as int),
        hyper.wf(),
    ensures
        r is Ok <==> param_in_range(
            next_weight(data@, w as int, hyper.eps as int, hyper.learning_rate as int),
        ),
        r matches Ok(rep) ==> rep.cost == cost_of(data@, w as int) && rep.derivative
            == derivative_of(data@, w as int, hyper.eps as int) && rep.weight_before == w
            && rep.weight_after == next_weight(
            data@,
            w as int,
            hyper.eps as int,
            hyper.learning_rate as int,
        ),
        r is Err ==> r == Err::<StepReport, FitError>(FitError::Diverged),
{
    let cost = compute_cost(data, w);
    let cost_after = compute_cost(data, w + hyper.eps);
    let d = derivative_from_costs(cost, cost_after, hyper.eps);
    match update_weight(w, d, hyper.learning_rate) {
        Ok(v) => Ok(StepReport { cost, derivative: d, weight_before: w, weight_after: v }),
        Err(e) => Err(e),
    }
}

/// Runs `hyper.iterations` descent steps from `w0` and returns the final
/// weight, or `Diverged` if a step leaves the trainable range.
pub fn fit(data: &Dataset, w0: i64, hyper: &Hyper) -> (r: Result<i64, FitError>)
    requires
        data.wf(),
        param_in_range(w0 as int),
        hyper.wf(),
    ensures
        r is Ok <==> run(
            data@,
            w0 as int,
            hyper.eps as int,
            hyper.learning_rate as int,
            hyper.iterations as nat,
        ) is Some,
        r matches Ok(v) ==> run(
            data@,
            w0 as int,
            hyper.eps as int,
            hyper.learning_rate as int,
            hyper.iterations as nat,
        ) == Some(v as int),
        r is Err ==> r == Err::<i64, FitError>(FitError::Diverged),
{
    let mut w = w0;
    let mut i: u64 = 0;
    while i < hyper.iterations
        invariant
            data.wf(),
            hyper.wf(),
            i <= hyper.iterations,
            param_in_range(w as int),
            run(data@, w0 as int, hyper.eps as int, hyper.learning_rate as int, i as nat) == Some(
                w as int,
            ),
        decreases hyper.iterations - i,
    {
        match step(data, w, hyper) {
            Ok(rep) => {
                w = rep.weight_after;
            },
            Err(e) => {
                proof {
                    lemma_run_stays_failed(
                        data@,
                        w0 as int,
                        hyper.eps as int,
                        hyper.learning_rate as int,
                        (i + 1) as nat,
                        hyper.iterations as nat,
                    );
                }
                return Err(e);
            },
        }
        i += 1;
    }
    Ok(w)
}

/// The derivative estimate is the cost difference over `eps`, and for a
/// step no larger than one unit its sign is the sign of that difference:
/// positive exactly when moving up by `eps` raises the cost, negative
/// exactly when it lowers it.
pub proof fn lemma_derivative_sign(rows: Seq<(u32, u32)>, w: int, eps: int)
    requires
        valid_rows(rows),
        param_in_range(w),
        0 < eps <= SCALE,
    ensures
        derivative_of(rows, w, eps) == fixed_div(cost_of(rows, w + eps) - cost_of(rows, w), eps),
        derivative_of(rows, w, eps) > 0 <==> cost_of(rows, w + eps) > cost_of(rows, w),
        derivative_of(rows, w, eps) < 0 <==> cost_of(rows, w + eps) < cost_of(rows, w),
{
    let diff = cost_of(rows, w + eps) - cost_of(rows, w);
    let s = SCALE as int;
    if diff > 0 {
        assert((diff * s) / eps >= 1) by (nonlinear_arith)
            requires
                diff >= 1,
                s == 1_000_000,
                0 < eps <= s,
        ;
    } else if diff < 0 {
        assert((-(diff * s)) / eps >= 1) by (nonlinear_arith)
            requires
                diff <= -1,
                s == 1_000_000,
                0 < eps <= s,
        ;
    }
}

} // verus!
