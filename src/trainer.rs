//! The training loop as a state machine: `Initialized -> Training -> Done`.
//! Each call of `advance` performs one descent step; the caller decides
//! what to do with the report (print it, keep it, drop it).
use vstd::prelude::*;
use crate::cost::{cost_of, prediction, predict};
use crate::dataset::{Dataset, FitError};
use crate::descent::{
    Hyper, MAX_EPS, MAX_PARAM, StepReport, derivative_of, next_weight, param_in_range, step,
};
use crate::fixed::SCALE;

verus! {

/// Initial weights of the linear model are drawn from `[0, 100)`.
pub const INITIAL_WEIGHT_LIMIT: i64 = 100 * SCALE;

/// Relies on rand's `thread_rng().gen_range(0..bound)`: a value drawn
/// uniformly from the half-open range `[0, bound)`; it panics on an empty
/// range.
#[verifier::external_body]
fn random_below(bound: i64) -> (r: i64)
    requires
        bound > 0,
    ensures
        0 <= r < bound,
{
    rand::Rng::gen_range(&mut rand::thread_rng(), 0..bound)
}

/// A random initial weight for the linear model, uniform in `[0, 100)`.
pub fn random_initial_weight() -> (r: i64)
    ensures
        0 <= r < INITIAL_WEIGHT_LIMIT,
        param_in_range(r as int),
{
    random_below(INITIAL_WEIGHT_LIMIT)
}

/// Where a training run stands.
#[derive(PartialEq, Eq, Structural, Debug, Clone, Copy)]
pub enum Phase {
    Initialized,
    Training,
    Done,
}

pub open spec fn phase_of(iteration: u64, iterations: u64) -> Phase {
    if iteration >= iterations {
        Phase::Done
    } else if iteration == 0 {
        Phase::Initialized
    } else {
        Phase::Training
    }
}

impl Hyper {
    /// Ten steps at `eps = learning_rate = 0.001`, reporting every step.
    pub fn short_run() -> (r: Hyper)
        ensures
            r.wf(),
            r.eps == 1000 && r.learning_rate == 1000 && r.iterations == 10 && r.report_every == 1,
    {
        Hyper { eps: 1000, learning_rate: 1000, iterations: 10, report_every: 1 }
    }

    /// Five hundred steps at `eps = learning_rate = 0.001`, reporting every
    /// hundredth step.
    pub fn long_run() -> (r: Hyper)
        ensures
            r.wf(),
            r.eps == 1000 && r.learning_rate == 1000 && r.iterations == 500 && r.report_every
                == 100,
    {
        Hyper { eps: 1000, learning_rate: 1000, iterations: 500, report_every: 100 }
    }
}

/// A training run of the linear model: the dataset, the configuration,
/// the current weight and how many steps have been taken.
pub struct Trainer {
    pub data: Dataset,
    pub hyper: Hyper,
    pub weight: i64,
    pub iteration: u64,
}

impl Trainer {
    pub open spec fn wf(&self) -> bool {
        &&& self.data.wf()
        &&& self.hyper.wf()
        &&& param_in_range(self.weight as int)
        &&& self.iteration <= self.hyper.iterations
    }

    /// A run that starts from weight `w0`; `ParameterOutOfRange` when `w0`
    /// or the configuration lies outside what the arithmetic is proved for.
    pub fn new(data: Dataset, hyper: Hyper, w0: i64) -> (r: Result<Trainer, FitError>)
        requires
            data.wf(),
        ensures
            r is Ok <==> hyper.wf() && param_in_range(w0 as int),
            r matches Ok(t) ==> t.wf() && t.data@ == data@ && t.hyper == hyper && t.weight == w0
                && t.iteration == 0,
            r is Err ==> r == Err::<Trainer, FitError>(FitError::ParameterOutOfRange),
    {
        if hyper.eps <= 0 || hyper.eps > MAX_EPS || hyper.report_every == 0 {
            return Err(FitError::ParameterOutOfRange);
        }
        if w0 < -MAX_PARAM || w0 > MAX_PARAM {
            return Err(FitError::ParameterOutOfRange);
        }
        Ok(Trainer { data, hyper, weight: w0, iteration: 0 })
    }

    pub fn phase(&self) -> (r: Phase)
        ensures
            r == phase_of(self.iteration, self.hyper.iterations),
    {
        if self.iteration >= self.hyper.iterations {
            Phase::Done
        } else if self.iteration == 0 {
            Phase::Initialized
        } else {
            Phase::Training
        }
    }

    /// Whether the step just taken falls on the reporting cadence.
    pub fn should_report(&self) -> (r: bool)
        requires
            self.wf(),
        ensures
            r == (self.iteration > 0 && self.iteration % self.hyper.report_every == 0),
    {
        self.iteration > 0 && self.iteration % self.hyper.report_every == 0
    }

    /// Takes one descent step. On `Diverged` the run is left as it was.
    pub fn advance(&mut self) -> (r: Result<StepReport, FitError>)
        requires
            old(self).wf(),
            old(self).iteration < old(self).hyper.iterations,
        ensures
            final(self).wf(),
            final(self).data@ == old(self).data@,
            final(self).hyper == old(self).hyper,
            r is Ok <==> param_in_range(
                next_weight(
                    old(self).data@,
                    old(self).weight as int,
                    old(self).hyper.eps as int,
                    old(self).hyper.learning_rate as int,
                ),
            ),
            r matches Ok(rep) ==> {
                &&& rep.cost == cost_of(old(self).data@, old(self).weight as int)
                &&& rep.derivative == derivative_of(
                    old(self).data@,
                    old(self).weight as int,
                    old(self).hyper.eps as int,
                )
                &&& rep.weight_before == old(self).weight
                &&& rep.weight_after == final(self).weight
                &&& final(self).weight == next_weight(
                    old(self).data@,
                    old(self).weight as int,
                    old(self).hyper.eps as int,
                    old(self).hyper.learning_rate as int,
                )
                &&& final(self).iteration == old(self).iteration + 1
            },
            r is Err ==> r == Err::<StepReport, FitError>(FitError::Diverged) && final(self).weight
                == old(self).weight && final(self).iteration == old(self).iteration,
    {
        match step(&self.data, self.weight, &self.hyper) {
            Ok(rep) => {
                self.weight = rep.weight_after;
                self.iteration = self.iteration + 1;
                Ok(rep)
            },
            Err(e) => Err(e),
        }
    }
}

/// The model's prediction for every row of the dataset at weight `w`.
pub fn predictions(data: &Dataset, w: i64) -> (r: Vec<i128>)
    requires
        data.wf(),
    ensures
        r@.len() == data@.len(),
        forall|i: int| 0 <= i < r@.len() ==> #[trigger] r@[i] == prediction(data@[i].0 as int, w as int),
{
    let mut out: Vec<i128> = Vec::new();
    let mut i: usize = 0;
    while i < data.len()
        invariant
            i <= data@.len(),
            out@.len() == i,
            forall|j: int| 0 <= j < i ==> #[trigger] out@[j] == prediction(data@[j].0 as int, w as int),
        decreases data@.len() - i,
    {
        let row = data.row(i);
        out.push(predict(row.0, w));
        i += 1;
    }
    out
}

} // verus!
