use vstd::prelude::*;

verus! {

/// Why a sample plan could not be made.
#[derive(Clone, Copy, Debug, PartialEq, Eq, Structural)]
pub enum PlanError {
    /// No samples per pixel were asked for: every pixel would be divided by zero.
    NoSamples,
    /// There is no worker to take the samples.
    NoWorkers,
    /// The samples asked for, shared among the workers, round to none each.
    TooFewSamples,
    /// The number of samples taken per pixel does not fit in `usize`.
    TooManySamples,
}

/// `samples / workers` rounded to the nearest integer, halves upward.
pub open spec fn rounded_share(samples: nat, workers: nat) -> nat
    recommends
        workers > 0,
{
    (2 * samples + workers) / (2 * workers)
}

/// The error that `SamplePlan::new` reports for these inputs, if any.
pub open spec fn plan_error(samples: nat, workers: nat) -> Option<PlanError> {
    if samples == 0 {
        Some(PlanError::NoSamples)
    } else if workers == 0 {
        Some(PlanError::NoWorkers)
    } else if rounded_share(samples, workers) == 0 {
        Some(PlanError::TooFewSamples)
    } else if workers * rounded_share(samples, workers) > usize::MAX {
        Some(PlanError::TooManySamples)
    } else {
        None
    }
}

/// How the samples of each pixel are shared among a pool of workers: each
/// worker draws `per_worker` samples, and the pixel's colour is the sum of
/// all of them divided by `total()`.
#[derive(Clone, Copy, Debug, PartialEq, Eq, Structural)]
pub struct SamplePlan {
    pub workers: usize,
    pub per_worker: usize,
}

impl SamplePlan {
    /// The number of samples behind each pixel.
    pub open spec fn spec_total(&self) -> nat {
        (self.workers * self.per_worker) as nat
    }

    /// At least one sample is taken, and their number fits in `usize`.
    pub open spec fn wf(&self) -> bool {
        &&& self.workers > 0
        &&& self.per_worker > 0
        &&& self.spec_total() <= usize::MAX
    }

    /// Shares `samples` per pixel among `workers`: each worker takes the
    /// rounded share, so the total is the multiple of `workers` nearest to
    /// `samples`. A plan that would take no sample at all is refused.
    pub fn new(samples: usize, workers: usize) -> (r: Result<SamplePlan, PlanError>)
        ensures
            samples == 0 ==> r == Err::<SamplePlan, PlanError>(PlanError::NoSamples),
            r is Err <==> plan_error(samples as nat, workers as nat) is Some,
            r matches Err(e) ==> plan_error(samples as nat, workers as nat) == Some(e),
            r matches Ok(plan) ==> {
                &&& plan.wf()
                &&& plan.workers == workers
                &&& plan.per_worker == rounded_share(samples as nat, workers as nat)
            },
    {
        if samples == 0 {
            return Err(PlanError::NoSamples);
        }
        if workers == 0 {
            return Err(PlanError::NoWorkers);
        }
        let whole = samples / workers;
        let rest = samples % workers;
        let per_worker = if rest >= workers - rest {
            assert(whole < usize::MAX) by (nonlinear_arith)
                requires
                    whole == samples / workers,
                    rest == samples % workers,
                    rest >= workers - rest,
                    workers > 0,
                    samples <= usize::MAX,
            ;
            whole + 1
        } else {
            whole
        };
        assert(per_worker == rounded_share(samples as nat, workers as nat)) by (nonlinear_arith)
            requires
                workers > 0,
                whole == samples / workers,
                rest == samples % workers,
                per_worker == (if rest >= workers - rest { whole + 1 } else { whole as int }),
        ;
        if per_worker == 0 {
            return Err(PlanError::TooFewSamples);
        }
        match workers.checked_mul(per_worker) {
            Some(_) => Ok(SamplePlan { workers, per_worker }),
            None => Err(PlanError::TooManySamples),
        }
    }

    /// The number of samples behind each pixel: the divisor of its sum.
    pub fn total(&self) -> (n: usize)
        requires
            self.wf(),
        ensures
            n == self.spec_total(),
            n > 0,
    {
        proof {
            vstd::arithmetic::mul::lemma_mul_strictly_positive(self.workers as int, self.per_worker as int);
        }
        self.workers * self.per_worker
    }
}

} // verus!
