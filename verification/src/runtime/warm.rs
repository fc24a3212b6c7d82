//! The runs that prepare whole lane sets and shape buckets before they serve.
use vstd::prelude::*;

use crate::element::TensorElement;
use crate::error::Error;
use crate::runtime::bucket::ShapeBucket;
use crate::runtime::dynamic::DynamicIoRuntime;
use crate::runtime::host_lane::Runtime;
use crate::runtime::static_io::StaticIoRuntime;

verus! {

/// One operation on a lane of a set.
#[derive(Debug, Clone, Copy, PartialEq, Eq, Structural)]
pub enum PrimeCall {
    /// Run the lane.
    Run(usize),
    /// Run the lane and leave it in flight.
    RunEnqueued(usize),
    /// Wait for the lane's run.
    Synchronize(usize),
}

/// The runs of a lane set: each lane in turn is run as often as asked for.
#[derive(Debug, Clone, Copy, PartialEq, Eq, Structural)]
pub struct SetPriming {
    /// How many lanes there are.
    pub lanes: usize,
    /// How often each is run.
    pub runs: usize,
    /// Whether runs are enqueued and then waited for.
    pub enqueued: bool,
    /// The lane that is run.
    pub lane: usize,
    /// How often it has been run.
    pub run: usize,
    /// Whether an enqueued run is to be waited for.
    pub queued: bool,
}

impl SetPriming {
    /// A lane is only run as often as asked for, and only enqueued runs are waited for.
    pub open spec fn wf(self) -> bool {
        &&& self.lane <= self.lanes
        &&& self.is_due() ==> self.run < self.runs
        &&& self.queued ==> self.enqueued && self.is_due()
    }

    /// Some lane is still to be run.
    pub open spec fn is_due(self) -> bool {
        self.lane < self.lanes && self.runs > 0
    }

    /// The next operation.
    pub open spec fn pending(self) -> Option<PrimeCall> {
        if !self.is_due() {
            None
        } else if self.queued {
            Some(PrimeCall::Synchronize(self.lane))
        } else if self.enqueued {
            Some(PrimeCall::RunEnqueued(self.lane))
        } else {
            Some(PrimeCall::Run(self.lane))
        }
    }

    /// The runs once the next operation has succeeded.
    pub open spec fn advanced(self) -> SetPriming {
        if self.enqueued && !self.queued {
            SetPriming { queued: true, ..self }
        } else if self.run + 1 < self.runs {
            SetPriming { queued: false, run: (self.run + 1) as usize, ..self }
        } else {
            SetPriming { queued: false, run: 0, lane: (self.lane + 1) as usize, ..self }
        }
    }

    /// How many runs are left to be started.
    pub open spec fn runs_left(self) -> int {
        if !self.is_due() {
            0
        } else {
            (self.lanes - self.lane) * self.runs - self.run - (if self.queued {
                1int
            } else {
                0
            })
        }
    }

    /// Run each of some lanes `runs` times.
    pub fn prime(lanes: usize, runs: usize) -> (priming: SetPriming)
        ensures
            priming.wf(),
            priming == (SetPriming { lanes, runs, enqueued: false, lane: 0, run: 0, queued: false }),
    {
        SetPriming { lanes, runs, enqueued: false, lane: 0, run: 0, queued: false }
    }

    /// Run each of some lanes `runs` times the way enqueued traffic runs it.
    pub fn prime_enqueued(lanes: usize, runs: usize) -> (priming: SetPriming)
        ensures
            priming.wf(),
            priming == (SetPriming { lanes, runs, enqueued: true, lane: 0, run: 0, queued: false }),
    {
        SetPriming { lanes, runs, enqueued: true, lane: 0, run: 0, queued: false }
    }

    /// The next operation, or none where all runs have been made.
    pub fn next(&self) -> (call: Option<PrimeCall>)
        ensures
            call == self.pending(),
    {
        if self.lane >= self.lanes || self.runs == 0 {
            None
        } else if self.queued {
            Some(PrimeCall::Synchronize(self.lane))
        } else if self.enqueued {
            Some(PrimeCall::RunEnqueued(self.lane))
        } else {
            Some(PrimeCall::Run(self.lane))
        }
    }

    /// What came of the operation. Where it failed, no further one is made.
    pub fn answer(self, reply: Result<(), Error>) -> (priming: Result<SetPriming, Error>)
        requires
            self.wf(),
            self.pending() is Some,
        ensures
            match reply {
                Ok(()) => priming == Ok::<SetPriming, Error>(self.advanced())
                    && self.advanced().wf(),
                Err(error) => priming == Err::<SetPriming, Error>(error),
            },
    {
        match reply {
            Err(error) => return Err(error),
            Ok(()) => {},
        }
        if self.enqueued && !self.queued {
            Ok(SetPriming { queued: true, ..self })
        } else if self.run + 1 < self.runs {
            Ok(SetPriming { queued: false, run: self.run + 1, ..self })
        } else {
            Ok(SetPriming { queued: false, run: 0, lane: self.lane + 1, ..self })
        }
    }
}

/// Every lane of a set is run as often as asked for: each operation that starts a run leaves one run
/// fewer, waiting leaves as many, and nothing is pending exactly when no run is left to be started or
/// waited for.
pub proof fn sets_are_primed_whole(priming: SetPriming)
    requires
        priming.wf(),
    ensures
        priming.lane == 0 && priming.run == 0 && !priming.queued ==> priming.runs_left()
            == priming.lanes * priming.runs,
        priming.pending() is None ==> priming.runs_left() == 0,
        match priming.pending() {
            None => true,
            Some(PrimeCall::Synchronize(_)) => priming.advanced().runs_left()
                == priming.runs_left(),
            Some(_) => priming.runs_left() > 0 && priming.advanced().runs_left()
                == priming.runs_left() - 1,
        },
{
    let left = priming.lanes - priming.lane;
    let runs = priming.runs as int;
    if priming.is_due() {
        assert(left * runs >= runs) by (nonlinear_arith)
            requires
                left >= 1,
                runs >= 1,
        ;
        assert((left - 1) * runs == left * runs - runs) by (nonlinear_arith);
        if left == 1 {
            assert(left * runs == runs) by (nonlinear_arith)
                requires
                    left == 1,
            ;
        }
        let after = priming.advanced();
        assert(after.lanes - after.lane == left || after.lanes - after.lane == left - 1);
    } else if priming.lane == 0 {
        assert(priming.lanes * priming.runs == 0) by (nonlinear_arith)
            requires
                priming.lanes == 0 || priming.runs == 0,
        ;
    }
}

/// What is done next to warm shape buckets.
#[derive(Debug, Clone, Copy, PartialEq, Eq, Structural)]
pub enum WarmCall {
    /// Find a bucket, or create it.
    Bucket(usize),
    /// An operation on a lane of that bucket.
    Prime(usize, PrimeCall),
}

/// Buckets that are found or created one after the other, and whose lanes are then run.
#[derive(Debug, Clone, Copy, PartialEq, Eq, Structural)]
pub struct Warming {
    /// How many buckets there are.
    pub buckets: usize,
    /// How often each lane is run.
    pub runs: usize,
    /// Whether runs are enqueued and then waited for.
    pub enqueued: bool,
    /// How many buckets are done.
    pub done: usize,
    /// The runs of the bucket that was found.
    pub priming: Option<SetPriming>,
}

impl Warming {
    /// Some bucket is open only while not all are done, and some run of it is left.
    pub open spec fn wf(self) -> bool {
        &&& self.done <= self.buckets
        &&& self.priming matches Some(priming) ==> self.done < self.buckets && priming.wf()
            && priming.pending() is Some
    }

    /// What is done next.
    pub open spec fn pending(self) -> Option<WarmCall> {
        match self.priming {
            Some(priming) => match priming.pending() {
                Some(call) => Some(WarmCall::Prime(self.done, call)),
                None => None,
            },
            None => if self.done < self.buckets {
                Some(WarmCall::Bucket(self.done))
            } else {
                None
            },
        }
    }

    /// The runs of a bucket with some lanes.
    pub open spec fn opened(self, lanes: usize) -> SetPriming {
        SetPriming {
            lanes,
            runs: self.runs,
            enqueued: self.enqueued,
            lane: 0,
            run: 0,
            queued: false,
        }
    }

    /// The warming with these runs of the bucket left: without any, the bucket is done.
    pub open spec fn with_runs(self, priming: SetPriming) -> Warming {
        if priming.pending() is Some {
            Warming { priming: Some(priming), ..self }
        } else {
            Warming { priming: None, done: (self.done + 1) as usize, ..self }
        }
    }

    /// Warm some buckets.
    pub fn new(buckets: usize, runs: usize, enqueued: bool) -> (warming: Warming)
        ensures
            warming.wf(),
            warming == (Warming { buckets, runs, enqueued, done: 0, priming: None }),
    {
        Warming { buckets, runs, enqueued, done: 0, priming: None }
    }

    /// What is done next, or none where all buckets are done.
    pub fn next(&self) -> (call: Option<WarmCall>)
        ensures
            call == self.pending(),
    {
        match self.priming {
            Some(priming) => match priming.next() {
                Some(call) => Some(WarmCall::Prime(self.done, call)),
                None => None,
            },
            None => if self.done < self.buckets {
                Some(WarmCall::Bucket(self.done))
            } else {
                None
            },
        }
    }

    fn with_priming(self, priming: SetPriming) -> (warming: Warming)
        requires
            self.wf(),
            self.done < self.buckets,
            priming.wf(),
        ensures
            warming == self.with_runs(priming),
            warming.wf(),
    {
        if priming.next().is_some() {
            Warming { priming: Some(priming), ..self }
        } else {
            Warming { priming: None, done: self.done + 1, ..self }
        }
    }

    /// The bucket was found or created, with so many lanes; or that failed.
    pub fn found(self, lanes: Result<usize, Error>) -> (warming: Result<Warming, Error>)
        requires
            self.wf(),
            self.pending() is Some,
            self.priming is None,
        ensures
            match lanes {
                Ok(lanes) => warming == Ok::<Warming, Error>(self.with_runs(self.opened(lanes)))
                    && self.with_runs(self.opened(lanes)).wf(),
                Err(error) => warming == Err::<Warming, Error>(error),
            },
    {
        match lanes {
            Ok(lanes) => {
                let priming = if self.enqueued {
                    SetPriming::prime_enqueued(lanes, self.runs)
                } else {
                    SetPriming::prime(lanes, self.runs)
                };
                Ok(self.with_priming(priming))
            },
            Err(error) => Err(error),
        }
    }

    /// What came of the operation on a lane.
    pub fn answer(self, reply: Result<(), Error>) -> (warming: Result<Warming, Error>)
        requires
            self.wf(),
            self.priming is Some,
        ensures
            match reply {
                Ok(()) => warming == Ok::<Warming, Error>(
                    self.with_runs(self.priming->Some_0.advanced()),
                ) && self.with_runs(self.priming->Some_0.advanced()).wf(),
                Err(error) => warming == Err::<Warming, Error>(error),
            },
    {
        match self.priming {
            Some(priming) => match priming.answer(reply) {
                Ok(priming) => Ok(self.with_priming(priming)),
                Err(error) => Err(error),
            },
            None => Ok(self),
        }
    }

    /// How many buckets have been done.
    pub fn count(&self) -> (count: usize)
        ensures
            count == self.done,
    {
        self.done
    }
}

/// A warming counts every bucket once: a bucket that was found is done at once where nothing is to be
/// run, and otherwise with its last run; with nothing pending, all have been counted.
pub proof fn warming_counts_buckets(warming: Warming, lanes: usize)
    requires
        warming.wf(),
    ensures
        warming.pending() is None ==> warming.done == warming.buckets,
        warming.pending() matches Some(WarmCall::Bucket(bucket)) ==> bucket == warming.done && (
        warming.with_runs(warming.opened(lanes)).done == warming.done + 1 <==> lanes == 0
            || warming.runs == 0),
        warming.priming matches Some(priming) ==> (warming.with_runs(priming.advanced()).done
            == warming.done + 1 <==> priming.advanced().pending() is None),
{
}

impl<I: TensorElement, O: TensorElement, const INPUTS: usize, const OUTPUTS: usize> StaticIoRuntime<
    I,
    O,
    INPUTS,
    OUTPUTS,
> {
    /// Run every lane `runs` times.
    pub fn prime(&mut self, runs: usize) -> (priming: SetPriming)
        ensures
            *final(self) == *old(self),
            priming.wf(),
            priming == (SetPriming {
                lanes: old(self).members().len() as usize,
                runs,
                enqueued: false,
                lane: 0,
                run: 0,
                queued: false,
            }),
    {
        SetPriming::prime(self.len(), runs)
    }

    /// Run every lane `runs` times the way enqueued traffic runs it.
    pub fn prime_enqueued(&mut self, runs: usize) -> (priming: SetPriming)
        ensures
            *final(self) == *old(self),
            priming.wf(),
            priming == (SetPriming {
                lanes: old(self).members().len() as usize,
                runs,
                enqueued: true,
                lane: 0,
                run: 0,
                queued: false,
            }),
    {
        SetPriming::prime_enqueued(self.len(), runs)
    }
}

impl<T: TensorElement> Runtime<T> {
    /// Run every lane `runs` times.
    pub fn prime(&mut self, runs: usize) -> (priming: SetPriming)
        ensures
            *final(self) == *old(self),
            priming.wf(),
            priming == (SetPriming {
                lanes: old(self).members().len() as usize,
                runs,
                enqueued: false,
                lane: 0,
                run: 0,
                queued: false,
            }),
    {
        SetPriming::prime(self.len(), runs)
    }
}

impl<I: TensorElement, O: TensorElement, const INPUTS: usize, const OUTPUTS: usize> ShapeBucket<
    I,
    O,
    INPUTS,
    OUTPUTS,
> {
    /// Run every lane that is in the bucket `runs` times.
    pub fn prime(&mut self, runs: usize) -> (priming: SetPriming)
        ensures
            *final(self) == *old(self),
            priming.wf(),
            priming == (SetPriming {
                lanes: old(self)@.lanes.len() as usize,
                runs,
                enqueued: false,
                lane: 0,
                run: 0,
                queued: false,
            }),
    {
        SetPriming::prime(self.lanes().len(), runs)
    }

    /// Run every lane that is in the bucket `runs` times the way enqueued traffic runs it.
    pub fn prime_enqueued(&mut self, runs: usize) -> (priming: SetPriming)
        ensures
            *final(self) == *old(self),
            priming.wf(),
            priming == (SetPriming {
                lanes: old(self)@.lanes.len() as usize,
                runs,
                enqueued: true,
                lane: 0,
                run: 0,
                queued: false,
            }),
    {
        SetPriming::prime_enqueued(self.lanes().len(), runs)
    }
}

impl<I: TensorElement, O: TensorElement, const INPUTS: usize, const OUTPUTS: usize> DynamicIoRuntime<
    I,
    O,
    INPUTS,
    OUTPUTS,
> {
    /// Find or create the buckets of some shapes, without running their lanes.
    pub fn prebuild_buckets(&mut self, shapes: usize) -> (warming: Warming)
        ensures
            *final(self) == *old(self),
            warming.wf(),
            warming == (Warming {
                buckets: shapes,
                runs: 0,
                enqueued: false,
                done: 0,
                priming: None,
            }),
    {
        Warming::new(shapes, 0, false)
    }

    /// Find or create the bucket of a shape and run each of its lanes `runs` times.
    pub fn prime_bucket(&mut self, runs: usize) -> (warming: Warming)
        ensures
            *final(self) == *old(self),
            warming.wf(),
            warming == (Warming { buckets: 1, runs, enqueued: false, done: 0, priming: None }),
    {
        Warming::new(1, runs, false)
    }

    /// Find or create the bucket of a shape and run each of its lanes `runs` times the way enqueued
    /// traffic runs it.
    pub fn prime_bucket_enqueued(&mut self, runs: usize) -> (warming: Warming)
        ensures
            *final(self) == *old(self),
            warming.wf(),
            warming == (Warming { buckets: 1, runs, enqueued: true, done: 0, priming: None }),
    {
        Warming::new(1, runs, true)
    }

    /// Run each lane of every cached bucket `runs` times. No bucket is created.
    pub fn prime_cached_buckets(&mut self, runs: usize) -> (warming: Warming)
        ensures
            *final(self) == *old(self),
            warming.wf(),
            warming == (Warming {
                buckets: old(self)@.buckets.len() as usize,
                runs,
                enqueued: false,
                done: 0,
                priming: None,
            }),
    {
        Warming::new(self.bucket_count(), runs, false)
    }

    /// Find or create the buckets of some shapes and run each of their lanes `runs` times.
    pub fn warm_buckets(&mut self, shapes: usize, runs: usize) -> (warming: Warming)
        ensures
            *final(self) == *old(self),
            warming.wf(),
            warming == (Warming { buckets: shapes, runs, enqueued: false, done: 0, priming: None }),
    {
        Warming::new(shapes, runs, false)
    }

    /// Find or create the buckets of some shapes and run each of their lanes `runs` times the way
    /// enqueued traffic runs it.
    pub fn warm_buckets_enqueued(&mut self, shapes: usize, runs: usize) -> (warming: Warming)
        ensures
            *final(self) == *old(self),
            warming.wf(),
            warming == (Warming { buckets: shapes, runs, enqueued: true, done: 0, priming: None }),
    {
        Warming::new(shapes, runs, true)
    }
}

} // verus!
