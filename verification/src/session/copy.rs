//! Copies between tensors: by the engine, or else by the host where it can reach both.
use vstd::prelude::*;

use crate::error::Error;
use crate::session::session::Session;
use crate::tensor::value::{DeviceValue, OwnedValue};

verus! {

/// What is known of a source and a destination before the host copies between them. What is asked
/// later is not looked at where an earlier answer ends it.
#[derive(Debug)]
pub struct HostPair {
    /// Whether the host can reach the source.
    pub source_on_host: Result<bool, Error>,
    /// Whether the host can reach the destination.
    pub destination_on_host: Result<bool, Error>,
    /// The bytes of the source.
    pub source_bytes: Result<usize, Error>,
    /// The bytes of the destination.
    pub destination_bytes: Result<usize, Error>,
    /// Whether the source has an address.
    pub source_data: Result<(), Error>,
    /// Whether the destination has an address.
    pub destination_data: Result<(), Error>,
}

/// What the host does with a pair.
pub enum PairStep {
    /// It copies.
    Copy,
    /// It cannot reach both.
    Unreachable,
    /// It fails.
    Fail(Error),
}

impl HostPair {
    /// What the host does with the pair.
    pub open spec fn spec_step(self) -> PairStep {
        match (self.source_on_host, self.destination_on_host) {
            (Err(error), _) => PairStep::Fail(error),
            (_, Err(error)) => PairStep::Fail(error),
            (Ok(source), Ok(destination)) => if !source || !destination {
                PairStep::Unreachable
            } else {
                match (self.source_bytes, self.destination_bytes) {
                    (Err(error), _) => PairStep::Fail(error),
                    (_, Err(error)) => PairStep::Fail(error),
                    (Ok(source), Ok(destination)) => if source != destination {
                        PairStep::Fail(Error::CopyBytesMismatch { source, destination })
                    } else {
                        match (self.source_data, self.destination_data) {
                            (Err(error), _) => PairStep::Fail(error),
                            (_, Err(error)) => PairStep::Fail(error),
                            _ => PairStep::Copy,
                        }
                    },
                }
            },
        }
    }

    /// What the host does with the pair.
    pub fn step(self) -> (step: PairStep)
        ensures
            step == self.spec_step(),
    {
        let source: bool = match self.source_on_host {
            Err(error) => return PairStep::Fail(error),
            Ok(source) => source,
        };
        let destination: bool = match self.destination_on_host {
            Err(error) => return PairStep::Fail(error),
            Ok(destination) => destination,
        };
        if !source || !destination {
            return PairStep::Unreachable;
        }
        let source: usize = match self.source_bytes {
            Err(error) => return PairStep::Fail(error),
            Ok(source) => source,
        };
        let destination: usize = match self.destination_bytes {
            Err(error) => return PairStep::Fail(error),
            Ok(destination) => destination,
        };
        if source != destination {
            return PairStep::Fail(Error::CopyBytesMismatch { source, destination });
        }
        match self.source_data {
            Err(error) => return PairStep::Fail(error),
            Ok(()) => {},
        }
        match self.destination_data {
            Err(error) => PairStep::Fail(error),
            Ok(()) => PairStep::Copy,
        }
    }
}

/// How many of the pairs are copied, from the first on, before one that is not.
pub open spec fn pairs_copied(pairs: Seq<HostPair>) -> nat
    decreases pairs.len(),
{
    if pairs.len() == 0 || pairs[0].spec_step() !is Copy {
        0
    } else {
        1 + pairs_copied(pairs.drop_first())
    }
}

/// What came of copying on the host.
#[derive(Debug)]
pub struct HostCopy {
    /// How many pairs are copied, from the first on.
    pub copied: usize,
    /// Whether all are, or the failure that ended it. It is false where the host cannot reach some
    /// tensor.
    pub outcome: Result<bool, Error>,
}

impl HostCopy {
    /// This is what comes of copying the pairs.
    pub open spec fn copies(self, pairs: Seq<HostPair>) -> bool {
        &&& self.copied == pairs_copied(pairs)
        &&& self.copied <= pairs.len()
        &&& self.outcome == if self.copied == pairs.len() {
            Ok::<bool, Error>(true)
        } else {
            match pairs[self.copied as int].spec_step() {
                PairStep::Fail(error) => Err(error),
                _ => Ok(false),
            }
        }
    }
}

/// Copy pairs on the host, one after the other.
pub fn try_host_copy_tensor_handles(pairs: Vec<HostPair>) -> (copy: HostCopy)
    ensures
        copy.copies(pairs@),
{
    let ghost all = pairs@;
    let total: usize = pairs.len();
    let mut rest = pairs;
    let mut copied: usize = 0;
    while rest.len() > 0
        invariant
            all == pairs@,
            total == all.len(),
            copied <= total,
            rest@ == all.skip(copied as int),
            pairs_copied(all) == copied + pairs_copied(rest@),
        decreases rest@.len(),
    {
        let pair = rest.remove(0);
        proof {
            assert(rest@ =~= all.skip(copied as int).drop_first());
            assert(rest@ =~= all.skip(copied + 1));
            assert(pair == all[copied as int]);
        }
        match pair.step() {
            PairStep::Copy => {},
            PairStep::Unreachable => {
                return HostCopy { copied, outcome: Ok(false) };
            },
            PairStep::Fail(error) => {
                return HostCopy { copied, outcome: Err(error) };
            },
        }
        copied = copied + 1;
    }
    HostCopy { copied, outcome: Ok(true) }
}

impl Session {
    /// Why tensors cannot be copied at all: there are more of one than of the other.
    pub fn check_copy_counts(&self, on_stream: bool, source: usize, destination: usize) -> (result:
        Result<(), Error>)
        ensures
            result == if source == destination {
                Ok::<(), Error>(())
            } else {
                Err(Error::CopyCountMismatch { on_stream, source, destination })
            },
    {
        if source != destination {
            return Err(Error::CopyCountMismatch { on_stream, source, destination });
        }
        Ok(())
    }

    /// What comes of a copy: the engine copies, and where it fails the host does.
    pub open spec fn copy_outcome(
        result: Result<(), Error>,
        sources: usize,
        destinations: usize,
        engine: Result<(), Error>,
        pairs: Seq<HostPair>,
    ) -> bool {
        if sources != destinations {
            result == Err::<(), Error>(
                Error::CopyCountMismatch {
                    on_stream: false,
                    source: sources,
                    destination: destinations,
                },
            )
        } else {
            match engine {
                Ok(()) => result is Ok,
                Err(error) => if pairs_copied(pairs) == pairs.len() {
                    result is Ok
                } else {
                    match pairs[pairs_copied(pairs) as int].spec_step() {
                        PairStep::Fail(failure) => result == Err::<(), Error>(failure),
                        _ => result == Err::<(), Error>(error),
                    }
                },
            }
        }
    }

    /// What comes of a copy of tensors.
    pub fn copy_tensor_handles(
        &self,
        sources: usize,
        destinations: usize,
        engine: Result<(), Error>,
        pairs: Vec<HostPair>,
    ) -> (result: Result<(), Error>)
        ensures
            Session::copy_outcome(result, sources, destinations, engine, pairs@),
    {
        match self.check_copy_counts(false, sources, destinations) {
            Err(error) => return Err(error),
            Ok(()) => {},
        }
        match engine {
            Ok(()) => Ok(()),
            Err(error) => match try_host_copy_tensor_handles(pairs).outcome {
                Ok(true) => Ok(()),
                Ok(false) => Err(error),
                Err(failure) => Err(failure),
            },
        }
    }

    /// What comes of a copy on a stream: there the host does not stand in for the engine.
    pub fn copy_tensor_handles_on_stream(
        &self,
        sources: usize,
        destinations: usize,
        stream_environment: u64,
        engine: Result<(), Error>,
    ) -> (result: Result<(), Error>)
        ensures
            if stream_environment != self.spec_environment() {
                result == Err::<(), Error>(
                    Error::Fault(crate::error::Fault::StreamEnvironmentMismatch),
                )
            } else if sources != destinations {
                result == Err::<(), Error>(
                    Error::CopyCountMismatch {
                        on_stream: true,
                        source: sources,
                        destination: destinations,
                    },
                )
            } else {
                result == engine
            },
    {
        match self.check_sync_stream(stream_environment) {
            Err(error) => return Err(error),
            Ok(()) => {},
        }
        match self.check_copy_counts(true, sources, destinations) {
            Err(error) => return Err(error),
            Ok(()) => {},
        }
        engine
    }

    /// What comes of a copy of a value of the engine into a buffer.
    pub fn copy_value_to_tensor_buffer(&self, engine: Result<(), Error>, pair: HostPair) -> (result:
        Result<(), Error>)
        ensures
            Session::copy_outcome(result, 1, 1, engine, seq![pair]),
    {
        self.copy_one(engine, pair)
    }

    /// What comes of a copy of a value of the engine into an allocated tensor.
    pub fn copy_value_to_allocated_tensor(
        &self,
        engine: Result<(), Error>,
        pair: HostPair,
    ) -> (result: Result<(), Error>)
        ensures
            Session::copy_outcome(result, 1, 1, engine, seq![pair]),
    {
        self.copy_one(engine, pair)
    }

    /// What comes of a copy of an input into a buffer.
    pub fn copy_input_to_tensor_buffer(&self, engine: Result<(), Error>, pair: HostPair) -> (result:
        Result<(), Error>)
        ensures
            Session::copy_outcome(result, 1, 1, engine, seq![pair]),
    {
        self.copy_one(engine, pair)
    }

    /// What comes of a copy of an input into an allocated tensor.
    pub fn copy_input_to_allocated_tensor(
        &self,
        engine: Result<(), Error>,
        pair: HostPair,
    ) -> (result: Result<(), Error>)
        ensures
            Session::copy_outcome(result, 1, 1, engine, seq![pair]),
    {
        self.copy_one(engine, pair)
    }

    fn copy_one(&self, engine: Result<(), Error>, pair: HostPair) -> (result: Result<(), Error>)
        ensures
            Session::copy_outcome(result, 1, 1, engine, seq![pair]),
    {
        let mut pairs: Vec<HostPair> = Vec::new();
        pairs.push(pair);
        assert(pairs@ =~= seq![pair]);
        self.copy_tensor_handles(1, 1, engine, pairs)
    }

    /// What comes of a copy of a value of the engine into a buffer on a stream.
    pub fn copy_value_to_tensor_buffer_on_stream(
        &self,
        stream_environment: u64,
        engine: Result<(), Error>,
    ) -> (result: Result<(), Error>)
        ensures
            if stream_environment != self.spec_environment() {
                result == Err::<(), Error>(
                    Error::Fault(crate::error::Fault::StreamEnvironmentMismatch),
                )
            } else {
                result == engine
            },
    {
        self.copy_tensor_handles_on_stream(1, 1, stream_environment, engine)
    }

    /// What comes of a copy of an input into a buffer on a stream.
    pub fn copy_input_to_tensor_buffer_on_stream(
        &self,
        stream_environment: u64,
        engine: Result<(), Error>,
    ) -> (result: Result<(), Error>)
        ensures
            if stream_environment != self.spec_environment() {
                result == Err::<(), Error>(
                    Error::Fault(crate::error::Fault::StreamEnvironmentMismatch),
                )
            } else {
                result == engine
            },
    {
        self.copy_tensor_handles_on_stream(1, 1, stream_environment, engine)
    }
}

impl OwnedValue {
    /// What comes of a copy of this value into a buffer.
    pub fn copy_to_tensor_buffer(
        &self,
        session: &Session,
        engine: Result<(), Error>,
        pair: HostPair,
    ) -> (result: Result<(), Error>)
        ensures
            Session::copy_outcome(result, 1, 1, engine, seq![pair]),
    {
        session.copy_value_to_tensor_buffer(engine, pair)
    }

    /// What comes of a copy of this value into an allocated tensor.
    pub fn copy_to_allocated_tensor(
        &self,
        session: &Session,
        engine: Result<(), Error>,
        pair: HostPair,
    ) -> (result: Result<(), Error>)
        ensures
            Session::copy_outcome(result, 1, 1, engine, seq![pair]),
    {
        session.copy_value_to_allocated_tensor(engine, pair)
    }
}

impl DeviceValue {
    /// What comes of a copy of this value into a buffer.
    pub fn copy_to_tensor_buffer(
        &self,
        session: &Session,
        engine: Result<(), Error>,
        pair: HostPair,
    ) -> (result: Result<(), Error>)
        ensures
            Session::copy_outcome(result, 1, 1, engine, seq![pair]),
    {
        session.copy_value_to_tensor_buffer(engine, pair)
    }

    /// What comes of a copy of this value into an allocated tensor.
    pub fn copy_to_allocated_tensor(
        &self,
        session: &Session,
        engine: Result<(), Error>,
        pair: HostPair,
    ) -> (result: Result<(), Error>)
        ensures
            Session::copy_outcome(result, 1, 1, engine, seq![pair]),
    {
        session.copy_value_to_allocated_tensor(engine, pair)
    }
}

/// The host never copies between tensors of different sizes, nor to or from memory that it cannot
/// reach.
pub proof fn host_copies_fit(pairs: Seq<HostPair>, copy: HostCopy, i: int)
    requires
        copy.copies(pairs),
        0 <= i < copy.copied,
    ensures
        pairs[i].source_on_host == Ok::<bool, Error>(true),
        pairs[i].destination_on_host == Ok::<bool, Error>(true),
        pairs[i].source_bytes is Ok,
        pairs[i].source_bytes == pairs[i].destination_bytes,
{
    lemma_copied(pairs, i);
}

proof fn lemma_copied(pairs: Seq<HostPair>, i: int)
    requires
        0 <= i < pairs_copied(pairs),
    ensures
        i < pairs.len(),
        pairs[i].spec_step() is Copy,
    decreases pairs.len(),
{
    if i > 0 {
        lemma_copied(pairs.drop_first(), i - 1);
    }
}

} // verus!
