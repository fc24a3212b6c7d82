//! Fixed sets of serving lanes, scheduled by their caller.
use vstd::prelude::*;

use crate::element::TensorElement;
use crate::error::{fail, Error, Fault, Slot};
use crate::memory::MemoryInfo;
use crate::runtime::audit::{BufferAddress, LaneHotPathAudit};
use crate::runtime::lane::{LaneRecipe, Placement, ServingLane};
use crate::runtime::lane_build::BuildCall;
use crate::runtime::lane_state::LaneState;
use crate::runtime::options::{CudaStream, RuntimeMode};
use crate::session::session::Session;
use crate::tensor::buffer::BufferSpec;

verus! {

/// The streams of a set's lanes.
#[derive(Debug, Clone, Copy)]
pub enum LaneStreams<'a> {
    /// None: the lanes have host inputs.
    Unused,
    /// All lanes share one.
    Shared(CudaStream),
    /// Every lane has its own.
    PerLane(&'a [CudaStream]),
}

impl<'a> LaneStreams<'a> {
    /// The stream of lane `k`.
    pub open spec fn at(self, k: int) -> Option<CudaStream> {
        match self {
            LaneStreams::Unused => None,
            LaneStreams::Shared(stream) => Some(stream),
            LaneStreams::PerLane(streams) => if 0 <= k < streams@.len() {
                Some(streams@[k])
            } else {
                None
            },
        }
    }

    fn stream(&self, k: usize) -> (stream: Option<CudaStream>)
        ensures
            stream == self.at(k as int),
    {
        match self {
            LaneStreams::Unused => None,
            LaneStreams::Shared(stream) => Some(*stream),
            LaneStreams::PerLane(streams) => {
                if k < streams.len() {
                    Some(streams[k])
                } else {
                    None
                }
            },
        }
    }
}

/// The sessions of a set's lanes.
#[derive(Debug, Clone, Copy)]
pub enum LaneSessions<'a> {
    /// All lanes share one.
    Shared(&'a Session),
    /// Every lane has its own.
    Replicated(&'a [Session]),
}

impl<'a> LaneSessions<'a> {
    /// The sessions.
    pub open spec fn all(self) -> Seq<Session> {
        match self {
            LaneSessions::Shared(session) => seq![*session],
            LaneSessions::Replicated(sessions) => sessions@,
        }
    }

    /// How the sessions are arranged.
    pub open spec fn mode(self) -> RuntimeMode {
        match self {
            LaneSessions::Shared(_) => RuntimeMode::SharedSession,
            LaneSessions::Replicated(_) => RuntimeMode::ReplicatedSessions,
        }
    }
}

/// The session of lane `k`: its own, or the shared one.
pub open spec fn session_of(sessions: Seq<Session>, mode: RuntimeMode, k: int) -> Session {
    match mode {
        RuntimeMode::SharedSession => sessions[0],
        RuntimeMode::ReplicatedSessions => sessions[k],
    }
}

/// A fixed set of lanes with typed inputs and outputs.
#[derive(Debug)]
pub struct StaticIoRuntime<
    I: TensorElement,
    O: TensorElement,
    const INPUTS: usize,
    const OUTPUTS: usize,
> {
    lanes: Vec<ServingLane<I, O, INPUTS, OUTPUTS>>,
    mode: RuntimeMode,
}

/// The buffer addresses of one lane, as the engine reports them.
#[derive(Debug)]
pub struct LaneAddresses {
    pub inputs: Vec<BufferAddress>,
    pub outputs: Vec<BufferAddress>,
}

/// The engine calls that make a set, lane by lane.
pub type SetCalls = Vec<Vec<BuildCall>>;

impl<I: TensorElement, O: TensorElement, const INPUTS: usize, const OUTPUTS: usize> StaticIoRuntime<
    I,
    O,
    INPUTS,
    OUTPUTS,
> {
    /// The lanes.
    pub closed spec fn members(self) -> Seq<ServingLane<I, O, INPUTS, OUTPUTS>> {
        self.lanes@
    }

    /// How the sessions are arranged.
    pub closed spec fn arrangement(self) -> RuntimeMode {
        self.mode
    }

    /// Every lane is sound and has no operation under way.
    pub open spec fn wf(self) -> bool {
        forall|k: int|
            0 <= k < self.members().len() ==> (#[trigger] self.members()[k]).wf()
                && self.members()[k].at_rest()
    }

    /// Why one of the first `n` lanes cannot be built: the first such reason.
    pub open spec fn set_fault(
        sessions: Seq<Session>,
        mode: RuntimeMode,
        streams: LaneStreams,
        recipe: LaneRecipe,
        input_shapes: Seq<Seq<i64>>,
        output_shapes: Seq<Seq<i64>>,
        n: int,
    ) -> Option<Error>
        decreases n,
    {
        if n <= 0 {
            None
        } else {
            match Self::set_fault(sessions, mode, streams, recipe, input_shapes, output_shapes, n - 1) {
                Some(error) => Some(error),
                None => ServingLane::<I, O, INPUTS, OUTPUTS>::place_fault(
                    session_of(sessions, mode, n - 1),
                    recipe,
                    streams.at(n - 1),
                    input_shapes,
                    output_shapes,
                ),
            }
        }
    }

    proof fn lemma_set_fault_first(
        sessions: Seq<Session>,
        mode: RuntimeMode,
        streams: LaneStreams,
        recipe: LaneRecipe,
        input_shapes: Seq<Seq<i64>>,
        output_shapes: Seq<Seq<i64>>,
        n: int,
        m: int,
    )
        requires
            0 <= n <= m,
            Self::set_fault(sessions, mode, streams, recipe, input_shapes, output_shapes, n) is Some,
        ensures
            Self::set_fault(sessions, mode, streams, recipe, input_shapes, output_shapes, m)
                == Self::set_fault(sessions, mode, streams, recipe, input_shapes, output_shapes, n),
        decreases m - n,
    {
        if n < m {
            Self::lemma_set_fault_first(
                sessions,
                mode,
                streams,
                recipe,
                input_shapes,
                output_shapes,
                n,
                m - 1,
            );
        }
    }

    /// `result` is the outcome of building `count` lanes of one recipe.
    pub open spec fn set_outcome(
        result: Result<(Self, SetCalls), Error>,
        sessions: Seq<Session>,
        mode: RuntimeMode,
        count: int,
        streams: LaneStreams,
        recipe: LaneRecipe,
        input_shapes: Seq<Seq<i64>>,
        output_shapes: Seq<Seq<i64>>,
    ) -> bool {
        match Self::set_fault(sessions, mode, streams, recipe, input_shapes, output_shapes, count) {
            Some(error) => result == Err::<(Self, SetCalls), Error>(error),
            None => {
                &&& result matches Ok((set, calls))
                &&& set.wf()
                &&& set.arrangement() == mode
                &&& set.members().len() == count
                &&& calls@.len() == count
                &&& forall|k: int|
                    0 <= k < count ==> (#[trigger] set.members()[k]).is_placed(
                        session_of(sessions, mode, k),
                        recipe,
                        streams.at(k),
                        input_shapes,
                        output_shapes,
                    )
                &&& forall|k: int|
                    0 <= k < count ==> (#[trigger] calls@[k])@ == ServingLane::<
                        I,
                        O,
                        INPUTS,
                        OUTPUTS,
                    >::place_calls(recipe)
            },
        }
    }

    fn build_set(
        sessions: LaneSessions,
        count: usize,
        streams: LaneStreams,
        recipe: LaneRecipe,
        input_shapes: [&[i64]; INPUTS],
        output_shapes: [&[i64]; OUTPUTS],
    ) -> (result: Result<(Self, SetCalls), Error>)
        requires
            count > 0,
            sessions matches LaneSessions::Replicated(own) ==> own@.len() == count,
        ensures
            Self::set_outcome(
                result,
                sessions.all(),
                sessions.mode(),
                count as int,
                streams,
                recipe,
                crate::shape::slice_shapes(input_shapes@),
                crate::shape::slice_shapes(output_shapes@),
            ),
    {
        let mut lanes: Vec<ServingLane<I, O, INPUTS, OUTPUTS>> = Vec::new();
        let mut calls: SetCalls = Vec::new();
        let ghost inputs = crate::shape::slice_shapes(input_shapes@);
        let ghost outputs = crate::shape::slice_shapes(output_shapes@);
        let ghost all = sessions.all();
        let mode: RuntimeMode = match sessions {
            LaneSessions::Shared(_) => RuntimeMode::SharedSession,
            LaneSessions::Replicated(_) => RuntimeMode::ReplicatedSessions,
        };
        let mut k: usize = 0;
        while k < count
            invariant
                k <= count,
                all == sessions.all(),
                mode == sessions.mode(),
                sessions matches LaneSessions::Replicated(own) ==> own@.len() == count,
                inputs == crate::shape::slice_shapes(input_shapes@),
                outputs == crate::shape::slice_shapes(output_shapes@),
                lanes@.len() == k,
                calls@.len() == k,
                Self::set_fault(all, mode, streams, recipe, inputs, outputs, k as int) is None,
                forall|j: int|
                    0 <= j < k ==> (#[trigger] lanes@[j]).is_placed(
                        session_of(all, mode, j),
                        recipe,
                        streams.at(j),
                        inputs,
                        outputs,
                    ),
                forall|j: int|
                    0 <= j < k ==> (#[trigger] calls@[j])@ == ServingLane::<
                        I,
                        O,
                        INPUTS,
                        OUTPUTS,
                    >::place_calls(recipe),
            decreases count - k,
        {
            let session: &Session = match sessions {
                LaneSessions::Shared(session) => session,
                LaneSessions::Replicated(own) => &own[k],
            };
            let stream: Option<CudaStream> = streams.stream(k);
            match ServingLane::<I, O, INPUTS, OUTPUTS>::place(
                session,
                recipe,
                stream,
                input_shapes,
                output_shapes,
            ) {
                Err(error) => {
                    proof {
                        Self::lemma_set_fault_first(
                            all,
                            mode,
                            streams,
                            recipe,
                            inputs,
                            outputs,
                            k + 1,
                            count as int,
                        );
                    }
                    return Err(error);
                },
                Ok((lane, lane_calls)) => {
                    lanes.push(lane);
                    calls.push(lane_calls);
                },
            }
            k = k + 1;
        }
        Ok((StaticIoRuntime { lanes, mode }, calls))
    }

    /// `result` is the outcome of building a shared-session set.
    pub open spec fn shared_outcome(
        result: Result<(Self, SetCalls), Error>,
        session: Session,
        count: int,
        streams: LaneStreams,
        recipe: LaneRecipe,
        input_shapes: Seq<Seq<i64>>,
        output_shapes: Seq<Seq<i64>>,
    ) -> bool {
        if count == 0 {
            result == Err::<(Self, SetCalls), Error>(Error::Fault(Fault::StaticWithoutLanes))
        } else {
            Self::set_outcome(
                result,
                seq![session],
                RuntimeMode::SharedSession,
                count,
                streams,
                recipe,
                input_shapes,
                output_shapes,
            )
        }
    }

    /// `result` is the outcome of building a set from replicated sessions.
    pub open spec fn replicated_outcome(
        result: Result<(Self, SetCalls), Error>,
        sessions: Seq<Session>,
        streams: LaneStreams,
        recipe: LaneRecipe,
        input_shapes: Seq<Seq<i64>>,
        output_shapes: Seq<Seq<i64>>,
    ) -> bool {
        if sessions.len() == 0 {
            result == Err::<(Self, SetCalls), Error>(Error::Fault(Fault::StaticWithoutSessions))
        } else if streams is PerLane && streams->PerLane_0@.len() != sessions.len() {
            result == Err::<(Self, SetCalls), Error>(
                Error::SessionStreamCount {
                    sessions: sessions.len() as usize,
                    streams: streams->PerLane_0@.len() as usize,
                },
            )
        } else {
            Self::set_outcome(
                result,
                sessions,
                RuntimeMode::ReplicatedSessions,
                sessions.len() as int,
                streams,
                recipe,
                input_shapes,
                output_shapes,
            )
        }
    }

    fn build_shared(
        session: &Session,
        count: usize,
        streams: LaneStreams,
        recipe: LaneRecipe,
        input_shapes: [&[i64]; INPUTS],
        output_shapes: [&[i64]; OUTPUTS],
    ) -> (result: Result<(Self, SetCalls), Error>)
        ensures
            Self::shared_outcome(
                result,
                *session,
                count as int,
                streams,
                recipe,
                crate::shape::slice_shapes(input_shapes@),
                crate::shape::slice_shapes(output_shapes@),
            ),
    {
        if count == 0 {
            return fail(Fault::StaticWithoutLanes);
        }
        Self::build_set(
            LaneSessions::Shared(session),
            count,
            streams,
            recipe,
            input_shapes,
            output_shapes,
        )
    }

    fn build_replicated(
        sessions: &[Session],
        streams: LaneStreams,
        recipe: LaneRecipe,
        input_shapes: [&[i64]; INPUTS],
        output_shapes: [&[i64]; OUTPUTS],
    ) -> (result: Result<(Self, SetCalls), Error>)
        ensures
            Self::replicated_outcome(
                result,
                sessions@,
                streams,
                recipe,
                crate::shape::slice_shapes(input_shapes@),
                crate::shape::slice_shapes(output_shapes@),
            ),
    {
        if sessions.len() == 0 {
            return fail(Fault::StaticWithoutSessions);
        }
        if let LaneStreams::PerLane(own) = streams {
            if own.len() != sessions.len() {
                return Err(
                    Error::SessionStreamCount { sessions: sessions.len(), streams: own.len() },
                );
            }
        }
        Self::build_set(
            LaneSessions::Replicated(sessions),
            sessions.len(),
            streams,
            recipe,
            input_shapes,
            output_shapes,
        )
    }

    /// A set with one shared session over host buffers.
    pub fn shared_session(
        session: &Session,
        memory: &MemoryInfo,
        input_shapes: [&[i64]; INPUTS],
        output_shapes: [&[i64]; OUTPUTS],
        lanes: usize,
    ) -> (result: Result<(Self, SetCalls), Error>)
        ensures
            Self::shared_outcome(
                result,
                *session,
                lanes as int,
                LaneStreams::Unused,
                LaneRecipe {
                    input_memory: memory,
                    output_memory: memory,
                    input_policy: BufferSpec::Auto,
                    output_policy: BufferSpec::Auto,
                    placement: Placement::Host,
                },
                crate::shape::slice_shapes(input_shapes@),
                crate::shape::slice_shapes(output_shapes@),
            ),
    {
        Self::shared_session_with_buffer_policy(
            session,
            memory,
            memory,
            input_shapes,
            output_shapes,
            lanes,
            BufferSpec::Auto,
            BufferSpec::Auto,
        )
    }

    /// A shared-session set with explicit memories and policies.
    pub fn shared_session_with_buffer_policy(
        session: &Session,
        input_memory: &MemoryInfo,
        output_memory: &MemoryInfo,
        input_shapes: [&[i64]; INPUTS],
        output_shapes: [&[i64]; OUTPUTS],
        lanes: usize,
        input_policy: BufferSpec,
        output_policy: BufferSpec,
    ) -> (result: Result<(Self, SetCalls), Error>)
        ensures
            Self::shared_outcome(
                result,
                *session,
                lanes as int,
                LaneStreams::Unused,
                LaneRecipe {
                    input_memory,
                    output_memory,
                    input_policy,
                    output_policy,
                    placement: Placement::Host,
                },
                crate::shape::slice_shapes(input_shapes@),
                crate::shape::slice_shapes(output_shapes@),
            ),
    {
        let recipe = LaneRecipe {
            input_memory,
            output_memory,
            input_policy,
            output_policy,
            placement: Placement::Host,
        };
        Self::build_shared(session, lanes, LaneStreams::Unused, recipe, input_shapes, output_shapes)
    }

    /// A set with one lane for each session, over host buffers.
    pub fn from_sessions(
        sessions: &[Session],
        memory: &MemoryInfo,
        input_shapes: [&[i64]; INPUTS],
        output_shapes: [&[i64]; OUTPUTS],
    ) -> (result: Result<(Self, SetCalls), Error>)
        ensures
            Self::replicated_outcome(
                result,
                sessions@,
                LaneStreams::Unused,
                LaneRecipe {
                    input_memory: memory,
                    output_memory: memory,
                    input_policy: BufferSpec::Auto,
                    output_policy: BufferSpec::Auto,
                    placement: Placement::Host,
                },
                crate::shape::slice_shapes(input_shapes@),
                crate::shape::slice_shapes(output_shapes@),
            ),
    {
        Self::from_sessions_with_buffer_policy(
            sessions,
            memory,
            memory,
            input_shapes,
            output_shapes,
            BufferSpec::Auto,
            BufferSpec::Auto,
        )
    }

    /// A set with one lane for each session with explicit memories and policies.
    pub fn from_sessions_with_buffer_policy(
        sessions: &[Session],
        input_memory: &MemoryInfo,
        output_memory: &MemoryInfo,
        input_shapes: [&[i64]; INPUTS],
        output_shapes: [&[i64]; OUTPUTS],
        input_policy: BufferSpec,
        output_policy: BufferSpec,
    ) -> (result: Result<(Self, SetCalls), Error>)
        ensures
            Self::replicated_outcome(
                result,
                sessions@,
                LaneStreams::Unused,
                LaneRecipe {
                    input_memory,
                    output_memory,
                    input_policy,
                    output_policy,
                    placement: Placement::Host,
                },
                crate::shape::slice_shapes(input_shapes@),
                crate::shape::slice_shapes(output_shapes@),
            ),
    {
        let recipe = LaneRecipe {
            input_memory,
            output_memory,
            input_policy,
            output_policy,
            placement: Placement::Host,
        };
        Self::build_replicated(sessions, LaneStreams::Unused, recipe, input_shapes, output_shapes)
    }

    /// A set with one lane for each borrowed session, over host buffers.
    pub fn from_session_refs(
        sessions: &[Session],
        memory: &MemoryInfo,
        input_shapes: [&[i64]; INPUTS],
        output_shapes: [&[i64]; OUTPUTS],
    ) -> (result: Result<(Self, SetCalls), Error>)
        ensures
            Self::replicated_outcome(
                result,
                sessions@,
                LaneStreams::Unused,
                LaneRecipe {
                    input_memory: memory,
                    output_memory: memory,
                    input_policy: BufferSpec::Auto,
                    output_policy: BufferSpec::Auto,
                    placement: Placement::Host,
                },
                crate::shape::slice_shapes(input_shapes@),
                crate::shape::slice_shapes(output_shapes@),
            ),
    {
        Self::from_session_refs_with_buffer_policy(
            sessions,
            memory,
            memory,
            input_shapes,
            output_shapes,
            BufferSpec::Auto,
            BufferSpec::Auto,
        )
    }

    /// A set with one lane for each borrowed session with explicit memories and policies.
    pub fn from_session_refs_with_buffer_policy(
        sessions: &[Session],
        input_memory: &MemoryInfo,
        output_memory: &MemoryInfo,
        input_shapes: [&[i64]; INPUTS],
        output_shapes: [&[i64]; OUTPUTS],
        input_policy: BufferSpec,
        output_policy: BufferSpec,
    ) -> (result: Result<(Self, SetCalls), Error>)
        ensures
            Self::replicated_outcome(
                result,
                sessions@,
                LaneStreams::Unused,
                LaneRecipe {
                    input_memory,
                    output_memory,
                    input_policy,
                    output_policy,
                    placement: Placement::Host,
                },
                crate::shape::slice_shapes(input_shapes@),
                crate::shape::slice_shapes(output_shapes@),
            ),
    {
        let recipe = LaneRecipe {
            input_memory,
            output_memory,
            input_policy,
            output_policy,
            placement: Placement::Host,
        };
        Self::build_replicated(sessions, LaneStreams::Unused, recipe, input_shapes, output_shapes)
    }

    /// A shared-session set whose lanes bind device-resident inputs.
    pub fn shared_session_with_device_inputs(
        session: &Session,
        input_memory: &MemoryInfo,
        output_memory: &MemoryInfo,
        input_shapes: [&[i64]; INPUTS],
        output_shapes: [&[i64]; OUTPUTS],
        lanes: usize,
        input_policy: BufferSpec,
        output_policy: BufferSpec,
        device_id: i32,
        stream: CudaStream,
    ) -> (result: Result<(Self, SetCalls), Error>)
        ensures
            Self::shared_outcome(
                result,
                *session,
                lanes as int,
                LaneStreams::Shared(stream),
                LaneRecipe {
                    input_memory,
                    output_memory,
                    input_policy,
                    output_policy,
                    placement: Placement::DeviceInputs(device_id),
                },
                crate::shape::slice_shapes(input_shapes@),
                crate::shape::slice_shapes(output_shapes@),
            ),
    {
        let recipe = LaneRecipe {
            input_memory,
            output_memory,
            input_policy,
            output_policy,
            placement: Placement::DeviceInputs(device_id),
        };
        Self::build_shared(session, lanes, LaneStreams::Shared(stream), recipe, input_shapes, output_shapes)
    }

    /// A shared-session set whose lanes bind device-resident inputs and outputs.
    pub fn shared_session_with_device_io(
        session: &Session,
        input_memory: &MemoryInfo,
        input_shapes: [&[i64]; INPUTS],
        output_shapes: [&[i64]; OUTPUTS],
        lanes: usize,
        input_policy: BufferSpec,
        device_id: i32,
        stream: CudaStream,
    ) -> (result: Result<(Self, SetCalls), Error>)
        ensures
            exists|host: MemoryInfo| #[trigger]
                host.is_cpu() && Self::shared_outcome(
                result,
                *session,
                lanes as int,
                LaneStreams::Shared(stream),
                LaneRecipe {
                    input_memory,
                    output_memory: &host,
                    input_policy,
                    output_policy: BufferSpec::Auto,
                    placement: Placement::DeviceIo(device_id),
                },
                crate::shape::slice_shapes(input_shapes@),
                crate::shape::slice_shapes(output_shapes@),
            ),
    {
        let host: MemoryInfo = MemoryInfo::cpu();
        let recipe = LaneRecipe {
            input_memory,
            output_memory: &host,
            input_policy,
            output_policy: BufferSpec::Auto,
            placement: Placement::DeviceIo(device_id),
        };
        let result = Self::build_shared(session, lanes, LaneStreams::Shared(stream), recipe, input_shapes, output_shapes);
        assert(host.is_cpu());
        result
    }

    /// Replicated-session lanes that bind device-resident inputs, on one stream.
    pub fn from_session_refs_with_device_inputs(
        sessions: &[Session],
        input_memory: &MemoryInfo,
        output_memory: &MemoryInfo,
        input_shapes: [&[i64]; INPUTS],
        output_shapes: [&[i64]; OUTPUTS],
        input_policy: BufferSpec,
        output_policy: BufferSpec,
        device_id: i32,
        stream: CudaStream,
    ) -> (result: Result<(Self, SetCalls), Error>)
        ensures
            Self::replicated_outcome(
                result,
                sessions@,
                LaneStreams::Shared(stream),
                LaneRecipe {
                    input_memory,
                    output_memory,
                    input_policy,
                    output_policy,
                    placement: Placement::DeviceInputs(device_id),
                },
                crate::shape::slice_shapes(input_shapes@),
                crate::shape::slice_shapes(output_shapes@),
            ),
    {
        let recipe = LaneRecipe {
            input_memory,
            output_memory,
            input_policy,
            output_policy,
            placement: Placement::DeviceInputs(device_id),
        };
        Self::build_replicated(sessions, LaneStreams::Shared(stream), recipe, input_shapes, output_shapes)
    }

    /// Replicated-session lanes that bind device-resident inputs, each on its own stream.
    pub fn from_session_refs_with_device_input_streams(
        sessions: &[Session],
        input_memory: &MemoryInfo,
        output_memory: &MemoryInfo,
        input_shapes: [&[i64]; INPUTS],
        output_shapes: [&[i64]; OUTPUTS],
        input_policy: BufferSpec,
        output_policy: BufferSpec,
        device_id: i32,
        streams: &[CudaStream],
    ) -> (result: Result<(Self, SetCalls), Error>)
        ensures
            Self::replicated_outcome(
                result,
                sessions@,
                LaneStreams::PerLane(streams),
                LaneRecipe {
                    input_memory,
                    output_memory,
                    input_policy,
                    output_policy,
                    placement: Placement::DeviceInputs(device_id),
                },
                crate::shape::slice_shapes(input_shapes@),
                crate::shape::slice_shapes(output_shapes@),
            ),
    {
        let recipe = LaneRecipe {
            input_memory,
            output_memory,
            input_policy,
            output_policy,
            placement: Placement::DeviceInputs(device_id),
        };
        Self::build_replicated(sessions, LaneStreams::PerLane(streams), recipe, input_shapes, output_shapes)
    }

    /// Replicated-session lanes that bind device-resident inputs and outputs, on one stream.
    pub fn from_session_refs_with_device_io(
        sessions: &[Session],
        input_memory: &MemoryInfo,
        input_shapes: [&[i64]; INPUTS],
        output_shapes: [&[i64]; OUTPUTS],
        input_policy: BufferSpec,
        device_id: i32,
        stream: CudaStream,
    ) -> (result: Result<(Self, SetCalls), Error>)
        ensures
            exists|host: MemoryInfo| #[trigger]
                host.is_cpu() && Self::replicated_outcome(
                result,
                sessions@,
                LaneStreams::Shared(stream),
                LaneRecipe {
                    input_memory,
                    output_memory: &host,
                    input_policy,
                    output_policy: BufferSpec::Auto,
                    placement: Placement::DeviceIo(device_id),
                },
                crate::shape::slice_shapes(input_shapes@),
                crate::shape::slice_shapes(output_shapes@),
            ),
    {
        let host: MemoryInfo = MemoryInfo::cpu();
        let recipe = LaneRecipe {
            input_memory,
            output_memory: &host,
            input_policy,
            output_policy: BufferSpec::Auto,
            placement: Placement::DeviceIo(device_id),
        };
        let result = Self::build_replicated(sessions, LaneStreams::Shared(stream), recipe, input_shapes, output_shapes);
        assert(host.is_cpu());
        result
    }

    /// Replicated-session lanes that bind device-resident inputs and outputs, each on its own stream.
    pub fn from_session_refs_with_device_io_streams(
        sessions: &[Session],
        input_memory: &MemoryInfo,
        input_shapes: [&[i64]; INPUTS],
        output_shapes: [&[i64]; OUTPUTS],
        input_policy: BufferSpec,
        device_id: i32,
        streams: &[CudaStream],
    ) -> (result: Result<(Self, SetCalls), Error>)
        ensures
            exists|host: MemoryInfo| #[trigger]
                host.is_cpu() && Self::replicated_outcome(
                result,
                sessions@,
                LaneStreams::PerLane(streams),
                LaneRecipe {
                    input_memory,
                    output_memory: &host,
                    input_policy,
                    output_policy: BufferSpec::Auto,
                    placement: Placement::DeviceIo(device_id),
                },
                crate::shape::slice_shapes(input_shapes@),
                crate::shape::slice_shapes(output_shapes@),
            ),
    {
        let host: MemoryInfo = MemoryInfo::cpu();
        let recipe = LaneRecipe {
            input_memory,
            output_memory: &host,
            input_policy,
            output_policy: BufferSpec::Auto,
            placement: Placement::DeviceIo(device_id),
        };
        let result = Self::build_replicated(sessions, LaneStreams::PerLane(streams), recipe, input_shapes, output_shapes);
        assert(host.is_cpu());
        result
    }

    /// A set from what a session factory made of `lanes` requests, over host buffers.
    pub fn from_session_factory(
        lanes: usize,
        made: Result<Vec<Session>, Error>,
        memory: &MemoryInfo,
        input_shapes: [&[i64]; INPUTS],
        output_shapes: [&[i64]; OUTPUTS],
    ) -> (result: Result<(Self, SetCalls), Error>)
        requires
            made matches Ok(sessions) ==> sessions@.len() == lanes,
        ensures
            if lanes == 0 {
                result == Err::<(Self, SetCalls), Error>(Error::Fault(Fault::StaticWithoutLanes))
            } else {
                match made {
                    Err(error) => result == Err::<(Self, SetCalls), Error>(error),
                    Ok(sessions) => Self::replicated_outcome(
                            result,
                            sessions@,
                            LaneStreams::Unused,
                            LaneRecipe {
                                input_memory: memory,
                                output_memory: memory,
                                input_policy: BufferSpec::Auto,
                                output_policy: BufferSpec::Auto,
                                placement: Placement::Host,
                            },
                            crate::shape::slice_shapes(input_shapes@),
                            crate::shape::slice_shapes(output_shapes@),
                        ),
                }
            },
    {
        Self::from_session_factory_with_buffer_policy(
            lanes,
            made,
            memory,
            memory,
            input_shapes,
            output_shapes,
            BufferSpec::Auto,
            BufferSpec::Auto,
        )
    }

    /// A set from what a session factory made of `lanes` requests, with explicit memories and
    /// policies.
    pub fn from_session_factory_with_buffer_policy(
        lanes: usize,
        made: Result<Vec<Session>, Error>,
        input_memory: &MemoryInfo,
        output_memory: &MemoryInfo,
        input_shapes: [&[i64]; INPUTS],
        output_shapes: [&[i64]; OUTPUTS],
        input_policy: BufferSpec,
        output_policy: BufferSpec,
    ) -> (result: Result<(Self, SetCalls), Error>)
        requires
            made matches Ok(sessions) ==> sessions@.len() == lanes,
        ensures
            if lanes == 0 {
                result == Err::<(Self, SetCalls), Error>(Error::Fault(Fault::StaticWithoutLanes))
            } else {
                match made {
                    Err(error) => result == Err::<(Self, SetCalls), Error>(error),
                    Ok(sessions) => Self::replicated_outcome(
                            result,
                            sessions@,
                            LaneStreams::Unused,
                            LaneRecipe {
                                input_memory,
                                output_memory,
                                input_policy,
                                output_policy,
                                placement: Placement::Host,
                            },
                            crate::shape::slice_shapes(input_shapes@),
                            crate::shape::slice_shapes(output_shapes@),
                        ),
                }
            },
    {
        if lanes == 0 {
            return fail(Fault::StaticWithoutLanes);
        }
        match made {
            Err(error) => Err(error),
            Ok(sessions) => {
                Self::from_sessions_with_buffer_policy(
                    sessions.as_slice(),
                    input_memory,
                    output_memory,
                    input_shapes,
                    output_shapes,
                    input_policy,
                    output_policy,
                )
            },
        }
    }

    /// The number of lanes.
    pub fn len(&self) -> (len: usize)
        ensures
            len == self.members().len(),
    {
        self.lanes.len()
    }

    /// Whether there is no lane.
    pub fn is_empty(&self) -> (empty: bool)
        ensures
            empty == (self.members().len() == 0),
    {
        self.lanes.len() == 0
    }

    /// How the sessions are arranged.
    pub fn session_mode(&self) -> (mode: RuntimeMode)
        ensures
            mode == self.arrangement(),
    {
        self.mode
    }

    /// The lanes.
    pub fn lanes(&self) -> (lanes: &[ServingLane<I, O, INPUTS, OUTPUTS>])
        ensures
            lanes@ == self.members(),
    {
        self.lanes.as_slice()
    }

    /// The lanes, to be run.
    pub fn lanes_mut(&mut self) -> (lanes: &mut [ServingLane<I, O, INPUTS, OUTPUTS>])
        ensures
            lanes@ == old(self).members(),
            final(self).members() == final(lanes)@,
            final(self).arrangement() == old(self).arrangement(),
    {
        self.lanes.as_mut_slice()
    }

    /// One lane.
    pub fn lane(&self, i: usize) -> (lane: Result<&ServingLane<I, O, INPUTS, OUTPUTS>, Error>)
        ensures
            lane == (if i < self.members().len() {
                Ok::<&ServingLane<I, O, INPUTS, OUTPUTS>, Error>(&self.members()[i as int])
            } else {
                Err(Error::IndexOutOfRange { what: Slot::StaticLane, index: i })
            }),
    {
        if i < self.lanes.len() {
            Ok(&self.lanes[i])
        } else {
            Err(Error::IndexOutOfRange { what: Slot::StaticLane, index: i })
        }
    }

    /// One lane, to be run.
    pub fn lane_mut(&mut self, i: usize) -> (lane: Result<
        &mut ServingLane<I, O, INPUTS, OUTPUTS>,
        Error,
    >)
        ensures
            final(self).arrangement() == old(self).arrangement(),
            if i < old(self).members().len() {
                &&& lane is Ok
                &&& *(lane->Ok_0) == old(self).members()[i as int]
                &&& final(self).members() == old(self).members().update(
                    i as int,
                    *final(lane->Ok_0),
                )
            } else {
                &&& lane is Err
                &&& lane->Err_0 == (Error::IndexOutOfRange { what: Slot::StaticLane, index: i })
                &&& *final(self) == *old(self)
            },
    {
        if i < self.lanes.len() {
            Ok(&mut self.lanes[i])
        } else {
            Err(Error::IndexOutOfRange { what: Slot::StaticLane, index: i })
        }
    }

    /// Give the lanes away.
    pub fn into_lanes(self) -> (lanes: Vec<ServingLane<I, O, INPUTS, OUTPUTS>>)
        ensures
            lanes@ == self.members(),
    {
        self.lanes
    }

    /// `lane` is `before` with its inputs bound anew before every run, or not.
    pub open spec fn rebinds(
        lane: ServingLane<I, O, INPUTS, OUTPUTS>,
        before: ServingLane<I, O, INPUTS, OUTPUTS>,
        enabled: bool,
    ) -> bool {
        &&& lane.wf()
        &&& lane.same_parts(before)
        &&& lane.pending_failure() == before.pending_failure()
        &&& lane.lane_state() == (LaneState {
            rebind_inputs_each_run: enabled,
            ..before.lane_state()
        })
    }

    /// Choose for every lane whether its inputs are bound anew before every run.
    pub fn set_rebind_inputs_each_run(&mut self, enabled: bool)
        requires
            old(self).wf(),
        ensures
            final(self).wf(),
            final(self).arrangement() == old(self).arrangement(),
            final(self).members().len() == old(self).members().len(),
            forall|k: int|
                0 <= k < final(self).members().len() ==> Self::rebinds(
                    #[trigger] final(self).members()[k],
                    old(self).members()[k],
                    enabled,
                ),
    {
        let mut k: usize = 0;
        while k < self.lanes.len()
            invariant
                k <= self.lanes@.len(),
                old(self).wf(),
                self.wf(),
                self.mode == old(self).mode,
                self.lanes@.len() == old(self).members().len(),
                forall|j: int|
                    0 <= j < k ==> Self::rebinds(
                        #[trigger] self.lanes@[j],
                        old(self).members()[j],
                        enabled,
                    ),
                forall|j: int|
                    k <= j < self.lanes@.len() ==> #[trigger] self.lanes@[j]
                        == old(self).members()[j],
            decreases self.lanes@.len() - k,
        {
            assert(self.members()[k as int].wf());
            self.lanes[k].set_rebind_inputs_each_run(enabled);
            k = k + 1;
        }
    }

    /// Why an annotation cannot be assigned to one of the first `n` lanes.
    pub open spec fn assign_fault(
        lanes: Seq<ServingLane<I, O, INPUTS, OUTPUTS>>,
        n: int,
    ) -> Option<Error>
        decreases n,
    {
        if n <= 0 {
            None
        } else {
            match Self::assign_fault(lanes, n - 1) {
                Some(error) => Some(error),
                None => lanes[n - 1].graph_id_fault(Ok(())),
            }
        }
    }

    proof fn lemma_assign_fault_first(
        lanes: Seq<ServingLane<I, O, INPUTS, OUTPUTS>>,
        n: int,
        m: int,
    )
        requires
            0 <= n <= m,
            Self::assign_fault(lanes, n) is Some,
        ensures
            Self::assign_fault(lanes, m) == Self::assign_fault(lanes, n),
        decreases m - n,
    {
        if n < m {
            Self::lemma_assign_fault_first(lanes, n, m - 1);
        }
    }

    proof fn lemma_assign_fault_none(
        lanes: Seq<ServingLane<I, O, INPUTS, OUTPUTS>>,
        n: int,
        k: int,
    )
        requires
            0 <= k < n,
            Self::assign_fault(lanes, n) is None,
        ensures
            lanes[k].graph_id_fault(Ok(())) is None,
        decreases n,
    {
        if k < n - 1 {
            Self::lemma_assign_fault_none(lanes, n - 1, k);
        }
    }

    /// `lane` is `before` with a captured-graph annotation.
    pub open spec fn annotated(
        lane: ServingLane<I, O, INPUTS, OUTPUTS>,
        before: ServingLane<I, O, INPUTS, OUTPUTS>,
        id: i32,
    ) -> bool {
        &&& lane.wf()
        &&& lane.at_rest()
        &&& lane.same_parts(before)
        &&& lane.lane_state() == before.with_graph_id(id)
    }

    /// Assign every lane the same captured-graph annotation. Every lane is checked before any is
    /// changed. `refused` is the first lane whose run options the engine did not take; only the
    /// lanes before it are changed then.
    pub fn set_gpu_graph_id(&mut self, id: i32, refused: Option<(usize, Error)>) -> (result: Result<
        (),
        Error,
    >)
        requires
            old(self).wf(),
            refused matches Some((lane, _)) ==> lane < old(self).members().len(),
        ensures
            final(self).wf(),
            final(self).arrangement() == old(self).arrangement(),
            final(self).members().len() == old(self).members().len(),
            match Self::assign_fault(old(self).members(), old(self).members().len() as int) {
                Some(error) => *final(self) == *old(self) && result == Err::<(), Error>(error),
                None => {
                    let changed = match refused {
                        Some((lane, _)) => lane as int,
                        None => old(self).members().len() as int,
                    };
                    &&& forall|k: int|
                        0 <= k < changed ==> Self::annotated(
                            #[trigger] final(self).members()[k],
                            old(self).members()[k],
                            id,
                        )
                    &&& forall|k: int|
                        changed <= k < final(self).members().len()
                            ==> #[trigger] final(self).members()[k] == old(self).members()[k]
                    &&& match refused {
                        Some((_, error)) => result == Err::<(), Error>(error),
                        None => result is Ok,
                    }
                },
            },
    {
        let count: usize = self.lanes.len();
        let mut k: usize = 0;
        while k < count
            invariant
                k <= count,
                old(self).wf(),
                *self == *old(self),
                count == self.lanes@.len(),
                Self::assign_fault(old(self).members(), k as int) is None,
            decreases count - k,
        {
            let checked: Result<(), Error> = match self.lanes[k].ensure_idle() {
                Err(error) => Err(error),
                Ok(()) => self.lanes[k].ensure_graph_id_assignable(),
            };
            if let Err(error) = checked {
                proof {
                    Self::lemma_assign_fault_first(old(self).members(), k + 1, count as int);
                }
                return Err(error);
            }
            k = k + 1;
        }
        let (stop, failure): (usize, Option<Error>) = match refused {
            Some((lane, error)) => (lane, Some(error)),
            None => (count, None),
        };
        k = 0;
        while k < stop
            invariant
                k <= stop <= count,
                count == self.lanes@.len(),
                count == old(self).members().len(),
                old(self).wf(),
                self.wf(),
                self.mode == old(self).mode,
                Self::assign_fault(old(self).members(), count as int) is None,
                forall|j: int|
                    0 <= j < k ==> Self::annotated(
                        #[trigger] self.lanes@[j],
                        old(self).members()[j],
                        id,
                    ),
                forall|j: int|
                    k <= j < self.lanes@.len() ==> #[trigger] self.lanes@[j]
                        == old(self).members()[j],
            decreases stop - k,
        {
            proof {
                Self::lemma_assign_fault_none(old(self).members(), count as int, k as int);
                assert(self.members()[k as int].wf());
            }
            match self.lanes[k].set_gpu_graph_id(id, Ok(())) {
                Ok(()) => {},
                Err(error) => {
                    assert(false);
                },
            }
            k = k + 1;
        }
        assert(self.members() =~= self.lanes@);
        match failure {
            Some(error) => Err(error),
            None => Ok(()),
        }
    }

    /// The addresses of a set's buffers are as many as its lanes and their buffers.
    pub open spec fn addresses_fit(self, addresses: Seq<LaneAddresses>) -> bool {
        &&& addresses.len() == self.members().len()
        &&& forall|k: int|
            0 <= k < addresses.len() ==> (#[trigger] addresses[k]).inputs@.len() == INPUTS
                && addresses[k].outputs@.len() == OUTPUTS
    }

    /// Snapshots of all lanes, or the first failure.
    pub fn audit_hot_path(&self, addresses: &[LaneAddresses]) -> (result: Result<
        Vec<LaneHotPathAudit>,
        Error,
    >)
        requires
            self.wf(),
            self.addresses_fit(addresses@),
        ensures
            audits_of(result, self.members(), addresses@),
    {
        audit_lanes(&self.lanes, addresses)
    }

    /// Check that the engine reads and writes every lane's own host memory.
    pub fn assert_zero_copy_plan(&self, addresses: &[LaneAddresses]) -> (result: Result<(), Error>)
        requires
            self.wf(),
            self.addresses_fit(addresses@),
        ensures
            match set_zero_copy_fault(self.members(), addresses@, self.members().len() as int) {
                Some(error) => result == Err::<(), Error>(error),
                None => result is Ok,
            },
    {
        assert_lanes_zero_copy(&self.lanes, addresses)
    }
}

/// `result` is the outcome of snapshots of lanes: all of them, or the first failure.
pub open spec fn audits_of<
    I: TensorElement,
    O: TensorElement,
    const INPUTS: usize,
    const OUTPUTS: usize,
>(
    result: Result<Vec<LaneHotPathAudit>, Error>,
    lanes: Seq<ServingLane<I, O, INPUTS, OUTPUTS>>,
    addresses: Seq<LaneAddresses>,
) -> bool {
    match result {
        Ok(audits) => {
            &&& audits@.len() == lanes.len()
            &&& forall|k: int|
                0 <= k < lanes.len() ==> lanes[k].audited(
                    Ok(#[trigger] audits@[k]),
                    addresses[k].inputs@,
                    addresses[k].outputs@,
                )
        },
        Err(error) => exists|k: int|
            0 <= k < lanes.len() && (#[trigger] lanes[k]).audited(
                Err(error),
                addresses[k].inputs@,
                addresses[k].outputs@,
            ) && forall|j: int|
                0 <= j < k ==> (#[trigger] lanes[j]).auditable(
                    addresses[j].inputs@,
                    addresses[j].outputs@,
                ),
    }
}

/// Snapshots of lanes, or the first failure.
pub fn audit_lanes<
    I: TensorElement,
    O: TensorElement,
    const INPUTS: usize,
    const OUTPUTS: usize,
>(lanes: &Vec<ServingLane<I, O, INPUTS, OUTPUTS>>, addresses: &[LaneAddresses]) -> (result: Result<
    Vec<LaneHotPathAudit>,
    Error,
>)
    requires
        forall|k: int| 0 <= k < lanes@.len() ==> (#[trigger] lanes@[k]).wf(),
        addresses@.len() == lanes@.len(),
        forall|k: int|
            0 <= k < addresses@.len() ==> (#[trigger] addresses@[k]).inputs@.len() == INPUTS
                && addresses@[k].outputs@.len() == OUTPUTS,
    ensures
        audits_of(result, lanes@, addresses@),
{
    let mut audits: Vec<LaneHotPathAudit> = Vec::new();
    let mut k: usize = 0;
    while k < lanes.len()
        invariant
            k <= lanes@.len(),
            audits@.len() == k,
            forall|j: int| 0 <= j < lanes@.len() ==> (#[trigger] lanes@[j]).wf(),
            addresses@.len() == lanes@.len(),
            forall|j: int|
                0 <= j < addresses@.len() ==> (#[trigger] addresses@[j]).inputs@.len() == INPUTS
                    && addresses@[j].outputs@.len() == OUTPUTS,
            forall|j: int|
                0 <= j < k ==> lanes@[j].audited(
                    Ok(#[trigger] audits@[j]),
                    addresses@[j].inputs@,
                    addresses@[j].outputs@,
                ),
        decreases lanes@.len() - k,
    {
        assert(lanes@[k as int].wf());
        match lanes[k].audit_hot_path(
            addresses[k].inputs.as_slice(),
            addresses[k].outputs.as_slice(),
        ) {
            Err(error) => {
                assert forall|j: int| 0 <= j < k implies (#[trigger] lanes@[j]).auditable(
                    addresses@[j].inputs@,
                    addresses@[j].outputs@,
                ) by {
                    assert(lanes@[j].audited(
                        Ok(audits@[j]),
                        addresses@[j].inputs@,
                        addresses@[j].outputs@,
                    ));
                }
                return Err(error);
            },
            Ok(audit) => {
                audits.push(audit);
            },
        }
        k = k + 1;
    }
    Ok(audits)
}

/// Why the engine does not read and write the own host memory of one of the first `n` lanes.
pub open spec fn set_zero_copy_fault<
    I: TensorElement,
    O: TensorElement,
    const INPUTS: usize,
    const OUTPUTS: usize,
>(
    lanes: Seq<ServingLane<I, O, INPUTS, OUTPUTS>>,
    addresses: Seq<LaneAddresses>,
    n: int,
) -> Option<Error>
    decreases n,
{
    if n <= 0 {
        None
    } else {
        match set_zero_copy_fault(lanes, addresses, n - 1) {
            Some(error) => Some(error),
            None => lanes[n - 1].zero_copy_fault(
                addresses[n - 1].inputs@,
                addresses[n - 1].outputs@,
            ),
        }
    }
}

proof fn lemma_set_zero_copy_first<
    I: TensorElement,
    O: TensorElement,
    const INPUTS: usize,
    const OUTPUTS: usize,
>(
    lanes: Seq<ServingLane<I, O, INPUTS, OUTPUTS>>,
    addresses: Seq<LaneAddresses>,
    n: int,
    m: int,
)
    requires
        0 <= n <= m,
        set_zero_copy_fault(lanes, addresses, n) is Some,
    ensures
        set_zero_copy_fault(lanes, addresses, m) == set_zero_copy_fault(lanes, addresses, n),
    decreases m - n,
{
    if n < m {
        lemma_set_zero_copy_first(lanes, addresses, n, m - 1);
    }
}

/// Check that the engine reads and writes every lane's own host memory.
pub fn assert_lanes_zero_copy<
    I: TensorElement,
    O: TensorElement,
    const INPUTS: usize,
    const OUTPUTS: usize,
>(lanes: &Vec<ServingLane<I, O, INPUTS, OUTPUTS>>, addresses: &[LaneAddresses]) -> (result: Result<
    (),
    Error,
>)
    requires
        forall|k: int| 0 <= k < lanes@.len() ==> (#[trigger] lanes@[k]).wf(),
        addresses@.len() == lanes@.len(),
        forall|k: int|
            0 <= k < addresses@.len() ==> (#[trigger] addresses@[k]).inputs@.len() == INPUTS
                && addresses@[k].outputs@.len() == OUTPUTS,
    ensures
        match set_zero_copy_fault(lanes@, addresses@, lanes@.len() as int) {
            Some(error) => result == Err::<(), Error>(error),
            None => result is Ok,
        },
{
    let mut k: usize = 0;
    while k < lanes.len()
        invariant
            k <= lanes@.len(),
            forall|j: int| 0 <= j < lanes@.len() ==> (#[trigger] lanes@[j]).wf(),
            addresses@.len() == lanes@.len(),
            forall|j: int|
                0 <= j < addresses@.len() ==> (#[trigger] addresses@[j]).inputs@.len() == INPUTS
                    && addresses@[j].outputs@.len() == OUTPUTS,
            set_zero_copy_fault(lanes@, addresses@, k as int) is None,
        decreases lanes@.len() - k,
    {
        assert(lanes@[k as int].wf());
        match lanes[k].assert_zero_copy_plan(
            addresses[k].inputs.as_slice(),
            addresses[k].outputs.as_slice(),
        ) {
            Err(error) => {
                proof {
                    lemma_set_zero_copy_first(lanes@, addresses@, k + 1, lanes@.len() as int);
                }
                return Err(error);
            },
            Ok(()) => {},
        }
        k = k + 1;
    }
    Ok(())
}

/// A set of `n` lanes whose annotations can be assigned is annotated as a whole or not at all,
/// unless the engine refuses run options: no lane's own state can stop the assignment halfway.
pub proof fn annotation_is_all_or_nothing<
    I: TensorElement,
    O: TensorElement,
    const INPUTS: usize,
    const OUTPUTS: usize,
>(lanes: Seq<ServingLane<I, O, INPUTS, OUTPUTS>>, k: int)
    requires
        0 <= k < lanes.len(),
    ensures
        StaticIoRuntime::<I, O, INPUTS, OUTPUTS>::assign_fault(lanes, lanes.len() as int) is None
            ==> lanes[k].graph_id_fault(Ok(())) is None,
        lanes[k].graph_id_fault(Ok(())) is Some ==> StaticIoRuntime::<
            I,
            O,
            INPUTS,
            OUTPUTS,
        >::assign_fault(lanes, lanes.len() as int) is Some,
{
    if StaticIoRuntime::<I, O, INPUTS, OUTPUTS>::assign_fault(lanes, lanes.len() as int) is None {
        StaticIoRuntime::<I, O, INPUTS, OUTPUTS>::lemma_assign_fault_none(
            lanes,
            lanes.len() as int,
            k,
        );
    }
}

} // verus!
