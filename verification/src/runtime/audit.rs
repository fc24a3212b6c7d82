//! Diagnostics: how a lane's buffers are placed, and how long its phases took.
use vstd::prelude::*;

use crate::element::{ElementType, TensorElement};
use crate::error::{Error, Slot};
use crate::memory::MemoryInfo;
use crate::tensor::buffer::TensorBuffer;

verus! {

/// One side of a session interface.
#[derive(Debug, Clone, Copy, PartialEq, Eq, Structural)]
pub enum IoDirection {
    Input,
    Output,
}

/// Where one lane buffer lies and whether the engine sees the very same memory.
#[derive(Debug, PartialEq, Eq)]
pub struct TensorBufferAudit {
    pub direction: IoDirection,
    pub index: usize,
    pub element_type: ElementType,
    pub element_count: usize,
    pub byte_len: usize,
    pub rust_ptr: usize,
    pub ort_ptr: usize,
    pub pointer_identity: bool,
    pub memory_info: MemoryInfo,
}

/// The buffers of one lane and how they are bound.
#[derive(Debug, PartialEq, Eq)]
pub struct LaneHotPathAudit {
    pub input_count: usize,
    pub output_count: usize,
    pub rebind_inputs_each_run: bool,
    pub input_names_cached: bool,
    pub inputs: Vec<TensorBufferAudit>,
    pub outputs: Vec<TensorBufferAudit>,
}

/// Addresses of one buffer: its own, and the one that the engine reports.
#[derive(Debug, Clone, Copy, PartialEq, Eq, Structural)]
pub struct BufferAddress {
    pub rust_ptr: usize,
    pub ort_ptr: usize,
}

impl TensorBufferAudit {
    /// This is the audit of a buffer at an address.
    pub open spec fn describes<T: TensorElement>(
        self,
        direction: IoDirection,
        index: usize,
        buffer: TensorBuffer<T>,
        address: BufferAddress,
    ) -> bool {
        &&& self.direction == direction
        &&& self.index == index
        &&& self.element_type == T::spec_elem()
        &&& self.element_count == buffer@.len()
        &&& self.byte_len == buffer@.len() * T::spec_size()
        &&& self.rust_ptr == address.rust_ptr
        &&& self.ort_ptr == address.ort_ptr
        &&& self.pointer_identity == (address.rust_ptr == address.ort_ptr)
        &&& self.memory_info == buffer.spec_memory()
    }
}

/// `result` is the outcome of auditing a buffer: its byte length may not fit.
pub open spec fn audit_outcome<T: TensorElement>(
    result: Result<TensorBufferAudit, Error>,
    direction: IoDirection,
    index: usize,
    buffer: TensorBuffer<T>,
    address: BufferAddress,
) -> bool {
    if buffer@.len() * T::spec_size() <= usize::MAX {
        result matches Ok(audit) && audit.describes(direction, index, buffer, address)
    } else {
        result == Err::<TensorBufferAudit, Error>(
            Error::Fault(crate::error::Fault::BufferBytesOverflow),
        )
    }
}

/// Audit one buffer.
pub fn audit_tensor_buffer<T: TensorElement>(
    direction: IoDirection,
    index: usize,
    buffer: &TensorBuffer<T>,
    address: BufferAddress,
) -> (result: Result<TensorBufferAudit, Error>)
    ensures
        audit_outcome(result, direction, index, *buffer, address),
{
    let byte_len: usize = match buffer.byte_len() {
        Err(error) => {
            return Err(error);
        },
        Ok(bytes) => bytes,
    };
    Ok(
        TensorBufferAudit {
            direction,
            index,
            element_type: T::elem(),
            element_count: buffer.len(),
            byte_len,
            rust_ptr: address.rust_ptr,
            ort_ptr: address.ort_ptr,
            pointer_identity: address.rust_ptr == address.ort_ptr,
            memory_info: buffer.memory_info().try_clone_descriptor(),
        },
    )
}

/// Why a buffer is not read in place by the engine.
pub open spec fn zero_copy_fault<T: TensorElement>(
    what: Slot,
    index: usize,
    buffer: TensorBuffer<T>,
    address: BufferAddress,
) -> Option<Error> {
    if buffer@.len() * T::spec_size() > usize::MAX {
        Some(Error::Fault(crate::error::Fault::BufferBytesOverflow))
    } else if address.rust_ptr != address.ort_ptr {
        Some(
            Error::NotZeroCopy {
                what,
                index,
                rust_ptr: address.rust_ptr,
                ort_ptr: address.ort_ptr,
            },
        )
    } else if !buffer.spec_memory().host_accessible {
        Some(Error::LaneMemoryNotHost { what, index, memory: buffer.spec_memory() })
    } else {
        None
    }
}

/// Check that the engine reads a buffer in place.
pub fn assert_tensor_buffer_zero_copy<T: TensorElement>(
    what: Slot,
    index: usize,
    buffer: &TensorBuffer<T>,
    address: BufferAddress,
) -> (result: Result<(), Error>)
    ensures
        match zero_copy_fault(what, index, *buffer, address) {
            Some(error) => result == Err::<(), Error>(error),
            None => result is Ok,
        },
{
    let audit: TensorBufferAudit = match audit_tensor_buffer(
        IoDirection::Input,
        index,
        buffer,
        address,
    ) {
        Err(error) => {
            return Err(error);
        },
        Ok(audit) => audit,
    };
    if !audit.pointer_identity {
        return Err(
            Error::NotZeroCopy {
                what,
                index,
                rust_ptr: audit.rust_ptr,
                ort_ptr: audit.ort_ptr,
            },
        );
    }
    if !audit.memory_info.is_host_accessible() {
        return Err(Error::LaneMemoryNotHost { what, index, memory: audit.memory_info });
    }
    Ok(())
}

/// `result` is the outcome of auditing the buffers of one side.
pub open spec fn audits_outcome<T: TensorElement>(
    result: Result<Vec<TensorBufferAudit>, Error>,
    direction: IoDirection,
    buffers: Seq<TensorBuffer<T>>,
    addresses: Seq<BufferAddress>,
) -> bool {
    if forall|i: int|
        0 <= i < buffers.len() ==> (#[trigger] buffers[i])@.len() * T::spec_size() <= usize::MAX {
        &&& result matches Ok(audits)
        &&& audits@.len() == buffers.len()
        &&& forall|i: int|
            0 <= i < audits@.len() ==> (#[trigger] audits@[i]).describes(
                direction,
                i as usize,
                buffers[i],
                addresses[i],
            )
    } else {
        result == Err::<Vec<TensorBufferAudit>, Error>(
            Error::Fault(crate::error::Fault::BufferBytesOverflow),
        )
    }
}

/// Audit the buffers of one side.
pub fn audit_buffers<T: TensorElement>(
    direction: IoDirection,
    buffers: &Vec<TensorBuffer<T>>,
    addresses: &[BufferAddress],
) -> (result: Result<Vec<TensorBufferAudit>, Error>)
    requires
        addresses@.len() == buffers@.len(),
    ensures
        audits_outcome(result, direction, buffers@, addresses@),
{
    let mut audits: Vec<TensorBufferAudit> = Vec::new();
    let mut i: usize = 0;
    while i < buffers.len()
        invariant
            0 <= i <= buffers.len(),
            addresses@.len() == buffers@.len(),
            audits@.len() == i,
            forall|k: int|
                0 <= k < i ==> {
                    &&& (#[trigger] audits@[k]).describes(
                        direction,
                        k as usize,
                        buffers@[k],
                        addresses@[k],
                    )
                    &&& buffers@[k]@.len() * T::spec_size() <= usize::MAX
                },
        decreases buffers.len() - i,
    {
        match audit_tensor_buffer(direction, i, &buffers[i], addresses[i]) {
            Err(error) => {
                assert(buffers@[i as int]@.len() * T::spec_size() > usize::MAX);
                return Err(error);
            },
            Ok(audit) => {
                audits.push(audit);
            },
        }
        i = i + 1;
    }
    proof {
        assert forall|k: int| 0 <= k < buffers@.len() implies (#[trigger] buffers@[k])@.len()
            * T::spec_size() <= usize::MAX by {
            assert(audits@[k].describes(direction, k as usize, buffers@[k], addresses@[k]));
        }
    }
    Ok(audits)
}

/// The first buffer that the engine does not read in place, as the failure it means.
pub open spec fn side_zero_copy_fault<T: TensorElement>(
    what: Slot,
    buffers: Seq<TensorBuffer<T>>,
    addresses: Seq<BufferAddress>,
    n: int,
) -> Option<Error>
    decreases n,
{
    if n <= 0 {
        None
    } else {
        match side_zero_copy_fault(what, buffers, addresses, n - 1) {
            Some(error) => Some(error),
            None => zero_copy_fault(what, (n - 1) as usize, buffers[n - 1], addresses[n - 1]),
        }
    }
}

proof fn lemma_side_zero_copy_first<T: TensorElement>(
    what: Slot,
    buffers: Seq<TensorBuffer<T>>,
    addresses: Seq<BufferAddress>,
    n: int,
    m: int,
)
    requires
        0 <= n <= m,
        side_zero_copy_fault(what, buffers, addresses, n) is Some,
    ensures
        side_zero_copy_fault(what, buffers, addresses, m) == side_zero_copy_fault(
            what,
            buffers,
            addresses,
            n,
        ),
    decreases m - n,
{
    if n < m {
        lemma_side_zero_copy_first(what, buffers, addresses, n, m - 1);
    }
}

/// Check that the engine reads every buffer of one side in place.
pub fn assert_side_zero_copy<T: TensorElement>(
    what: Slot,
    buffers: &Vec<TensorBuffer<T>>,
    addresses: &[BufferAddress],
) -> (result: Result<(), Error>)
    requires
        addresses@.len() == buffers@.len(),
    ensures
        match side_zero_copy_fault(what, buffers@, addresses@, buffers@.len() as int) {
            Some(error) => result == Err::<(), Error>(error),
            None => result is Ok,
        },
{
    let mut i: usize = 0;
    while i < buffers.len()
        invariant
            0 <= i <= buffers.len(),
            addresses@.len() == buffers@.len(),
            side_zero_copy_fault(what, buffers@, addresses@, i as int) is None,
        decreases buffers.len() - i,
    {
        match assert_tensor_buffer_zero_copy(what, i, &buffers[i], addresses[i]) {
            Err(error) => {
                proof {
                    lemma_side_zero_copy_first(
                        what,
                        buffers@,
                        addresses@,
                        i + 1,
                        buffers@.len() as int,
                    );
                }
                return Err(error);
            },
            Ok(()) => {},
        }
        i = i + 1;
    }
    Ok(())
}

/// Nanoseconds that the phases of one lane run took.
#[derive(Debug, Clone, Copy, PartialEq, Eq, Structural)]
pub struct StaticIoRunTimings {
    pub rebind_inputs: u64,
    pub device_input_refresh: u64,
    pub ort_run: u64,
    pub bound_input_sync: u64,
    pub run_with_binding: u64,
    pub bound_output_sync: u64,
    pub total: u64,
}

impl StaticIoRunTimings {
    /// The timings of an event-fenced run: no bound input was synchronized, and the run is its
    /// launch and the wait for its event.
    pub fn event_profiled(
        device_input_refresh: u64,
        run_with_binding: u64,
        completion_event_sync: u64,
        total: u64,
    ) -> (timings: StaticIoRunTimings)
        requires
            run_with_binding + completion_event_sync <= u64::MAX,
        ensures
            timings == (StaticIoRunTimings {
                rebind_inputs: 0,
                device_input_refresh,
                ort_run: (run_with_binding + completion_event_sync) as u64,
                bound_input_sync: 0,
                run_with_binding,
                bound_output_sync: completion_event_sync,
                total,
            }),
    {
        StaticIoRunTimings {
            rebind_inputs: 0,
            device_input_refresh,
            ort_run: run_with_binding + completion_event_sync,
            bound_input_sync: 0,
            run_with_binding,
            bound_output_sync: completion_event_sync,
            total,
        }
    }
}

} // verus!
