//! Where tensor memory lies.
use vstd::prelude::*;

verus! {

/// The allocator that a memory descriptor names.
#[derive(Debug, Clone, Copy, PartialEq, Eq, Structural)]
pub enum AllocatorType {
    Device,
    Arena,
}

impl AllocatorType {
    /// The name of the allocator type.
    pub open spec fn spec_text(self) -> Seq<char> {
        match self {
            AllocatorType::Device => "Device"@,
            AllocatorType::Arena => "Arena"@,
        }
    }

    /// The name of the allocator type.
    pub fn text(&self) -> (text: &'static str)
        ensures
            text@ == self.spec_text(),
    {
        match self {
            AllocatorType::Device => "Device",
            AllocatorType::Arena => "Arena",
        }
    }
}

/// The use that a memory descriptor is for.
#[derive(Debug, Clone, Copy, PartialEq, Eq, Structural)]
pub enum MemType {
    CpuInput,
    CpuOutput,
    Default,
}

impl MemType {
    /// The name of the memory type.
    pub open spec fn spec_text(self) -> Seq<char> {
        match self {
            MemType::CpuInput => "CpuInput"@,
            MemType::CpuOutput => "CpuOutput"@,
            MemType::Default => "Default"@,
        }
    }

    /// The name of the memory type.
    pub fn text(&self) -> (text: &'static str)
        ensures
            text@ == self.spec_text(),
    {
        match self {
            MemType::CpuInput => "CpuInput",
            MemType::CpuOutput => "CpuOutput",
            MemType::Default => "Default",
        }
    }
}

/// A memory descriptor, as the engine reports it.
#[derive(Debug, PartialEq, Eq)]
pub struct MemoryInfo {
    pub name: String,
    pub device_id: i32,
    pub alloc_type: AllocatorType,
    pub mem_type: MemType,
    /// Whether the host may read and write the memory directly.
    pub host_accessible: bool,
}

impl MemoryInfo {
    /// Whether this is a descriptor of ordinary host memory.
    pub open spec fn is_cpu(self) -> bool {
        &&& self.name@ == "Cpu"@
        &&& self.device_id == 0
        &&& self.alloc_type == AllocatorType::Arena
        &&& self.mem_type == MemType::Default
        &&& self.host_accessible
    }

    /// The descriptor of ordinary host memory.
    pub fn cpu() -> (memory: MemoryInfo)
        ensures
            memory.is_cpu(),
    {
        MemoryInfo {
            name: "Cpu".to_owned(),
            device_id: 0,
            alloc_type: AllocatorType::Arena,
            mem_type: MemType::Default,
            host_accessible: true,
        }
    }

    /// The memory of one CUDA device.
    pub open spec fn is_cuda(self, device_id: i32) -> bool {
        &&& self.name@ == "Cuda"@
        &&& self.device_id == device_id
        &&& self.alloc_type == AllocatorType::Arena
        &&& self.mem_type == MemType::Default
        &&& !self.host_accessible
    }

    /// The descriptor of the memory of one CUDA device.
    pub fn cuda(device_id: i32) -> (memory: MemoryInfo)
        ensures
            memory.is_cuda(device_id),
    {
        MemoryInfo {
            name: "Cuda".to_owned(),
            device_id,
            alloc_type: AllocatorType::Arena,
            mem_type: MemType::Default,
            host_accessible: false,
        }
    }

    /// Whether the host may read and write the memory directly.
    pub fn is_host_accessible(&self) -> (accessible: bool)
        ensures
            accessible == self.host_accessible,
    {
        self.host_accessible
    }

    /// An equal descriptor of its own.
    pub fn try_clone_descriptor(&self) -> (copy: MemoryInfo)
        ensures
            copy == *self,
    {
        MemoryInfo {
            name: self.name.clone(),
            device_id: self.device_id,
            alloc_type: self.alloc_type,
            mem_type: self.mem_type,
            host_accessible: self.host_accessible,
        }
    }
}

impl Clone for MemoryInfo {
    fn clone(&self) -> (copy: MemoryInfo)
        ensures
            copy == *self,
    {
        self.try_clone_descriptor()
    }
}

} // verus!
