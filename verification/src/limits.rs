//! Resource limits of a child process.

use vstd::prelude::*;

verus! {

/// The limits that a run is held to.
#[derive(Debug, Clone, Copy, PartialEq, Eq, Structural)]
pub struct ScenarioLimits {
    pub wall_time_ms: u64,
    pub cpu_time_ms: u64,
    pub memory_kb: u64,
    pub file_size_kb: u64,
}

/// A resource that the system limits per process.
#[derive(Debug, Clone, Copy, PartialEq, Eq, Structural)]
pub enum Resource {
    CpuSeconds,
    AddressSpace,
    FileSize,
    OpenFiles,
}

/// One limit of a child; its soft and its hard value are the same.
#[derive(Debug, Clone, Copy, PartialEq, Eq, Structural)]
pub struct ResourceLimit {
    pub resource: Resource,
    pub value: u64,
}

/// The number of open files that a child may have.
pub const OPEN_FILES_LIMIT: u64 = 128;

/// Milliseconds in whole seconds, rounded up.
pub open spec fn seconds_ceil(ms: u64) -> u64 {
    if ms % 1000 == 0 {
        ms / 1000
    } else {
        (ms / 1000 + 1) as u64
    }
}

/// Kilobytes in bytes, and no more than the machine can count.
pub open spec fn bytes_of_kb(kb: u64) -> u64 {
    if kb * 1024 <= u64::MAX {
        (kb * 1024) as u64
    } else {
        u64::MAX
    }
}

/// The limits of a child in the order in which they are set: CPU seconds,
/// address space, file size, open files.
pub open spec fn limit_list(limits: ScenarioLimits) -> Seq<ResourceLimit> {
    seq![
        ResourceLimit { resource: Resource::CpuSeconds, value: seconds_ceil(limits.cpu_time_ms) },
        ResourceLimit { resource: Resource::AddressSpace, value: bytes_of_kb(limits.memory_kb) },
        ResourceLimit { resource: Resource::FileSize, value: bytes_of_kb(limits.file_size_kb) },
        ResourceLimit { resource: Resource::OpenFiles, value: OPEN_FILES_LIMIT },
    ]
}

fn kb_to_bytes(kb: u64) -> (bytes: u64)
    ensures
        bytes == bytes_of_kb(kb),
{
    match kb.checked_mul(1024) {
        Some(bytes) => bytes,
        None => u64::MAX,
    }
}

/// The limits to set in a child after it has its own session.
pub fn child_limits(limits: ScenarioLimits) -> (list: Vec<ResourceLimit>)
    ensures
        list@ == limit_list(limits),
{
    let cpu_secs: u64 = if limits.cpu_time_ms % 1000 == 0 {
        limits.cpu_time_ms / 1000
    } else {
        limits.cpu_time_ms / 1000 + 1
    };
    let mut list: Vec<ResourceLimit> = Vec::new();
    list.push(ResourceLimit { resource: Resource::CpuSeconds, value: cpu_secs });
    list.push(
        ResourceLimit { resource: Resource::AddressSpace, value: kb_to_bytes(limits.memory_kb) },
    );
    list.push(
        ResourceLimit { resource: Resource::FileSize, value: kb_to_bytes(limits.file_size_kb) },
    );
    list.push(ResourceLimit { resource: Resource::OpenFiles, value: OPEN_FILES_LIMIT });
    list
}

} // verus!
