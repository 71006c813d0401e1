//! The flags that the Windows virtual memory primitives (`VirtualAlloc`,
//! `VirtualFree`) take, for implementations of
//! [`PlatformMemory`](crate::mem::PlatformMemory) on that system.

use vstd::prelude::*;

verus! {

/// What `VirtualAlloc` is asked to do.
#[derive(Clone, Copy, PartialEq, Eq, Structural, Debug)]
pub enum AllocationType {
    Commit,
    Reserve,
}

impl AllocationType {
    /// The `MEM_*` flag value.
    pub fn flag(self) -> (r: u32)
        ensures
            r == match self {
                AllocationType::Commit => 0x1000u32,
                AllocationType::Reserve => 0x2000u32,
            },
    {
        match self {
            AllocationType::Commit => 0x1000,
            AllocationType::Reserve => 0x2000,
        }
    }
}

/// The access that committed pages allow.
#[derive(Clone, Copy, PartialEq, Eq, Structural, Debug)]
pub enum MemoryProtection {
    Execute,
    ExecuteRead,
    ExecuteReadWrite,
    ReadyOnly,
    ReadWrite,
}

impl MemoryProtection {
    /// The `PAGE_*` flag value.
    pub fn flag(self) -> (r: u32)
        ensures
            r == match self {
                MemoryProtection::Execute => 0x10u32,
                MemoryProtection::ExecuteRead => 0x20u32,
                MemoryProtection::ExecuteReadWrite => 0x40u32,
                MemoryProtection::ReadyOnly => 0x02u32,
                MemoryProtection::ReadWrite => 0x04u32,
            },
    {
        match self {
            MemoryProtection::Execute => 0x10,
            MemoryProtection::ExecuteRead => 0x20,
            MemoryProtection::ExecuteReadWrite => 0x40,
            MemoryProtection::ReadyOnly => 0x02,
            MemoryProtection::ReadWrite => 0x04,
        }
    }
}

/// What `VirtualFree` is asked to do.
#[derive(Clone, Copy, PartialEq, Eq, Structural, Debug)]
pub enum FreeType {
    Decommit,
    Release,
}

impl FreeType {
    /// The `MEM_*` flag value.
    pub fn flag(self) -> (r: u32)
        ensures
            r == match self {
                FreeType::Decommit => 0x4000u32,
                FreeType::Release => 0x8000u32,
            },
    {
        match self {
            FreeType::Decommit => 0x4000,
            FreeType::Release => 0x8000,
        }
    }
}

} // verus!
