//! Enumeration records for processes, threads and memory regions.

use vstd::prelude::*;

use crate::prot::Protection;

verus! {

/// A single process, as an enumeration reports it.
#[derive(Debug, Clone)]
pub struct ProcessEntry {
    /// Id of the process.
    pub id: u32,
    /// Name of the process.
    pub name: String,
    /// Id of the parent process.
    pub parent_id: u32,
}

/// A single thread of a process, as an enumeration reports it.
#[derive(Debug, Clone, Copy, PartialEq, Eq, Structural)]
pub struct ThreadEntry {
    /// Thread id.
    pub id: u32,
    /// Thread's priority.
    pub base_priority: i32,
}

/// A chunk of mapped memory in a process.
#[derive(Debug, Clone, Copy, PartialEq, Eq, Structural)]
pub struct MemoryRegion {
    /// Start address.
    pub from: usize,
    /// End address.
    pub to: usize,
    /// Protection of the region.
    pub prot: Protection,
}

} // verus!
