//! Module descriptions, with base addresses as plain values.

use vstd::prelude::*;

verus! {

/// Basic information about a module: where it starts and how many bytes it
/// occupies.
#[derive(Debug, Clone, Copy, PartialEq, Eq, Structural)]
pub struct ModuleInfo {
    /// Module's base address.
    pub base: usize,
    /// Module's size.
    pub size: usize,
}

/// Module information together with the module's name.
#[derive(Debug, Clone)]
pub struct ModuleInfoWithName {
    /// Module's base address.
    pub base: usize,
    /// Module's size.
    pub size: usize,
    /// Module's name.
    pub name: String,
}

/// A pointer to a virtual method table, modeled as the table's address.
/// Reading slots out of the table is memory access and stays outside this
/// library; the address arithmetic for a slot is here.
#[derive(Debug, Clone, Copy, PartialEq, Eq, Structural)]
pub struct VmtPtr {
    vmt: usize,
}

impl VmtPtr {
    /// The table's address.
    pub closed spec fn spec_vmt(self) -> usize {
        self.vmt
    }

    /// Creates a table pointer from the table's address.
    pub fn from_address(vmt: usize) -> (r: VmtPtr)
        ensures
            r.spec_vmt() == vmt,
    {
        VmtPtr { vmt }
    }

    /// The address of the slot at index `idx`, each slot `word` bytes wide.
    pub fn slot_address(&self, idx: usize, word: usize) -> (r: usize)
        requires
            self.spec_vmt() + idx * word <= usize::MAX,
        ensures
            r == self.spec_vmt() + idx * word,
    {
        self.vmt + idx * word
    }
}

} // verus!
