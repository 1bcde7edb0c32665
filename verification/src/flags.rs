//! Raw flag words used by the Windows-style interfaces.

use vstd::prelude::*;

verus! {

/// Access flags, used to describe access to a process.
#[derive(Debug, Default, Clone, Copy, PartialEq, Eq, Structural)]
pub struct ProcessRights(pub u32);

/// Access flags, used to describe access to a thread.
#[derive(Debug, Default, Clone, Copy, PartialEq, Eq, Structural)]
pub struct ThreadRights(pub u32);

/// Protection flags, usually used to describe memory.
#[derive(Debug, Default, Clone, Copy, PartialEq, Eq, Structural)]
pub struct MemoryProtection(pub u32);

/// Allocation flags, used to describe the type of a newly allocated region.
#[derive(Debug, Default, Clone, Copy, PartialEq, Eq, Structural)]
pub struct AllocationType(pub u32);

/// Free flags, used to describe how to free memory.
#[derive(Debug, Default, Clone, Copy, PartialEq, Eq, Structural)]
pub struct FreeType(pub u32);

impl MemoryProtection {
    /// The protection values that allow reading.
    pub open spec fn spec_read(self) -> bool {
        self.0 == 0x10 || self.0 == 0x20 || self.0 == 0x40 || self.0 == 0x80 || self.0 == 0x02
            || self.0 == 0x04 || self.0 == 0x08
    }

    /// The protection values that allow writing.
    pub open spec fn spec_write(self) -> bool {
        self.0 == 0x40 || self.0 == 0x80 || self.0 == 0x04 || self.0 == 0x08
    }

    /// The protection values that allow executing.
    pub open spec fn spec_execute(self) -> bool {
        self.0 == 0x10 || self.0 == 0x20 || self.0 == 0x40 || self.0 == 0x80
    }

    /// Checks if possible to read.
    pub fn read(&self) -> (r: bool)
        ensures
            r == self.spec_read(),
    {
        self.0 == 0x10 || self.0 == 0x20 || self.0 == 0x40 || self.0 == 0x80 || self.0 == 0x02
            || self.0 == 0x04 || self.0 == 0x08
    }

    /// Checks if possible to write.
    pub fn write(&self) -> (r: bool)
        ensures
            r == self.spec_write(),
    {
        self.0 == 0x40 || self.0 == 0x80 || self.0 == 0x04 || self.0 == 0x08
    }

    /// Checks if possible to execute.
    pub fn execute(&self) -> (r: bool)
        ensures
            r == self.spec_execute(),
    {
        self.0 == 0x10 || self.0 == 0x20 || self.0 == 0x40 || self.0 == 0x80
    }
}

} // verus!
