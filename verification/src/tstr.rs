//! A non-null pointer to a C zero-terminated string, modeled as a plain
//! address.

use vstd::prelude::*;

verus! {

/// Non-null address of a C zero-terminated string.  Reading the characters
/// behind it is memory access and stays outside this library; the value
/// itself only guarantees that the address is not zero.
#[derive(Debug, Clone, Copy, PartialEq, Eq, Structural)]
pub struct TStr {
    addr: usize,
}

impl TStr {
    /// The address held.
    pub closed spec fn spec_addr(self) -> usize {
        self.addr
    }

    /// The address is never zero.
    #[verifier::type_invariant]
    spec fn wf(self) -> bool {
        self.addr != 0
    }

    /// Creates a new `TStr` from a non-null address.
    pub fn from_ptr(addr: usize) -> (r: TStr)
        requires
            addr != 0,
        ensures
            r.spec_addr() == addr,
    {
        TStr { addr }
    }

    /// The raw address, never zero.
    pub fn as_ptr(&self) -> (r: usize)
        ensures
            r == self.spec_addr(),
            r != 0,
    {
        proof {
            use_type_invariant(self);
        }
        self.addr
    }
}

} // verus!
