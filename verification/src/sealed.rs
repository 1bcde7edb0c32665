//! Private marker supertrait: the matcher capability is implementable only
//! by this library's own pattern types.

use vstd::prelude::*;

verus! {

/// Implemented only inside this crate; outside crates cannot name it, so
/// they cannot implement the matcher capability.
pub trait Sealed {

}

} // verus!
