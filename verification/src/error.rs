//! Error types.

use vstd::prelude::*;

verus! {

/// Global error type for operations against a process or module.
#[derive(Debug, Clone, Copy, PartialEq, Eq, Structural)]
pub enum MfError {
    /// Nt error code
    NtStatus(u32),
    /// Unix errno
    Errno(i32),
    /// Specified process was not found
    ProcessNotFound,
    /// Specified module was not found
    ModuleNotFound,
    /// No threads running in the process
    NoThreads,
    /// String read was not valid UTF-8 or UTF-16 byte sequence
    InvalidString,
    /// Process has died and is no longer available
    ProcessDied,
}

/// Failure to construct a pattern at runtime from a textual notation.
#[derive(Debug, Clone, Copy, PartialEq, Eq, Structural)]
pub enum PatternError {
    /// The text does not follow the notation: a bad hex digit, an odd hex
    /// run, a stray character, or a mask character outside `x` and `?`.
    Malformed,
    /// The text holds no token at all; a pattern must have at least one.
    Empty,
}

} // verus!
