//! Nullable pointer wrappers and the control flow value for null checks.

use core::marker::PhantomData;
use vstd::prelude::*;

verus! {

/// Pointer that can be checked for null before use.
pub enum Ptr<'a, T> {
    /// Valid pointer.
    Valid(&'a T),
    /// Null pointer.
    Null,
}

impl<'a, T> Ptr<'a, T> {
    /// Creates a new pointer from a reference.
    pub fn new(r: &'a T) -> (p: Ptr<'a, T>)
        ensures
            p == Ptr::Valid(r),
    {
        Ptr::Valid(r)
    }

    /// Creates a new null pointer.
    pub fn null() -> (p: Ptr<'a, T>)
        ensures
            p is Null,
    {
        Ptr::Null
    }

    /// The reference behind the pointer, or `None` for null.
    pub fn some(self) -> (r: Option<&'a T>)
        ensures
            match self {
                Ptr::Valid(v) => r == Some(v),
                Ptr::Null => r is None,
            },
    {
        match self {
            Ptr::Valid(v) => Some(v),
            Ptr::Null => None,
        }
    }
}

/// Mutable pointer that can be checked for null before use.  The pointee is
/// held as a shared borrow: handing out mutable access is memory work that
/// stays outside this library, which only tracks whether the pointer is
/// null.
pub enum MutPtr<'a, T> {
    /// Valid pointer.
    Valid(&'a T, PhantomData<&'a mut T>),
    /// Null pointer.
    Null,
}

impl<'a, T> MutPtr<'a, T> {
    /// Creates a new null pointer.
    pub fn null() -> (p: MutPtr<'a, T>)
        ensures
            p is Null,
    {
        MutPtr::Null
    }
}

/// Error trait that allows creating an error signaling a null pointer.
pub trait NullError: Sized {
    /// Creates the error value that stands for a null pointer.
    fn null() -> Self;
}

/// Function flow when checking pointers.
pub enum Flow<T> {
    /// Pointer was null, abort.
    Null,
    /// All good, continue.
    Done(T),
}

impl<T> Flow<T> {
    /// Converts the flow to a `Result`, with the error type's own null
    /// marker for the null case.
    pub fn ok<E: NullError>(self) -> (r: Result<T, E>)
        ensures
            match self {
                Flow::Done(v) => r matches Ok(x) && x == v,
                Flow::Null => r is Err,
            },
    {
        match self {
            Flow::Done(v) => Ok(v),
            Flow::Null => Err(E::null()),
        }
    }

    /// Converts the flow to an `Option`.
    pub fn some(self) -> (r: Option<T>)
        ensures
            match self {
                Flow::Done(v) => r == Some(v),
                Flow::Null => r is None,
            },
    {
        match self {
            Flow::Done(v) => Some(v),
            Flow::Null => None,
        }
    }

    /// Checks if the flow is null.
    pub fn is_null(&self) -> (r: bool)
        ensures
            r == (self is Null),
    {
        match self {
            Flow::Null => true,
            Flow::Done(_) => false,
        }
    }

    /// Unwraps the carried value; the flow must not be null.
    pub fn unwrap(self) -> (r: T)
        requires
            self is Done,
        ensures
            self matches Flow::Done(v) && r == v,
    {
        match self {
            Flow::Done(v) => v,
            Flow::Null => vstd::pervasive::unreached(),
        }
    }
}

} // verus!
