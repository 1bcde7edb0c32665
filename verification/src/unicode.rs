//! The UTF-16 string header used by NT structures, modeled with its buffer
//! as a plain address.

use vstd::prelude::*;

verus! {

/// A UTF-16 string descriptor: length and capacity in bytes, and the address
/// of the character buffer.
#[derive(Debug, Clone, Copy, PartialEq, Eq, Structural)]
pub struct UnicodeString {
    len: u16,
    cap: u16,
    buf: usize,
}

impl UnicodeString {
    /// The length field, in bytes.
    pub closed spec fn spec_bytes_len(self) -> u16 {
        self.len
    }

    /// The capacity field, in bytes.
    pub closed spec fn spec_capacity(self) -> u16 {
        self.cap
    }

    /// The buffer address.
    pub closed spec fn spec_buf(self) -> usize {
        self.buf
    }

    /// Creates a new unicode string from its components; `len` and `cap`
    /// are in bytes and `buf` is the address of the character buffer.
    pub fn new(len: u16, cap: u16, buf: usize) -> (r: UnicodeString)
        ensures
            r.spec_bytes_len() == len,
            r.spec_capacity() == cap,
            r.spec_buf() == buf,
    {
        UnicodeString { len, cap, buf }
    }

    /// The length of the string in UTF-16 characters.
    pub fn len(&self) -> (r: usize)
        ensures
            r == self.spec_bytes_len() as int / 2,
    {
        (self.len / 2) as usize
    }

    /// Checks if the string is empty.
    pub fn is_empty(&self) -> (r: bool)
        ensures
            r == (self.spec_bytes_len() == 0),
    {
        self.len == 0
    }

    /// The length of the string in bytes.
    pub fn bytes_len(&self) -> (r: usize)
        ensures
            r == self.spec_bytes_len(),
    {
        self.len as usize
    }

    /// The allocated size of the string's buffer in bytes.
    pub fn capacity(&self) -> (r: usize)
        ensures
            r == self.spec_capacity(),
    {
        self.cap as usize
    }

    /// Checks if the buffer address is zero.
    pub fn is_null(&self) -> (r: bool)
        ensures
            r == (self.spec_buf() == 0),
    {
        self.buf == 0
    }
}

} // verus!
