//! A link of an intrusive doubly linked list, modeled with entry addresses
//! as plain values.  `OFFSET` is where the link sits inside the item, so an
//! item's address is its link's address minus `OFFSET`.

use vstd::prelude::*;

verus! {

/// A single link of a doubly linked list: the addresses of the neighbouring
/// links, or `None` at an end.
#[derive(Debug, Clone, Copy)]
pub struct ListEntry<const OFFSET: usize> {
    next: Option<usize>,
    prev: Option<usize>,
}

impl<const OFFSET: usize> ListEntry<OFFSET> {
    /// The address of the next link.
    pub closed spec fn spec_next(self) -> Option<usize> {
        self.next
    }

    /// The address of the previous link.
    pub closed spec fn spec_prev(self) -> Option<usize> {
        self.prev
    }

    /// Returns a `ListEntry` that points nowhere.
    pub fn null() -> (r: ListEntry<OFFSET>)
        ensures
            r.spec_next() is None,
            r.spec_prev() is None,
    {
        ListEntry { next: None, prev: None }
    }

    /// The address of the next item: the next link's address, moved back by
    /// the link's offset inside the item; zero becomes `None`.
    pub fn next(&self) -> (r: Option<usize>)
        requires
            link_fits_offset(self.spec_next(), OFFSET as int),
        ensures
            r == step_item(self.spec_next(), OFFSET as int),
    {
        match self.next {
            None => None,
            Some(a) => {
                let item = a - OFFSET;
                if item == 0 {
                    None
                } else {
                    Some(item)
                }
            },
        }
    }

    /// The address of the previous item, derived like `next`.
    pub fn prev(&self) -> (r: Option<usize>)
        requires
            link_fits_offset(self.spec_prev(), OFFSET as int),
        ensures
            r == step_item(self.spec_prev(), OFFSET as int),
    {
        match self.prev {
            None => None,
            Some(a) => {
                let item = a - OFFSET;
                if item == 0 {
                    None
                } else {
                    Some(item)
                }
            },
        }
    }
}

/// A stored link address is usable only when subtracting the offset cannot
/// wrap below zero.
pub open spec fn link_fits_offset(link: Option<usize>, offset: int) -> bool {
    match link {
        None => true,
        Some(a) => a >= offset,
    }
}

/// The item address a link address stands for: the address minus the link's
/// offset, with zero mapped to `None`.
pub open spec fn step_item(link: Option<usize>, offset: int) -> Option<usize> {
    match link {
        None => None,
        Some(a) => if a == offset {
            None
        } else {
            Some((a - offset) as usize)
        },
    }
}

} // verus!
