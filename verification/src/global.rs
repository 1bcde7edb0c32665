//! A global variable located by module name and offset, resolved once.

use core::marker::PhantomData;
use vstd::prelude::*;

verus! {

/// A global variable that points to a memory location, found by handing a
/// module name and an offset to a resolver on first access; the answer is
/// cached, with zero standing for "not yet resolved".
pub struct Global<T, R> where R: Fn(&'static str, usize) -> usize {
    resolver: R,
    module: &'static str,
    address: usize,
    offset: usize,
    _ph: PhantomData<T>,
}

impl<T, R> Global<T, R> where R: Fn(&'static str, usize) -> usize {
    /// The cached address; zero until first use.
    pub closed spec fn spec_address(self) -> usize {
        self.address
    }

    /// The resolver handed in at construction.
    pub closed spec fn spec_resolver(self) -> R {
        self.resolver
    }

    /// The module name the resolver will be handed.
    pub closed spec fn spec_module(self) -> &'static str {
        self.module
    }

    /// The offset the resolver will be handed.
    pub closed spec fn spec_offset(self) -> usize {
        self.offset
    }

    /// Creates a new global that will resolve its address by module and
    /// offset on first access.
    pub fn new(resolver: R, module: &'static str, offset: usize) -> (r: Global<T, R>)
        ensures
            r.spec_address() == 0,
            r.spec_resolver() == resolver,
            r.spec_module() == module,
            r.spec_offset() == offset,
    {
        Global { resolver, module, address: 0, offset, _ph: PhantomData }
    }

    /// Resolves the global's address, calling the resolver on the first
    /// access and returning the cached answer afterwards.
    pub fn resolve(&mut self) -> (r: usize)
        requires
            old(self).spec_resolver().requires(
                (old(self).spec_module(), old(self).spec_offset()),
            ),
        ensures
            final (self).spec_resolver() == old(self).spec_resolver(),
            final (self).spec_module() == old(self).spec_module(),
            final (self).spec_offset() == old(self).spec_offset(),
            final (self).spec_address() == r,
            old(self).spec_address() != 0 ==> r == old(self).spec_address(),
            old(self).spec_address() == 0 ==> old(self).spec_resolver().ensures(
                (old(self).spec_module(), old(self).spec_offset()),
                r,
            ),
    {
        if self.address == 0 {
            self.address = (self.resolver)(self.module, self.offset);
        }
        self.address
    }
}

} // verus!
