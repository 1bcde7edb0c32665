//! Values that resolve an address once, on first use, and cache it.

use core::marker::PhantomData;
use vstd::prelude::*;

verus! {

/// A function location that resolves its address on first access.  `F` is
/// the function's type; the resolver is handed in at construction and runs
/// at most once, an address of zero standing for "not yet resolved".
pub struct Function<F, R> where R: Fn() -> usize {
    address: usize,
    init: R,
    _ph: PhantomData<F>,
}

impl<F, R> Function<F, R> where R: Fn() -> usize {
    /// The cached address; zero until first use.
    pub closed spec fn spec_address(self) -> usize {
        self.address
    }

    /// The resolver handed in at construction.
    pub closed spec fn spec_init(self) -> R {
        self.init
    }

    /// Creates a new function location with the given resolver; nothing is
    /// resolved yet.
    pub fn new(init: R) -> (r: Function<F, R>)
        ensures
            r.spec_address() == 0,
            r.spec_init() == init,
    {
        Function { address: 0, init, _ph: PhantomData }
    }

    /// Returns the function's address, resolving it on the first call and
    /// returning the cached value afterwards.
    pub fn address(&mut self) -> (r: usize)
        requires
            old(self).spec_init().requires(()),
        ensures
            final (self).spec_init() == old(self).spec_init(),
            final (self).spec_address() == r,
            old(self).spec_address() != 0 ==> r == old(self).spec_address(),
            old(self).spec_address() == 0 ==> old(self).spec_init().ensures((), r),
    {
        if self.address == 0 {
            self.address = (self.init)();
        }
        self.address
    }

    /// Resolves the address now instead of on first use.
    pub fn force(&mut self)
        requires
            old(self).spec_init().requires(()),
        ensures
            final (self).spec_init() == old(self).spec_init(),
            old(self).spec_address() != 0 ==> final (self).spec_address() == old(
                self,
            ).spec_address(),
            old(self).spec_address() == 0 ==> old(self).spec_init().ensures(
                (),
                final (self).spec_address(),
            ),
    {
        let _ = self.address();
    }
}

/// A global variable location with an explicitly defined resolver, resolved
/// on first access and cached; an address of zero stands for "not yet
/// resolved".
pub struct Global<T, R> where R: Fn() -> usize {
    address: usize,
    init: R,
    _pd: PhantomData<T>,
}

impl<T, R> Global<T, R> where R: Fn() -> usize {
    /// The cached address; zero until first use.
    pub closed spec fn spec_address(self) -> usize {
        self.address
    }

    /// The resolver handed in at construction.
    pub closed spec fn spec_init(self) -> R {
        self.init
    }

    /// Creates a new global location with the given resolver; nothing is
    /// resolved yet.
    pub fn new(init: R) -> (r: Global<T, R>)
        ensures
            r.spec_address() == 0,
            r.spec_init() == init,
    {
        Global { address: 0, init, _pd: PhantomData }
    }

    /// Returns the global's address, resolving it on the first call and
    /// returning the cached value afterwards.
    pub fn address(&mut self) -> (r: usize)
        requires
            old(self).spec_init().requires(()),
        ensures
            final (self).spec_init() == old(self).spec_init(),
            final (self).spec_address() == r,
            old(self).spec_address() != 0 ==> r == old(self).spec_address(),
            old(self).spec_address() == 0 ==> old(self).spec_init().ensures((), r),
    {
        if self.address == 0 {
            self.address = (self.init)();
        }
        self.address
    }

    /// Resolves the address now instead of on first use.
    pub fn force(&mut self)
        requires
            old(self).spec_init().requires(()),
        ensures
            final (self).spec_init() == old(self).spec_init(),
            old(self).spec_address() != 0 ==> final (self).spec_address() == old(
                self,
            ).spec_address(),
            old(self).spec_address() == 0 ==> old(self).spec_init().ensures(
                (),
                final (self).spec_address(),
            ),
    {
        let _ = self.address();
    }
}

/// The state of a lazily initialized cell: still waiting with its
/// initializer, or already holding the value.
#[verifier::reject_recursive_types(T)]
pub enum CellState<T, R> where R: Fn() -> T {
    /// Not initialized yet; holds the initializer.
    Pending(R),
    /// Initialized; holds the value.
    Ready(T),
}

/// A cell that computes its value through its initializer on first access
/// and keeps it from then on.
#[verifier::reject_recursive_types(T)]
pub struct StaticCell<T, R> where R: Fn() -> T {
    state: CellState<T, R>,
}

impl<T, R> StaticCell<T, R> where R: Fn() -> T {
    /// The cell's state.
    pub closed spec fn spec_state(self) -> CellState<T, R> {
        self.state
    }

    /// Creates a new cell that will run `init` on first access.
    pub fn new(init: R) -> (r: StaticCell<T, R>)
        ensures
            r.spec_state() == CellState::<T, R>::Pending(init),
    {
        StaticCell { state: CellState::Pending(init) }
    }

    /// The cell's value, initializing it on the first call.
    pub fn value(&mut self) -> (r: &T)
        requires
            old(self).spec_state() matches CellState::Pending(f) ==> f.requires(()),
        ensures
            final (self).spec_state() matches CellState::Ready(v) && *r == v,
            old(self).spec_state() matches CellState::Ready(v0) ==> *r == v0,
            old(self).spec_state() matches CellState::Pending(f) ==> f.ensures((), *r),
    {
        let pending = match &self.state {
            CellState::Pending(_) => true,
            CellState::Ready(_) => false,
        };
        if pending {
            let v = match &self.state {
                CellState::Pending(f) => (f)(),
                CellState::Ready(_) => vstd::pervasive::unreached(),
            };
            self.state = CellState::Ready(v);
        }
        match &self.state {
            CellState::Ready(v) => v,
            CellState::Pending(_) => vstd::pervasive::unreached(),
        }
    }
}

/// How to resolve a static offset.
pub enum ResolveBy<const N: usize> {
    /// By module name and offset.
    NameOffset {
        /// Module name.
        module_name: &'static str,
        /// Offset.
        offset: usize,
    },
    /// By module name and pattern.
    IdaPattern {
        /// Module name.
        module_name: &'static str,
        /// Pattern in marked-wildcard hex notation.
        pattern: crate::pattern::Pattern<N>,
    },
}

} // verus!
