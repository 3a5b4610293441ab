//! The container seen as a service locator.

use crate::container::Container;
use crate::container::GetConstructor;
use crate::container::Resolver;
use vstd::prelude::*;

verus! {

/// A resolver under its other name: values are located instead of resolved.
pub struct Locator<'r>(Resolver<'r>);

impl<'r> Locator<'r> {
    /// The resolver that does the work.
    pub closed spec fn resolver(&self) -> Resolver<'r> {
        self.0
    }

    /// A value of type `T`, as [`Resolver::resolve`] finds it.
    pub fn locate<T: 'static>(&self) -> (out: Option<T>)
        ensures
            self.resolver().resolves(out),
    {
        self.0.resolve()
    }
}

impl<P: GetConstructor> Container<P> {
    /// A view of this scope and its ancestors, to locate values from.
    pub fn as_locator(&self) -> (locator: Locator<'_>)
        ensures
            locator.resolver().chain() == self.chain(),
    {
        Locator(self.as_resolver())
    }
}

} // verus!
