//! Scopes, the chain they form with their parents, and the view through
//! which values are resolved.

use crate::constructor::constructor_key;
use crate::constructor::keyed;
use crate::constructor::produces;
use crate::constructor::share;
use crate::constructor::Constructor;
use crate::key::key_of;
use crate::registration::Registration;
use crate::table::Table;
use std::any::TypeId;
use std::marker::PhantomData;
use std::sync::Arc;
use vstd::prelude::*;

verus! {

/// Why a registration was refused.
#[derive(Debug)]
pub enum Error {
    /// The scope already holds a registration for the type.
    AlreadyRegistered,
}

/// A chain of scopes that can be asked for the constructor of a type.
pub trait GetConstructor {
    /// Everything that can be found from here: what this scope registered
    /// and, for the keys it has none for, what its ancestors registered.
    spec fn chain(&self) -> Map<TypeId, Constructor>;

    /// The constructor found for `type_id`, the nearest scope's first.
    fn get_constructor(&self, type_id: &TypeId) -> (found: Option<Constructor>)
        ensures
            found == (if self.chain().contains_key(*type_id) {
                Some(self.chain()[*type_id])
            } else {
                None
            }),
            found matches Some(c) ==> constructor_key(c) == *type_id,
    ;
}

/// The end of every chain: nothing is registered above the root scope.
impl GetConstructor for () {
    open spec fn chain(&self) -> Map<TypeId, Constructor> {
        Map::empty()
    }

    fn get_constructor(&self, type_id: &TypeId) -> (found: Option<Constructor>) {
        None
    }
}

/// One scope: its own registrations and the scope above it.
pub struct Container<P: GetConstructor = ()> {
    parent: P,
    table: Table,
}

impl Container {
    /// A scope with no registrations and no parent.
    pub fn new() -> (container: Container)
        ensures
            container.local() == Map::<TypeId, Constructor>::empty(),
            container.chain() == Map::<TypeId, Constructor>::empty(),
    {
        let container = Container { parent: (), table: Table::new() };
        assert(container.chain() =~= Map::<TypeId, Constructor>::empty());
        container
    }

    /// A scope with no registrations of its own, whose lookups fall back to
    /// `parent`.
    pub fn with_parent<P: GetConstructor>(parent: P) -> (container: Container<P>)
        ensures
            container.local() == Map::<TypeId, Constructor>::empty(),
            container.parent() == parent,
            container.chain() == parent.chain(),
    {
        let container = Container { parent, table: Table::new() };
        assert(container.chain() =~= parent.chain());
        container
    }
}

/// What one attempt to register under `key` does to a scope: a key that is
/// taken refuses the attempt and leaves the scope as it was; a free key
/// gets an entry, and nothing else changes. The parent is never touched.
pub open spec fn registration_step<P: GetConstructor>(
    before: Container<P>,
    after: Container<P>,
    key: TypeId,
    outcome: Result<(), Error>,
) -> bool {
    &&& after.parent() == before.parent()
    &&& keyed(after.local())
    &&& if before.local().contains_key(key) {
        &&& outcome matches Err(Error::AlreadyRegistered)
        &&& after.local() == before.local()
    } else {
        &&& outcome is Ok
        &&& after.local().contains_key(key)
        &&& after.local() == before.local().insert(key, after.local()[key])
    }
}

impl<P: GetConstructor> Container<P> {
    /// Starts a registration for the type `R` in this scope.
    #[must_use]
    pub fn when<R>(&mut self) -> (pending: Registration<'_, R, P>)
        ensures
            *pending.container == *old(self),
            *final(pending.container) == *final(self),
    {
        Registration { marker: PhantomData, container: self }
    }

    /// Stores `constructor` as the strategy for `T`, unless this scope has
    /// one already.
    pub(crate) fn register_constructor<T: 'static>(&mut self, constructor: Constructor) -> (outcome:
        Result<(), Error>)
        requires
            constructor_key(constructor) == key_of::<T>(),
        ensures
            registration_step(*old(self), *final(self), key_of::<T>(), outcome),
            outcome is Ok ==> final(self).local()[key_of::<T>()] == constructor,
    {
        if self.table.insert_new(TypeId::of::<T>(), constructor) {
            Ok(())
        } else {
            Err(Error::AlreadyRegistered)
        }
    }

    /// The registrations of this scope alone.
    pub closed spec fn local(&self) -> Map<TypeId, Constructor> {
        self.table@
    }

    /// The scope above this one.
    pub closed spec fn parent(&self) -> P {
        self.parent
    }

    /// A view of this scope and its ancestors, to resolve values from.
    pub fn as_resolver(&self) -> (resolver: Resolver<'_>)
        ensures
            resolver.chain() == self.chain(),
    {
        Resolver(self)
    }
}

impl<P: GetConstructor> GetConstructor for Container<P> {
    open spec fn chain(&self) -> Map<TypeId, Constructor> {
        self.parent().chain().union_prefer_right(self.local())
    }

    fn get_constructor(&self, type_id: &TypeId) -> (found: Option<Constructor>) {
        match self.table.get(type_id) {
            Some(constructor) => Some(share(constructor)),
            None => self.parent.get_constructor(type_id),
        }
    }
}

/// A borrowed scope is the scope.
impl<P: GetConstructor> GetConstructor for &Container<P> {
    open spec fn chain(&self) -> Map<TypeId, Constructor> {
        (**self).chain()
    }

    fn get_constructor(&self, type_id: &TypeId) -> (found: Option<Constructor>) {
        (**self).get_constructor(type_id)
    }
}

/// A shared scope is the scope.
impl<G: GetConstructor> GetConstructor for Arc<G> {
    open spec fn chain(&self) -> Map<TypeId, Constructor> {
        (**self).chain()
    }

    fn get_constructor(&self, type_id: &TypeId) -> (found: Option<Constructor>) {
        (**self).get_constructor(type_id)
    }
}

/// A read-only view of a scope and its ancestors, from which values are
/// resolved by type.
pub struct Resolver<'r>(&'r dyn GetConstructor);

impl<'r> Resolver<'r> {
    /// Everything that can be found through this view.
    pub closed spec fn chain(&self) -> Map<TypeId, Constructor> {
        self.0.chain()
    }

    /// What a resolution of `T` through `self` may return: nothing where no
    /// scope of the chain has a registration for `T`, else a value that the
    /// nearest registration hands out for this very view.
    pub open spec fn resolves<T: 'static>(&self, out: Option<T>) -> bool {
        &&& out is Some <==> self.chain().contains_key(key_of::<T>())
        &&& out matches Some(v) ==> produces(self.chain()[key_of::<T>()], *self, v)
    }

    /// A value of type `T`, made by the nearest registration for `T`; `None`
    /// where there is none in the whole chain.
    ///
    /// The strategy is run with this view, so what it resolves in turn is
    /// looked up from the lowest scope again.
    pub fn resolve<T: 'static>(&self) -> (out: Option<T>)
        ensures
            self.resolves(out),
    {
        match self.0.get_constructor(&TypeId::of::<T>()) {
            Some(constructor) => {
                constructor.run::<T>(self)
            },
            None => None,
        }
    }
}

} // verus!
