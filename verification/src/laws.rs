//! What holds of registration and resolution taken together.

use crate::constructor::yields_only;
use crate::container::registration_step;
use crate::container::Container;
use crate::container::Error;
use crate::container::GetConstructor;
use crate::container::Resolver;
use crate::key::key_of;
use std::any::TypeId;
use std::sync::Arc;
use vstd::prelude::*;

verus! {

/// A scope that has nothing for a key finds what its parent finds: the same
/// constructor, or nothing where the parent has nothing either.
pub proof fn law_miss_falls_back_to_parent<P: GetConstructor>(child: Container<P>, key: TypeId)
    requires
        !child.local().contains_key(key),
    ensures
        child.chain().contains_key(key) == child.parent().chain().contains_key(key),
        child.chain().contains_key(key) ==> child.chain()[key] == child.parent().chain()[key],
{
}

/// A scope's own registration hides whatever its ancestors have for the
/// same key.
pub proof fn law_child_shadows_parent<P: GetConstructor>(child: Container<P>, key: TypeId)
    requires
        child.local().contains_key(key),
    ensures
        child.chain().contains_key(key),
        child.chain()[key] == child.local()[key],
{
}

/// A scope finds the same whether it borrows its parent or shares it: two
/// scopes with the same registrations, over the same parent held either
/// way, find the same for every key.
pub proof fn law_parent_ownership_is_irrelevant<P: GetConstructor>(
    borrowing: Container<&Container<P>>,
    sharing: Container<Arc<Container<P>>>,
)
    requires
        *borrowing.parent() == *sharing.parent(),
        borrowing.local() == sharing.local(),
    ensures
        borrowing.chain() == sharing.chain(),
{
}

/// After one registration attempt for a key, a second one is refused and
/// changes nothing: the scope finds for every key what it found before, so
/// the key still leads to the first registration.
pub proof fn law_second_registration_is_refused<P: GetConstructor>(
    start: Container<P>,
    once: Container<P>,
    twice: Container<P>,
    key: TypeId,
    first: Result<(), Error>,
    second: Result<(), Error>,
)
    requires
        registration_step(start, once, key, first),
        registration_step(once, twice, key, second),
    ensures
        second matches Err(Error::AlreadyRegistered),
        twice.local() == once.local(),
        twice.chain() == once.chain(),
        first is Ok ==> twice.chain()[key] == once.local()[key],
{
}

/// A registration changes what is found for its own key at most: every
/// other key leads where it led before.
pub proof fn law_registration_keeps_other_keys<P: GetConstructor>(
    before: Container<P>,
    after: Container<P>,
    key: TypeId,
    outcome: Result<(), Error>,
    other: TypeId,
)
    requires
        registration_step(before, after, key, outcome),
        other != key,
    ensures
        after.chain().contains_key(other) == before.chain().contains_key(other),
        after.chain().contains_key(other) ==> after.chain()[other] == before.chain()[other],
{
}

/// Where a scope's own registration for `T` hands out nothing but what
/// `allowed` admits, a resolution of `T` through that scope succeeds with
/// a value that `allowed` admits.
pub proof fn law_resolution_follows_registration<P: GetConstructor, T: 'static>(
    scope: Container<P>,
    allowed: spec_fn(Resolver, T) -> bool,
    resolver: Resolver,
    out: Option<T>,
)
    requires
        scope.local().contains_key(key_of::<T>()),
        yields_only(scope.local()[key_of::<T>()], allowed),
        resolver.chain() == scope.chain(),
        resolver.resolves(out),
    ensures
        out matches Some(v) && allowed(resolver, v),
{
}

/// Every resolution of a type that was registered with a value to clone
/// returns a clone of that value.
pub proof fn law_clone_resolves_to_clone<P: GetConstructor, R: Clone + 'static>(
    scope: Container<P>,
    value: R,
    resolver: Resolver,
    out: Option<R>,
)
    requires
        scope.local().contains_key(key_of::<R>()),
        yields_only(scope.local()[key_of::<R>()], |r: Resolver, v: R| cloned(value, v)),
        resolver.chain() == scope.chain(),
        resolver.resolves(out),
    ensures
        out matches Some(v) && cloned(value, v),
{
    law_resolution_follows_registration(
        scope,
        |r: Resolver, v: R| cloned(value, v),
        resolver,
        out,
    );
}

/// A type that no scope of the chain has a registration for resolves to
/// nothing.
pub proof fn law_unregistered_resolves_to_none<T: 'static>(resolver: Resolver, out: Option<T>)
    requires
        !resolver.chain().contains_key(key_of::<T>()),
        resolver.resolves(out),
    ensures
        out is None,
{
}

} // verus!
