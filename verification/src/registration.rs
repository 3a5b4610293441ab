//! Registering a strategy for a type, in two steps: name the type, then
//! say how its values are made.

use crate::construct::Construct;
use crate::construct::ConstructAs;
use crate::constructor::erase;
use crate::constructor::yields_only;
use crate::container::registration_step;
use crate::container::Container;
use crate::container::Error;
use crate::container::GetConstructor;
use crate::container::Resolver;
use crate::key::key_of;
use std::marker::PhantomData;
use vstd::prelude::*;

verus! {

/// A registration for the type `R` that has been started on a scope and
/// still needs its strategy.
pub struct Registration<'container, R, P: GetConstructor> {
    pub marker: PhantomData<R>,
    pub container: &'container mut Container<P>,
}

impl<'container, R, P> Registration<'container, R, P> where
    R: Sync + Send + 'static + Clone,
    P: GetConstructor,
 {
    /// Registers `value`: every resolution of `R` gets a clone of it.
    pub fn clone(self, value: R) -> (outcome: Result<(), Error>)
        ensures
            registration_step(
                *old(self.container),
                *final(self.container),
                key_of::<R>(),
                outcome,
            ),
            outcome is Ok ==> yields_only(
                final(self.container).local()[key_of::<R>()],
                |resolver: Resolver, v: R| cloned(value, v),
            ),
    {
        let make = move |_resolver: &Resolver| -> (v: R)
            ensures
                call_ensures(R::clone, (&value,), v),
            {
                value.clone()
            };
        let constructor = erase(make);
        self.container.register_constructor::<R>(constructor)
    }
}

impl<'container, R, P> Registration<'container, R, P> where
    R: 'static + Construct,
    P: GetConstructor,
 {
    /// Registers `R`'s own recipe: every resolution of `R` builds a new
    /// value with `R::construct`.
    pub fn construct_it(self) -> (outcome: Result<(), Error>)
        ensures
            registration_step(
                *old(self.container),
                *final(self.container),
                key_of::<R>(),
                outcome,
            ),
            outcome is Ok ==> yields_only(
                final(self.container).local()[key_of::<R>()],
                |resolver: Resolver, v: R| call_ensures(R::construct, (&resolver,), v),
            ),
    {
        let make = move |locator: &Resolver| -> (v: R)
            ensures
                call_ensures(R::construct, (locator,), v),
            {
                R::construct(locator)
            };
        let constructor = erase(make);
        self.container.register_constructor::<R>(constructor)
    }
}

impl<'container, R, P> Registration<'container, R, P> where R: 'static, P: GetConstructor {
    /// Registers `E` as the recipe for `R`: every resolution of `R` builds
    /// a new value with `E::construct_as`.
    pub fn construct<E>(self) -> (outcome: Result<(), Error>) where
        E: 'static + ConstructAs<Target = R>,

        ensures
            registration_step(
                *old(self.container),
                *final(self.container),
                key_of::<R>(),
                outcome,
            ),
            outcome is Ok ==> yields_only(
                final(self.container).local()[key_of::<R>()],
                |resolver: Resolver, v: R| call_ensures(E::construct_as, (&resolver,), v),
            ),
    {
        let make = move |locator: &Resolver| -> (v: R)
            ensures
                call_ensures(E::construct_as, (locator,), v),
            {
                E::construct_as(locator)
            };
        let constructor = erase(make);
        self.container.register_constructor::<R>(constructor)
    }

    /// Registers `constructor` itself: every resolution of `R` calls it.
    pub fn construct_with<F>(self, constructor: F) -> (outcome: Result<(), Error>) where
        F: Fn(&Resolver) -> R + Send + Sync + 'static,

        requires
            forall|resolver: Resolver| constructor.requires((&resolver,)),
        ensures
            registration_step(
                *old(self.container),
                *final(self.container),
                key_of::<R>(),
                outcome,
            ),
            outcome is Ok ==> yields_only(
                final(self.container).local()[key_of::<R>()],
                |resolver: Resolver, v: R| constructor.ensures((&resolver,), v),
            ),
    {
        let erased = erase(constructor);
        self.container.register_constructor::<R>(erased)
    }
}

} // verus!
