//! Singletons: strategies that are run once and share what they made.

use crate::construct::Construct;
use crate::construct::ConstructAs;
use crate::constructor::erase;
use crate::constructor::yields_only;
use crate::container::registration_step;
use crate::container::Container;
use crate::container::Error;
use crate::container::GetConstructor;
use crate::container::Resolver;
use crate::key::key_of;
use crate::registration::Registration;
use std::marker::PhantomData;
use std::sync::Arc;
use vstd::prelude::*;
use vstd::rwlock::RwLock;
use vstd::rwlock::RwLockPredicate;

verus! {

/// `handle` is one that `ctor` returned, for some resolver.
pub open spec fn built_by<R: ?Sized, F: Fn(&Resolver) -> Arc<R>>(ctor: F, handle: Arc<R>) -> bool {
    exists|resolver: Resolver| ctor.ensures((&resolver,), handle)
}

/// What a singleton's slot may hold: nothing yet, or a handle that its
/// constructor returned.
pub struct BuiltBy<F> {
    pub ctor: F,
}

impl<R: ?Sized, F: Fn(&Resolver) -> Arc<R>> RwLockPredicate<Option<Arc<R>>> for BuiltBy<F> {
    open spec fn inv(self, slot: Option<Arc<R>>) -> bool {
        slot matches Some(handle) ==> built_by(self.ctor, handle)
    }
}

/// What one step does to a slot, whoever the constructor is: the slot
/// holds afterwards the handle that was given out, and a slot that was
/// filled gave out the handle it held.
pub open spec fn stepped<R: ?Sized>(slot: Option<Arc<R>>, step: (Option<Arc<R>>, Arc<R>)) -> bool {
    &&& step.0 == Some(step.1)
    &&& slot matches Some(held) ==> step.1 == held
}

/// A slot is filled once: whatever it held before the first step, every
/// later step gives out the handle of the first one and leaves the slot as
/// that step left it.
pub proof fn law_filled_slot_is_stable<R: ?Sized>(
    slot: Option<Arc<R>>,
    first: (Option<Arc<R>>, Arc<R>),
    second: (Option<Arc<R>>, Arc<R>),
)
    requires
        stepped(slot, first),
        stepped(first.0, second),
    ensures
        second.1 == first.1,
        second.0 == first.0,
{
}

/// `Arc::clone`: another handle to the same instance.
#[verifier::external_body]
pub(crate) fn share_handle<R: ?Sized>(handle: &Arc<R>) -> (shared: Arc<R>)
    ensures
        shared == *handle,
{
    Arc::clone(handle)
}

/// One step of a singleton's slot: what it holds afterwards, and the handle
/// that is given out.
///
/// A filled slot stays as it is and gives out the handle it holds; the
/// constructor is not run. An empty slot is filled with what the constructor
/// returns for `resolver`, and gives that out.
pub fn advance<R: ?Sized, F: Fn(&Resolver) -> Arc<R>>(
    slot: Option<Arc<R>>,
    ctor: &F,
    resolver: &Resolver,
) -> (step: (Option<Arc<R>>, Arc<R>))
    requires
        ctor.requires((resolver,)),
    ensures
        stepped(slot, step),
        slot is None ==> ctor.ensures((resolver,), step.1),
{
    match slot {
        Some(held) => {
            let shared = share_handle(&held);
            (Some(held), shared)
        },
        None => {
            let made = ctor(resolver);
            let kept = share_handle(&made);
            (Some(kept), made)
        },
    }
}

/// The memo of one singleton: a constructor and the slot for the one handle
/// it is run for.
#[verifier::reject_recursive_types(R)]
#[verifier::reject_recursive_types(F)]
pub struct SingletonCell<R: ?Sized, F: Fn(&Resolver) -> Arc<R>> {
    slot: RwLock<Option<Arc<R>>, BuiltBy<F>>,
    ctor: F,
}

impl<R: ?Sized, F: Fn(&Resolver) -> Arc<R>> SingletonCell<R, F> {
    #[verifier::type_invariant]
    spec fn wf(&self) -> bool {
        &&& self.slot.pred() == (BuiltBy { ctor: self.ctor })
        &&& forall|resolver: Resolver| self.ctor.requires((&resolver,))
    }

    /// The constructor that fills the slot.
    pub closed spec fn ctor(&self) -> F {
        self.ctor
    }

    /// An empty cell around `ctor`.
    pub fn new(ctor: F) -> (cell: Self)
        requires
            forall|resolver: Resolver| ctor.requires((&resolver,)),
        ensures
            cell.ctor() == ctor,
    {
        let slot = RwLock::new(None, Ghost(BuiltBy { ctor }));
        SingletonCell { slot, ctor }
    }

    /// The singleton's handle. The first call runs the constructor, with
    /// the slot held exclusively until the handle is stored; every later
    /// call gives out the stored handle.
    pub fn get(&self, resolver: &Resolver) -> (handle: Arc<R>)
        ensures
            built_by(self.ctor(), handle),
    {
        proof {
            use_type_invariant(self);
        }
        let (held, guard) = self.slot.acquire_write();
        let (next, handle) = advance(held, &self.ctor, resolver);
        guard.release_write(next);
        handle
    }
}

/// A registration for a shared handle that has been turned into a
/// singleton and still needs its constructor.
pub struct Singleton<'container, R, P> where P: GetConstructor {
    pub container: &'container mut Container<P>,
    pub phantom: PhantomData<R>,
}

impl<'container, R, P> Registration<'container, Arc<R>, P> where
    R: 'static + ?Sized,
    P: GetConstructor,
 {
    /// Makes the registration one for a singleton: the constructor given
    /// next is run once, and every resolution shares its handle.
    pub fn singleton(self) -> (pending: Singleton<'container, Arc<R>, P>)
        ensures
            *pending.container == *old(self.container),
            *final(pending.container) == *final(self.container),
    {
        Singleton { container: self.container, phantom: self.marker }
    }
}

impl<'container, R, P> Singleton<'container, Arc<R>, P> where
    R: 'static + Send + Sync + ?Sized,
    P: GetConstructor,
 {
    /// Registers `constructor` as the recipe of a singleton: the first
    /// resolution of `Arc<R>` calls it, and every resolution gets the
    /// handle it returned then.
    pub fn construct_with<F>(self, constructor: F) -> (outcome: Result<(), Error>) where
        F: Fn(&Resolver) -> Arc<R> + Send + Sync + 'static,

        requires
            forall|resolver: Resolver| constructor.requires((&resolver,)),
        ensures
            registration_step(
                *old(self.container),
                *final(self.container),
                key_of::<Arc<R>>(),
                outcome,
            ),
            outcome is Ok ==> yields_only(
                final(self.container).local()[key_of::<Arc<R>>()],
                |resolver: Resolver, handle: Arc<R>| built_by(constructor, handle),
            ),
    {
        let cell = SingletonCell::new(constructor);
        let make = move |locator: &Resolver| -> (handle: Arc<R>)
            ensures
                built_by(cell.ctor(), handle),
            {
                cell.get(locator)
            };
        let erased = erase(make);
        self.container.register_constructor::<Arc<R>>(erased)
    }

    /// Registers `E` as the recipe of a singleton: the first resolution of
    /// `Arc<R>` calls `E::construct_as`.
    pub fn construct<E>(self) -> (outcome: Result<(), Error>) where
        E: 'static + ConstructAs<Target = Arc<R>> + Send + Sync,

        ensures
            registration_step(
                *old(self.container),
                *final(self.container),
                key_of::<Arc<R>>(),
                outcome,
            ),
            outcome is Ok ==> yields_only(
                final(self.container).local()[key_of::<Arc<R>>()],
                |resolver: Resolver, handle: Arc<R>|
                    exists|first: Resolver| call_ensures(E::construct_as, (&first,), handle),
            ),
    {
        let recipe = |locator: &Resolver| -> (handle: Arc<R>)
            ensures
                call_ensures(E::construct_as, (locator,), handle),
            {
                E::construct_as(locator)
            };
        self.construct_with(recipe)
    }
}

impl<'container, R, P> Singleton<'container, Arc<R>, P> where
    R: 'static + Construct + Send + Sync,
    P: GetConstructor,
 {
    /// Registers `R`'s own recipe as that of a singleton: the first
    /// resolution of `Arc<R>` calls `R::construct`.
    pub fn construct_it(self) -> (outcome: Result<(), Error>)
        ensures
            registration_step(
                *old(self.container),
                *final(self.container),
                key_of::<Arc<R>>(),
                outcome,
            ),
            outcome is Ok ==> yields_only(
                final(self.container).local()[key_of::<Arc<R>>()],
                |resolver: Resolver, handle: Arc<R>|
                    exists|first: Resolver| call_ensures(R::construct, (&first,), *handle),
            ),
    {
        let recipe = |locator: &Resolver| -> (handle: Arc<R>)
            ensures
                call_ensures(R::construct, (locator,), *handle),
            {
                Arc::new(R::construct(locator))
            };
        self.construct_with(recipe)
    }
}

impl<P: GetConstructor> Container<P> {
    /// Registers `T` as a singleton: the first resolution of `Arc<T>` calls
    /// `T::construct`, and every resolution gets a handle to that one value.
    pub fn register_singleton<T: Construct + Send + Sync + 'static>(&mut self) -> (outcome: Result<
        (),
        Error,
    >)
        ensures
            registration_step(*old(self), *final(self), key_of::<Arc<T>>(), outcome),
            outcome is Ok ==> yields_only(
                final(self).local()[key_of::<Arc<T>>()],
                |resolver: Resolver, handle: Arc<T>|
                    exists|first: Resolver| call_ensures(T::construct, (&first,), *handle),
            ),
    {
        self.when::<Arc<T>>().singleton().construct_it()
    }
}

} // verus!
