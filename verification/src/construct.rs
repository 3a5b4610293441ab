//! What a type implements to be built by a container.

use crate::container::Resolver;
use std::cell::RefCell;
use std::rc::Rc;
use std::sync::Arc;
use std::sync::Mutex;
use vstd::prelude::*;

verus! {

/// A type that knows how to build itself from what a resolver can find.
pub trait Construct: Sized {
    fn construct(locator: &Resolver) -> Self;
}

/// A type that serves as the recipe for a value of another type, its
/// `Target`: the type under which the value is registered.
pub trait ConstructAs: Construct {
    type Target;

    fn construct_as(locator: &Resolver) -> Self::Target;
}

/// `std::cell::RefCell`, carried through as an opaque value.
#[verifier::external_type_specification]
#[verifier::external_body]
#[verifier::reject_recursive_types(T)]
pub struct ExRefCell<T: ?Sized>(RefCell<T>);

/// `std::sync::Mutex`, carried through as an opaque value.
#[verifier::external_type_specification]
#[verifier::external_body]
#[verifier::reject_recursive_types(T)]
pub struct ExMutex<T: ?Sized>(Mutex<T>);

/// `RefCell::new` wraps a value; a cell's content can change behind a
/// shared reference, so nothing is said of it.
pub assume_specification<T>[ RefCell::<T>::new ](value: T) -> RefCell<T>;

/// `Mutex::new` wraps a value; a mutex's content can change behind a shared
/// reference, so nothing is said of it.
pub assume_specification<T>[ Mutex::<T>::new ](t: T) -> Mutex<T>;

/// A handle to a value that `T` built for the same locator.
impl<T: Construct> Construct for Rc<T> {
    fn construct(locator: &Resolver) -> (made: Self)
        ensures
            call_ensures(T::construct, (locator,), *made),
    {
        Rc::new(T::construct(locator))
    }
}

/// A shareable handle to a value that `T` built for the same locator.
impl<T: Construct> Construct for Arc<T> {
    fn construct(locator: &Resolver) -> (made: Self)
        ensures
            call_ensures(T::construct, (locator,), *made),
    {
        Arc::new(T::construct(locator))
    }
}

/// A cell is built around a value that `T` built for the same locator.
impl<T: Construct> Construct for RefCell<T> {
    fn construct(locator: &Resolver) -> (made: Self)
        ensures
            exists|inner: T|
                call_ensures(T::construct, (locator,), inner) && #[trigger] new_cell_of(
                    inner,
                    made,
                ),
    {
        let inner = T::construct(locator);
        // Called as a function value, so that the cell is known to be one
        // that `RefCell::new` makes of `inner`.
        let wrap = RefCell::<T>::new;
        let made = wrap(inner);
        assert(new_cell_of(inner, made));
        made
    }
}

/// A mutex is built around a value that `T` built for the same locator.
impl<T: Construct> Construct for Mutex<T> {
    fn construct(locator: &Resolver) -> (made: Self)
        ensures
            exists|inner: T|
                call_ensures(T::construct, (locator,), inner) && #[trigger] new_mutex_of(
                    inner,
                    made,
                ),
    {
        let inner = T::construct(locator);
        // Called as a function value, so that the mutex is known to be one
        // that `Mutex::new` makes of `inner`.
        let wrap = Mutex::<T>::new;
        let made = wrap(inner);
        assert(new_mutex_of(inner, made));
        made
    }
}

/// `cell` is a cell that `RefCell::new` makes of `value`. What the cell
/// holds later is not part of this: it can change behind a shared reference.
pub open spec fn new_cell_of<T>(value: T, cell: RefCell<T>) -> bool {
    call_ensures(RefCell::<T>::new, (value,), cell)
}

/// `mutex` is a mutex that `Mutex::new` makes of `value`. What the mutex
/// holds later is not part of this: it can change behind a shared reference.
pub open spec fn new_mutex_of<T>(value: T, mutex: Mutex<T>) -> bool {
    call_ensures(Mutex::<T>::new, (value,), mutex)
}

} // verus!
