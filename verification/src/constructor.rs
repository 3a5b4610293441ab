//! Construction strategies with their type erased, and the little that is
//! taken on trust about them.

use crate::container::Resolver;
use crate::key::key_of;
use std::any::Any;
use std::any::TypeId;
use std::sync::Arc;
use vstd::prelude::*;

verus! {

/// A construction strategy with its type erased: a shareable function from
/// a resolver to a boxed value of the one type it was made for.
///
/// Verus takes neither `dyn Fn` nor `dyn Any` in a type, so the field is
/// hidden from it. What the library knows of a constructor is the key of
/// the type it makes, [`constructor_key`], and which values it can hand out,
/// [`produces`].
#[verifier::external_body]
pub struct Constructor {
    run: Arc<dyn for<'a, 'r> Fn(&'a Resolver<'r>) -> Box<dyn Any> + Send + Sync>,
}

/// The key of the type whose values `c` makes: the `TypeId` of what its
/// boxed function puts in the box.
pub uninterp spec fn constructor_key(c: Constructor) -> TypeId;

/// `v` is a value that `c` can hand out, at type `T`, when it is run with
/// `resolver`: a possible result of taking the strategy's value out of its
/// box as a `T`.
pub closed spec fn produces<T: 'static>(c: Constructor, resolver: Resolver, v: T) -> bool {
    call_ensures(invoke::<T>, (&c, &resolver), Some(v))
}

/// Every constructor of `m` stands under the key of the type it makes.
pub open spec fn keyed(m: Map<TypeId, Constructor>) -> bool {
    forall|k: TypeId| #[trigger] m.contains_key(k) ==> constructor_key(m[k]) == k
}

/// Whatever `c` hands out at type `T` is admitted by `allowed`.
pub open spec fn yields_only<T: 'static>(
    c: Constructor,
    allowed: spec_fn(Resolver, T) -> bool,
) -> bool {
    forall|resolver: Resolver, v: T| #[trigger] produces(c, resolver, v) ==> allowed(resolver, v)
}

/// Boxes `f` as a constructor for `R`: `Arc::new` of a closure that runs `f`
/// and puts the result in a `Box<dyn Any>`.
///
/// The contract claims that the constructor makes values of type `R`, and
/// that each value it hands out at that type is one that `f` returned for
/// the same resolver.
#[verifier::external_body]
pub(crate) fn erase<R: 'static, F>(f: F) -> (c: Constructor) where
    F: for <'a, 'r>Fn(&'a Resolver<'r>) -> R + Send + Sync + 'static,

    requires
        forall|resolver: Resolver| f.requires((&resolver,)),
    ensures
        constructor_key(c) == key_of::<R>(),
        forall|resolver: Resolver, v: R| #[trigger]
            produces(c, resolver, v) ==> f.ensures((&resolver,), v),
{
    Constructor { run: Arc::new(move |resolver: &Resolver| Box::new(f(resolver)) as Box<dyn Any>) }
}

/// Runs the boxed function and takes the value out with
/// `Box<dyn Any>::downcast::<T>`.
///
/// The contract claims that the downcast succeeds exactly when the box
/// holds a `T`, that is when `c` was made for the type whose key is `T`'s.
#[verifier::external_body]
pub(crate) fn invoke<T: 'static>(c: &Constructor, resolver: &Resolver) -> (out: Option<T>)
    ensures
        out is Some <==> constructor_key(*c) == key_of::<T>(),
{
    (c.run)(resolver).downcast::<T>().ok().map(|boxed| *boxed)
}

/// `Arc::clone` of the boxed function: another handle to the same strategy.
#[verifier::external_body]
pub(crate) fn share(c: &Constructor) -> (shared: Constructor)
    ensures
        shared == *c,
{
    Constructor { run: Arc::clone(&c.run) }
}

impl Constructor {
    /// Runs the strategy with `resolver` and takes the value out at type
    /// `T`: `None` exactly when the strategy was made for another type.
    pub fn run<T: 'static>(&self, resolver: &Resolver) -> (out: Option<T>)
        ensures
            out is Some <==> constructor_key(*self) == key_of::<T>(),
            out matches Some(v) ==> produces(*self, *resolver, v),
    {
        // Called as a function value, so that the result is known to be
        // one of the function's possible results, which is what `produces`
        // speaks of.
        let call = invoke::<T>;
        call(self, resolver)
    }
}

} // verus!
