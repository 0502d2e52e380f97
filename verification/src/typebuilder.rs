//! A second scaffold discipline: layers that wrap their carrier around
//! the inner scaffold's finished output, rather than around the value
//! before it is handed inward (compare `scaffold`).  Under `Ap` the
//! outermost scaffold layer ends up innermost in the built type; under
//! `TypeBuilder` the outermost layer is outermost in the built type.

use core::marker::PhantomData;
use vstd::prelude::*;
use crate::identity::Id;
use crate::monoid::Monoid;

verus! {

/// A type scaffold: a zero-size marker for an incomplete type, completed
/// by `build` into the simplest carrier value holding the given value.
///
/// As with `Ap`, `builds` pins `build` exactly; it is a relation only
/// because an empty log is characterised by its model.
pub trait TypeBuilder<A> {
    /// The completed type.
    type Output;

    /// Which results `build` may return for a given value.
    spec fn builds(a: A, r: Self::Output) -> bool;

    /// Wrap a value into the simplest carrier stack of this scaffold.
    fn build(a: A) -> (r: Self::Output)
        ensures
            Self::builds(a, r),
    ;
}

/// The plain scaffold: no carrier at all.
impl<A> TypeBuilder<A> for () {
    type Output = A;

    open spec fn builds(a: A, r: A) -> bool {
        r == a
    }

    fn build(a: A) -> (r: A) {
        a
    }
}

/// A layer that puts the value into the identity carrier and hands the
/// wrapped value to the inner scaffold.
#[derive(Debug, PartialEq, Eq)]
pub struct BuildId<S>(pub S);

impl<A, S> TypeBuilder<A> for BuildId<S> where S: TypeBuilder<Id<A>> {
    type Output = S::Output;

    open spec fn builds(a: A, r: S::Output) -> bool {
        S::builds(Id(a), r)
    }

    fn build(a: A) -> (r: S::Output) {
        S::build(Id(a))
    }
}

/// A layer that pairs the inner scaffold's finished output with an empty
/// log of monoid `W`.
#[derive(Debug, PartialEq, Eq)]
pub struct BuildWriter<S, W>(pub PhantomData<W>, pub S);

impl<A, S, W> TypeBuilder<A> for BuildWriter<S, W> where S: TypeBuilder<A>, W: Monoid {
    type Output = (S::Output, W);

    open spec fn builds(a: A, r: (S::Output, W)) -> bool {
        S::builds(a, r.0) && r.1.model() == W::munit()
    }

    fn build(a: A) -> (r: (S::Output, W)) {
        (S::build(a), W::empty())
    }
}

/// A layer that wraps the inner scaffold's finished output in `Ok`.
#[derive(Debug, PartialEq, Eq)]
pub struct BuildError<S, E>(pub PhantomData<E>, pub S);

impl<A, S, E> TypeBuilder<A> for BuildError<S, E> where S: TypeBuilder<A> {
    type Output = Result<S::Output, E>;

    open spec fn builds(a: A, r: Result<S::Output, E>) -> bool {
        r matches Ok(inner) && S::builds(a, inner)
    }

    fn build(a: A) -> (r: Result<S::Output, E>) {
        Ok(S::build(a))
    }
}

} // verus!
