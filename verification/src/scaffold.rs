//! Scaffolds: zero-size markers that describe, at the point where an
//! action is run, which stack of carriers the result is built into.

use core::marker::PhantomData;
use vstd::prelude::*;
use crate::identity::Id;
use crate::monoid::Monoid;

verus! {

/// A scaffold describes an incomplete type: given a value of type `A`,
/// `build` completes the type and produces the simplest carrier value
/// holding `A` (the same job as `pure`, but directed by the scaffold).
///
/// `builds` is the exact relation between the input value and the built
/// result; every implementation's `build` is pinned to it.  It is a
/// relation rather than a function only because a writer's empty log is
/// characterised by its model (for `String`, its characters).
pub trait Ap<A> {
    /// The completed type.
    type R;

    /// Which results `build` may return for a given value.
    spec fn builds(a: A, r: Self::R) -> bool;

    /// Wrap a value into the simplest carrier stack of this scaffold.
    fn build(a: A) -> (r: Self::R)
        ensures
            Self::builds(a, r),
    ;
}

/// The plain scaffold: no carrier at all, a value is its own result.
impl<A> Ap<A> for () {
    type R = A;

    open spec fn builds(a: A, r: A) -> bool {
        r == a
    }

    fn build(a: A) -> (r: A) {
        a
    }
}

/// A scaffold layer that wraps the value in the identity carrier `Id`
/// before handing it to the inner scaffold `S`.
#[derive(Debug, PartialEq, Eq)]
pub struct BuildId<S>(pub S);

impl<A, S> Ap<A> for BuildId<S> where S: Ap<Id<A>> {
    type R = S::R;

    open spec fn builds(a: A, r: S::R) -> bool {
        S::builds(Id(a), r)
    }

    fn build(a: A) -> (r: S::R) {
        S::build(Id(a))
    }
}

/// A scaffold layer that pairs the value with an empty log of monoid `W`
/// before handing it to the inner scaffold `S`.
#[derive(Debug, PartialEq, Eq)]
pub struct BuildWriter<S, W>(pub PhantomData<W>, pub S);

impl<A, S, W> Ap<A> for BuildWriter<S, W> where S: Ap<(A, W)>, W: Monoid {
    type R = S::R;

    open spec fn builds(a: A, r: S::R) -> bool {
        exists|w: W| w.model() == W::munit() && S::builds((a, w), r)
    }

    fn build(a: A) -> (r: S::R) {
        let w = W::empty();
        let ghost wg = w;
        let r = S::build((a, w));
        proof {
            assert(wg.model() == W::munit() && S::builds((a, wg), r));
        }
        r
    }
}

/// A scaffold layer that wraps the value in `Ok` before handing it to
/// the inner scaffold `S`; a failed action yields `Err` instead.
#[derive(Debug, PartialEq, Eq)]
pub struct BuildError<S, E>(pub PhantomData<E>, pub S);

impl<A, S, E> Ap<A> for BuildError<S, E> where S: Ap<Result<A, E>> {
    type R = S::R;

    open spec fn builds(a: A, r: S::R) -> bool {
        S::builds(Ok(a), r)
    }

    fn build(a: A) -> (r: S::R) {
        S::build(Ok(a))
    }
}

/// An action that can be evaluated under scaffold `S` to a completed
/// carrier value.  `pre` says when running is allowed (the preconditions
/// of every function the tree will call); `post` relates the tree to its
/// possible results and is exact up to what the tree's own functions
/// promise.
pub trait Run<S, A>: Sized where S: Ap<A> {
    /// When this action may be run.
    spec fn pre(self) -> bool;

    /// Which results running this action may produce.
    spec fn post(self, r: S::R) -> bool;

    /// Evaluate the action, producing the completed carrier value.
    fn run(self) -> (r: S::R)
        requires
            self.pre(),
        ensures
            self.post(r),
    ;

    /// Evaluate the action; the scaffold argument only names which
    /// carrier stack to run under, where inference alone cannot.
    fn run_qualified(self, scaffold: &S) -> (r: S::R)
        requires
            self.pre(),
        ensures
            self.post(r),
    {
        self.run()
    }
}

} // verus!
