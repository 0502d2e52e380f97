//! The combinator algebra: lazily-described action trees.
//!
//! Each combinator is a node holding its child actions and a function;
//! nothing is evaluated until the tree is run under a scaffold (see
//! `scaffold::Run`).  The same tree can therefore be run under the plain
//! carrier, the identity carrier, a writer, or an error carrier.

use core::marker::PhantomData;
use vstd::prelude::*;
use crate::monoid::Monoid;
use crate::scaffold::{Ap, BuildWriter, Run};

verus! {

/// An action which does nothing except return a value.
#[derive(Clone, Debug, PartialEq, Eq, PartialOrd, Ord, Hash)]
pub struct Pure<A> {
    pub value: A,
}

/// Lift a plain value into the simplest action.
pub fn pure<A>(value: A) -> (r: Pure<A>)
    ensures
        r.value == value,
{
    Pure { value: value }
}

/// An already-built carrier value, usable as an action that yields it
/// unchanged when run under the same scaffold.
pub struct Literal<S, A> where S: Ap<A> {
    pub value: S::R,
}

/// Wrap an already-built carrier value as an action.
pub fn literal<S, A>(value: S::R) -> (r: Literal<S, A>) where S: Ap<A>
    ensures
        r.value == value,
{
    Literal { value: value }
}

impl<S: Ap<A>, A> Literal<S, A> {
    /// The carrier value this literal holds.
    pub fn value(self) -> (r: S::R)
        ensures
            r == self.value,
    {
        self.value
    }
}

impl<S, A, W> Literal<BuildWriter<S, W>, A> where S: Ap<(A, W)>, W: Monoid {
    /// View a writer-layer literal as a literal of the inner scaffold:
    /// the held carrier value is the same.
    pub fn unwrap(self) -> (r: Literal<S, (A, W)>)
        ensures
            r.value == self.value,
    {
        literal(self.value)
    }
}

impl<S, A, W> Literal<S, (A, W)> where S: Ap<(A, W)>, W: Monoid {
    /// View an inner-scaffold literal over value-log pairs as a
    /// writer-layer literal: the held carrier value is the same.
    pub fn wrap(self) -> (r: Literal<BuildWriter<S, W>, A>)
        ensures
            r.value == self.value,
    {
        literal(self.value)
    }
}

/// Transform the result of an action with a function, leaving the
/// carried effect unchanged.
#[derive(Debug, PartialEq, Eq)]
pub struct Mapped<A, ActA, F> {
    pub act_a: ActA,
    pub func: F,
    pub _arg: PhantomData<A>,
}

/// Chain two actions, the second chosen from the first one's result.
#[derive(Debug, PartialEq, Eq)]
pub struct AndThen<A, ActA, ActB, F> {
    pub act_a: ActA,
    pub func: F,
    pub _arg: PhantomData<A>,
    pub _act_b: PhantomData<ActB>,
}

/// The same chaining as `AndThen`, but the continuation is supplied as a
/// function taking an explicit context value, for call sites where a
/// capturing closure's type cannot be named ahead of time.
#[derive(Debug, PartialEq, Eq)]
pub struct AndThenCtx<A, ActA, ActB, Ctx, F> {
    pub act_a: ActA,
    pub context: Ctx,
    pub func: F,
    pub _arg: PhantomData<A>,
    pub _act_b: PhantomData<ActB>,
}

/// Run two independent actions left to right, keep the first result and
/// discard the second (its effect still happens).
#[derive(Debug, PartialEq, Eq)]
pub struct First<B, ActA, ActB> {
    pub act_a: ActA,
    pub act_b: ActB,
    pub _other: PhantomData<B>,
}

/// Run two independent actions left to right, keep the second result and
/// discard the first (its effect still happens).
#[derive(Debug, PartialEq, Eq)]
pub struct Second<A, ActA, ActB> {
    pub act_a: ActA,
    pub act_b: ActB,
    pub _other: PhantomData<A>,
}

/// Run two independent actions left to right and pair their results.
#[derive(Clone, Debug, PartialEq, Eq, PartialOrd, Ord, Hash)]
pub struct Sequence<ActA, ActB>(pub ActA, pub ActB);

/// Run two independent actions left to right and merge their results
/// with a binary function.
#[derive(Debug, PartialEq, Eq)]
pub struct Combine<A, B, ActA, ActB, F> {
    pub act_a: ActA,
    pub act_b: ActB,
    pub func: F,
    pub _arg_a: PhantomData<A>,
    pub _arg_b: PhantomData<B>,
}

impl<A, ActA: Clone, F: Clone> Clone for Mapped<A, ActA, F> {
    /// Clone the node; what the clones of the children are is only as
    /// known as their own `clone` implementations make it.
    fn clone(&self) -> (r: Self)
        ensures
            call_ensures(ActA::clone, (&self.act_a,), r.act_a),
            call_ensures(F::clone, (&self.func,), r.func),
    {
        Mapped { act_a: self.act_a.clone(), func: self.func.clone(), _arg: PhantomData }
    }
}

impl<A, ActA: Clone, ActB, F: Clone> Clone for AndThen<A, ActA, ActB, F> {
    /// Clone the node; see `Mapped::clone`.
    fn clone(&self) -> (r: Self)
        ensures
            call_ensures(ActA::clone, (&self.act_a,), r.act_a),
            call_ensures(F::clone, (&self.func,), r.func),
    {
        AndThen { act_a: self.act_a.clone(), func: self.func.clone(), _arg: PhantomData, _act_b: PhantomData }
    }
}

impl<A, ActA: Clone, ActB, Ctx: Clone, F: Clone> Clone for AndThenCtx<A, ActA, ActB, Ctx, F> {
    /// Clone the node; see `Mapped::clone`.
    fn clone(&self) -> (r: Self)
        ensures
            call_ensures(ActA::clone, (&self.act_a,), r.act_a),
            call_ensures(Ctx::clone, (&self.context,), r.context),
            call_ensures(F::clone, (&self.func,), r.func),
    {
        AndThenCtx {
            act_a: self.act_a.clone(),
            context: self.context.clone(),
            func: self.func.clone(),
            _arg: PhantomData,
            _act_b: PhantomData,
        }
    }
}

impl<B, ActA: Clone, ActB: Clone> Clone for First<B, ActA, ActB> {
    /// Clone the node; see `Mapped::clone`.
    fn clone(&self) -> (r: Self)
        ensures
            call_ensures(ActA::clone, (&self.act_a,), r.act_a),
            call_ensures(ActB::clone, (&self.act_b,), r.act_b),
    {
        First { act_a: self.act_a.clone(), act_b: self.act_b.clone(), _other: PhantomData }
    }
}

impl<A, ActA: Clone, ActB: Clone> Clone for Second<A, ActA, ActB> {
    /// Clone the node; see `Mapped::clone`.
    fn clone(&self) -> (r: Self)
        ensures
            call_ensures(ActA::clone, (&self.act_a,), r.act_a),
            call_ensures(ActB::clone, (&self.act_b,), r.act_b),
    {
        Second { act_a: self.act_a.clone(), act_b: self.act_b.clone(), _other: PhantomData }
    }
}

impl<A, B, ActA: Clone, ActB: Clone, F: Clone> Clone for Combine<A, B, ActA, ActB, F> {
    /// Clone the node; see `Mapped::clone`.
    fn clone(&self) -> (r: Self)
        ensures
            call_ensures(ActA::clone, (&self.act_a,), r.act_a),
            call_ensures(ActB::clone, (&self.act_b,), r.act_b),
            call_ensures(F::clone, (&self.func,), r.func),
    {
        Combine {
            act_a: self.act_a.clone(),
            act_b: self.act_b.clone(),
            func: self.func.clone(),
            _arg_a: PhantomData,
            _arg_b: PhantomData,
        }
    }
}

/// An action whose result can be transformed element-wise.
pub trait Mappable<A> where Self: Sized {
    /// Describe the action that runs `self`, then applies `func` to its
    /// result, preserving the carried effect.
    fn map<B, F: FnOnce(A) -> B>(self, func: F) -> (r: Mapped<A, Self, F>)
        ensures
            r.act_a == self,
            r.func == func,
    {
        Mapped { act_a: self, func: func, _arg: PhantomData }
    }
}

/// An action that can be combined positionally with an independent one;
/// the left action always runs first.
pub trait Sequential<A>: Mappable<A> {
    /// Keep the left result, discard the right one (but run it).
    fn first<B, ActB>(self, other: ActB) -> (r: First<B, Self, ActB>)
        ensures
            r.act_a == self,
            r.act_b == other,
    {
        First { act_a: self, act_b: other, _other: PhantomData }
    }

    /// Keep the right result, discard the left one (but run it).
    fn second<ActB>(self, other: ActB) -> (r: Second<A, Self, ActB>)
        ensures
            r.act_a == self,
            r.act_b == other,
    {
        Second { act_a: self, act_b: other, _other: PhantomData }
    }

    /// Pair both results.
    fn sequence<ActB>(self, other: ActB) -> (r: Sequence<Self, ActB>)
        ensures
            r.0 == self,
            r.1 == other,
    {
        Sequence(self, other)
    }

    /// Merge both results with a binary function.
    fn combine<B, C, ActB, F: FnOnce(A, B) -> C>(self, other: ActB, func: F) -> (r:
        Combine<A, B, Self, ActB, F>)
        ensures
            r.act_a == self,
            r.act_b == other,
            r.func == func,
    {
        Combine { act_a: self, act_b: other, func: func, _arg_a: PhantomData, _arg_b: PhantomData }
    }
}

/// An action that can be chained with a dependent continuation.
pub trait Action<A>: Sequential<A> {
    /// Describe the action that runs `self`, hands its result to `func`,
    /// and runs the action `func` returns.
    fn and_then<ActB, F: FnOnce(A) -> ActB>(self, func: F) -> (r: AndThen<
        A,
        Self,
        ActB,
        F,
    >)
        ensures
            r.act_a == self,
            r.func == func,
    {
        AndThen { act_a: self, func: func, _arg: PhantomData, _act_b: PhantomData }
    }

    /// The same as `and_then`, with the continuation supplied as a
    /// function over an explicit context value.
    fn and_then_ctx<ActB, Ctx, F: FnOnce(Ctx, A) -> ActB>(
        self,
        context: Ctx,
        func: F,
    ) -> (r: AndThenCtx<A, Self, ActB, Ctx, F>)
        ensures
            r.act_a == self,
            r.context == context,
            r.func == func,
    {
        AndThenCtx {
            act_a: self,
            context: context,
            func: func,
            _arg: PhantomData,
            _act_b: PhantomData,
        }
    }
}

impl<A> Mappable<A> for Pure<A> {

}

impl<A> Sequential<A> for Pure<A> {

}

impl<A> Action<A> for Pure<A> {

}

impl<S: Ap<A>, A> Mappable<A> for Literal<S, A> {

}

impl<S: Ap<A>, A> Sequential<A> for Literal<S, A> {

}

impl<S: Ap<A>, A> Action<A> for Literal<S, A> {

}

impl<A, B, ActA: Mappable<A>, F: FnOnce(A) -> B> Mappable<B> for Mapped<A, ActA, F> {

}

impl<A, B, ActA: Sequential<A>, F: FnOnce(A) -> B> Sequential<B> for Mapped<A, ActA, F> {

}

impl<A, B, ActA: Action<A>, F: FnOnce(A) -> B> Action<B> for Mapped<A, ActA, F> {

}

impl<A, B, ActA: Action<A>, ActB: Action<B>, F: FnOnce(A) -> ActB> Mappable<B> for AndThen<
    A,
    ActA,
    ActB,
    F,
> {

}

impl<A, B, ActA: Action<A>, ActB: Action<B>, F: FnOnce(A) -> ActB> Sequential<B> for AndThen<
    A,
    ActA,
    ActB,
    F,
> {

}

impl<A, B, ActA: Action<A>, ActB: Action<B>, F: FnOnce(A) -> ActB> Action<B> for AndThen<
    A,
    ActA,
    ActB,
    F,
> {

}

impl<A, B, ActA: Action<A>, ActB: Action<B>, Ctx, F: FnOnce(Ctx, A) -> ActB> Mappable<
    B,
> for AndThenCtx<A, ActA, ActB, Ctx, F> {

}

impl<A, B, ActA: Action<A>, ActB: Action<B>, Ctx, F: FnOnce(Ctx, A) -> ActB> Sequential<
    B,
> for AndThenCtx<A, ActA, ActB, Ctx, F> {

}

impl<A, B, ActA: Action<A>, ActB: Action<B>, Ctx, F: FnOnce(Ctx, A) -> ActB> Action<
    B,
> for AndThenCtx<A, ActA, ActB, Ctx, F> {

}

impl<A, B, ActA: Mappable<A>, ActB: Mappable<B>> Mappable<A> for First<B, ActA, ActB> {

}

impl<A, B, ActA: Sequential<A>, ActB: Sequential<B>> Sequential<A> for First<B, ActA, ActB> {

}

impl<A, B, ActA: Action<A>, ActB: Action<B>> Action<A> for First<B, ActA, ActB> {

}

impl<A, B, ActA: Mappable<A>, ActB: Mappable<B>> Mappable<B> for Second<A, ActA, ActB> {

}

impl<A, B, ActA: Sequential<A>, ActB: Sequential<B>> Sequential<B> for Second<A, ActA, ActB> {

}

impl<A, B, ActA: Action<A>, ActB: Action<B>> Action<B> for Second<A, ActA, ActB> {

}

impl<A, B, ActA: Mappable<A>, ActB: Mappable<B>> Mappable<(A, B)> for Sequence<ActA, ActB> {

}

impl<A, B, ActA: Sequential<A>, ActB: Sequential<B>> Sequential<(A, B)> for Sequence<ActA, ActB> {

}

impl<A, B, ActA: Action<A>, ActB: Action<B>> Action<(A, B)> for Sequence<ActA, ActB> {

}

impl<A, B, C, ActA: Mappable<A>, ActB: Mappable<B>, F: FnOnce(A, B) -> C> Mappable<C> for Combine<
    A,
    B,
    ActA,
    ActB,
    F,
> {

}

impl<A, B, C, ActA: Sequential<A>, ActB: Sequential<B>, F: FnOnce(A, B) -> C> Sequential<
    C,
> for Combine<A, B, ActA, ActB, F> {

}

impl<A, B, C, ActA: Action<A>, ActB: Action<B>, F: FnOnce(A, B) -> C> Action<C> for Combine<
    A,
    B,
    ActA,
    ActB,
    F,
> {

}

/// Every action yields its value unchanged when run under the plain
/// scaffold `()`: `Pure` builds through any scaffold.
impl<S: Ap<A>, A> Run<S, A> for Pure<A> {
    open spec fn pre(self) -> bool {
        true
    }

    open spec fn post(self, r: S::R) -> bool {
        S::builds(self.value, r)
    }

    fn run(self) -> (r: S::R) {
        S::build(self.value)
    }
}

/// A literal yields exactly the carrier value it holds.
impl<S: Ap<A>, A> Run<S, A> for Literal<S, A> {
    open spec fn pre(self) -> bool {
        true
    }

    open spec fn post(self, r: S::R) -> bool {
        r == self.value
    }

    fn run(self) -> (r: S::R) {
        self.value
    }
}

/// `Map` under the plain carrier: run the child, apply the function.
impl<A, B, ActA: Run<(), A>, F: FnOnce(A) -> B> Run<(), B> for Mapped<A, ActA, F> {
    open spec fn pre(self) -> bool {
        &&& self.act_a.pre()
        &&& forall|a: A| self.act_a.post(a) ==> call_requires(self.func, (a,))
    }

    open spec fn post(self, r: B) -> bool {
        exists|a: A| self.act_a.post(a) && call_ensures(self.func, (a,), r)
    }

    fn run(self) -> (r: B) {
        let a = self.act_a.run();
        let ghost aw = a;
        let r = (self.func)(a);
        proof {
            assert(self.act_a.post(aw) && call_ensures(self.func, (aw,), r));
        }
        r
    }
}

/// `AndThen` under the plain carrier: run the child, hand its result to
/// the continuation, run the returned action.
impl<A, B, ActA: Run<(), A>, ActB: Run<(), B>, F: FnOnce(A) -> ActB> Run<(), B> for AndThen<
    A,
    ActA,
    ActB,
    F,
> {
    open spec fn pre(self) -> bool {
        &&& self.act_a.pre()
        &&& forall|a: A| self.act_a.post(a) ==> call_requires(self.func, (a,))
        &&& forall|a: A, m: ActB|
            self.act_a.post(a) && call_ensures(self.func, (a,), m) ==> m.pre()
    }

    open spec fn post(self, r: B) -> bool {
        exists|a: A, m: ActB|
            self.act_a.post(a) && call_ensures(self.func, (a,), m) && m.post(r)
    }

    fn run(self) -> (r: B) {
        let a = self.act_a.run();
        let ghost aw = a;
        let m = (self.func)(a);
        let ghost mw = m;
        let r = m.run();
        proof {
            assert(self.act_a.post(aw) && call_ensures(self.func, (aw,), mw) && mw.post(r));
        }
        r
    }
}

/// `AndThenCtx` under the plain carrier.
impl<A, B, ActA: Run<(), A>, ActB: Run<(), B>, Ctx, F: FnOnce(Ctx, A) -> ActB> Run<(
), B> for AndThenCtx<A, ActA, ActB, Ctx, F> {
    open spec fn pre(self) -> bool {
        &&& self.act_a.pre()
        &&& forall|a: A| self.act_a.post(a) ==> call_requires(self.func, (self.context, a))
        &&& forall|a: A, m: ActB|
            self.act_a.post(a) && call_ensures(self.func, (self.context, a), m) ==> m.pre()
    }

    open spec fn post(self, r: B) -> bool {
        exists|a: A, m: ActB|
            self.act_a.post(a) && call_ensures(self.func, (self.context, a), m) && m.post(r)
    }

    fn run(self) -> (r: B) {
        let ghost ctx = self.context;
        let a = self.act_a.run();
        let ghost aw = a;
        let m = (self.func)(self.context, a);
        let ghost mw = m;
        let r = m.run();
        proof {
            assert(self.act_a.post(aw) && call_ensures(self.func, (ctx, aw), mw) && mw.post(r));
        }
        r
    }
}

/// `First` under the plain carrier: both children run, left result kept.
impl<A, B, ActA: Run<(), A>, ActB: Run<(), B>> Run<(), A> for First<B, ActA, ActB> {
    open spec fn pre(self) -> bool {
        self.act_a.pre() && self.act_b.pre()
    }

    open spec fn post(self, r: A) -> bool {
        self.act_a.post(r) && exists|b: B| self.act_b.post(b)
    }

    fn run(self) -> (r: A) {
        let a = self.act_a.run();
        let b = self.act_b.run();
        let ghost bw = b;
        proof {
            assert(self.act_b.post(bw));
        }
        a
    }
}

/// `Second` under the plain carrier: both children run, right result kept.
impl<A, B, ActA: Run<(), A>, ActB: Run<(), B>> Run<(), B> for Second<A, ActA, ActB> {
    open spec fn pre(self) -> bool {
        self.act_a.pre() && self.act_b.pre()
    }

    open spec fn post(self, r: B) -> bool {
        self.act_b.post(r) && exists|a: A| self.act_a.post(a)
    }

    fn run(self) -> (r: B) {
        let a = self.act_a.run();
        let ghost aw = a;
        let b = self.act_b.run();
        proof {
            assert(self.act_a.post(aw));
        }
        b
    }
}

/// `Sequence` under the plain carrier: both children run, results paired.
impl<A, B, ActA: Run<(), A>, ActB: Run<(), B>> Run<(), (A, B)> for Sequence<ActA, ActB> {
    open spec fn pre(self) -> bool {
        self.0.pre() && self.1.pre()
    }

    open spec fn post(self, r: (A, B)) -> bool {
        self.0.post(r.0) && self.1.post(r.1)
    }

    fn run(self) -> (r: (A, B)) {
        let a = self.0.run();
        let b = self.1.run();
        (a, b)
    }
}

/// `Combine` under the plain carrier: both children run, results merged.
impl<A, B, C, ActA: Run<(), A>, ActB: Run<(), B>, F: FnOnce(A, B) -> C> Run<(), C> for Combine<
    A,
    B,
    ActA,
    ActB,
    F,
> {
    open spec fn pre(self) -> bool {
        &&& self.act_a.pre()
        &&& self.act_b.pre()
        &&& forall|a: A, b: B|
            self.act_a.post(a) && self.act_b.post(b) ==> call_requires(self.func, (a, b))
    }

    open spec fn post(self, r: C) -> bool {
        exists|a: A, b: B|
            self.act_a.post(a) && self.act_b.post(b) && call_ensures(self.func, (a, b), r)
    }

    fn run(self) -> (r: C) {
        let a = self.act_a.run();
        let ghost aw = a;
        let b = self.act_b.run();
        let ghost bw = b;
        let r = (self.func)(a, b);
        proof {
            assert(self.act_a.post(aw) && self.act_b.post(bw) && call_ensures(
                self.func,
                (aw, bw),
                r,
            ));
        }
        r
    }
}

} // verus!
