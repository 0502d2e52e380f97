//! Actions as composable functions: each action maps an input to an
//! output, chains compose them, and an interpretation trait runs a chain
//! either directly (`Identity`) or with failures (`Error`).

pub mod error;

use core::marker::PhantomData;
use vstd::prelude::*;

verus! {

/// An action built from a plain function.
pub struct FromFunc<A, B, F> {
    pub func: F,
    pub _input: PhantomData<A>,
    pub _output: PhantomData<B>,
}

/// Wrap a function as an action.
pub fn f<A, B, F: Fn(A) -> B>(func: F) -> (r: FromFunc<A, B, F>)
    ensures
        r.func == func,
{
    FromFunc { func: func, _input: PhantomData, _output: PhantomData }
}

/// The action that passes its input through unchanged.
pub struct Id<A>(pub PhantomData<A>);

/// Build the pass-through action.
pub fn id<A>() -> (r: Id<A>)
    ensures
        r == (Id::<A>(PhantomData)),
{
    Id(PhantomData)
}

/// The action that ignores its input and yields a fixed value.
pub struct Pure<A> {
    pub value: A,
}

/// Build the constant action.
pub fn pure<A>(value: A) -> (r: Pure<A>)
    ensures
        r.value == value,
{
    Pure { value: value }
}

/// An action built from a function that can fail.
pub struct FuncError<A, B, F> {
    pub func: F,
    pub _input: PhantomData<A>,
    pub _output: PhantomData<B>,
}

/// Wrap a fallible function as an action.
pub fn e<A, B, F>(func: F) -> (r: FuncError<A, B, F>)
    ensures
        r.func == func,
{
    FuncError { func: func, _input: PhantomData, _output: PhantomData }
}

/// Feed the first action's output into the second.
pub struct AndThen<ActA, ActB> {
    pub act_a: ActA,
    pub act_b: ActB,
}

/// Run two actions on the two halves of a paired input.
pub struct Sequence<ActA, ActB> {
    pub act_a: ActA,
    pub act_b: ActB,
}

/// Run an action on the first half of a paired input and pass the second
/// half through unchanged.
pub struct First<ActA, B> {
    pub act_a: ActA,
    pub _passthrough: PhantomData<B>,
}

/// Pass the first half of a paired input through unchanged and run an
/// action on the second half.
pub struct Second<A, ActB> {
    pub act_b: ActB,
    pub _passthrough: PhantomData<A>,
}

/// Run two actions on one and the same input.
pub struct Tee<ActA, ActB> {
    pub act_a: ActA,
    pub act_b: ActB,
}

/// An action from an input to an output, with combinators to compose
/// larger actions; how a chain is evaluated is chosen by interpretation
/// (`Identity` or `Error`), not here.
pub trait Action: Sized {
    type Input;

    type Output;

    /// Feed this action's output into `other`.
    fn and_then<ActB>(self, other: ActB) -> (r: AndThen<Self, ActB>)
        ensures
            r.act_a == self,
            r.act_b == other,
    {
        AndThen { act_a: self, act_b: other }
    }

    /// Pair this action with `other`, each taking its own input.
    fn sequence<ActB>(self, other: ActB) -> (r: Sequence<Self, ActB>)
        ensures
            r.act_a == self,
            r.act_b == other,
    {
        Sequence { act_a: self, act_b: other }
    }

    /// Run this action on the first half of a pair, passing the second
    /// half through.
    fn first<B>(self) -> (r: First<Self, B>)
        ensures
            r.act_a == self,
    {
        First { act_a: self, _passthrough: PhantomData }
    }

    /// Run this action on the second half of a pair, passing the first
    /// half through.
    fn second<A>(self) -> (r: Second<A, Self>)
        ensures
            r.act_b == self,
    {
        Second { act_b: self, _passthrough: PhantomData }
    }

    /// Run this action and `other` on one and the same input.
    fn tee<ActB>(self, other: ActB) -> (r: Tee<Self, ActB>)
        ensures
            r.act_a == self,
            r.act_b == other,
    {
        Tee { act_a: self, act_b: other }
    }
}

impl<A, B, F: Fn(A) -> B> Action for FromFunc<A, B, F> {
    type Input = A;

    type Output = B;
}

impl<A> Action for Id<A> {
    type Input = A;

    type Output = A;
}

impl<A> Action for Pure<A> {
    type Input = ();

    type Output = A;
}

impl<A, B, F> Action for FuncError<A, B, F> {
    type Input = A;

    type Output = B;
}

impl<ActA: Action, ActB: Action<Input = ActA::Output>> Action for AndThen<ActA, ActB> {
    type Input = ActA::Input;

    type Output = ActB::Output;
}

impl<ActA: Action, ActB: Action> Action for Sequence<ActA, ActB> {
    type Input = (ActA::Input, ActB::Input);

    type Output = (ActA::Output, ActB::Output);
}

impl<ActA: Action, B> Action for First<ActA, B> {
    type Input = (ActA::Input, B);

    type Output = (ActA::Output, B);
}

impl<A, ActB: Action> Action for Second<A, ActB> {
    type Input = (A, ActB::Input);

    type Output = (A, ActB::Output);
}

impl<ActA: Action, ActB: Action<Input = ActA::Input>> Action for Tee<ActA, ActB> {
    type Input = ActA::Input;

    type Output = (ActA::Output, ActB::Output);
}

/// Evaluate an action directly: no failures, the output is produced from
/// the input in one pass.
pub trait Identity: Action {
    /// When the action may be run on an input.
    spec fn run_pre(&self, arg: Self::Input) -> bool;

    /// Which outputs running on an input may produce.
    spec fn run_post(&self, arg: Self::Input, r: Self::Output) -> bool;

    /// Evaluate the action on an input.
    fn run(&self, arg: Self::Input) -> (r: Self::Output)
        requires
            self.run_pre(arg),
        ensures
            self.run_post(arg, r),
    ;
}

impl<A, B, F: Fn(A) -> B> Identity for FromFunc<A, B, F> {
    open spec fn run_pre(&self, arg: A) -> bool {
        call_requires(self.func, (arg,))
    }

    open spec fn run_post(&self, arg: A, r: B) -> bool {
        call_ensures(self.func, (arg,), r)
    }

    fn run(&self, arg: A) -> (r: B) {
        (self.func)(arg)
    }
}

impl<A> Identity for Id<A> {
    open spec fn run_pre(&self, arg: A) -> bool {
        true
    }

    open spec fn run_post(&self, arg: A, r: A) -> bool {
        r == arg
    }

    fn run(&self, arg: A) -> (r: A) {
        arg
    }
}

impl<A: Copy> Identity for Pure<A> {
    open spec fn run_pre(&self, arg: ()) -> bool {
        true
    }

    open spec fn run_post(&self, arg: (), r: A) -> bool {
        r == self.value
    }

    fn run(&self, arg: ()) -> (r: A) {
        self.value
    }
}

impl<ActA: Identity, ActB: Identity<Input = ActA::Output>> Identity for AndThen<ActA, ActB> {
    open spec fn run_pre(&self, arg: ActA::Input) -> bool {
        &&& self.act_a.run_pre(arg)
        &&& forall|mid: ActA::Output| self.act_a.run_post(arg, mid) ==> self.act_b.run_pre(mid)
    }

    open spec fn run_post(&self, arg: ActA::Input, r: ActB::Output) -> bool {
        exists|mid: ActA::Output| self.act_a.run_post(arg, mid) && self.act_b.run_post(mid, r)
    }

    fn run(&self, arg: ActA::Input) -> (r: ActB::Output) {
        let mid = self.act_a.run(arg);
        let ghost midw = mid;
        let r = self.act_b.run(mid);
        proof {
            assert(self.act_a.run_post(arg, midw) && self.act_b.run_post(midw, r));
        }
        r
    }
}

impl<ActA: Identity, ActB: Identity> Identity for Sequence<ActA, ActB> {
    open spec fn run_pre(&self, arg: (ActA::Input, ActB::Input)) -> bool {
        self.act_a.run_pre(arg.0) && self.act_b.run_pre(arg.1)
    }

    open spec fn run_post(
        &self,
        arg: (ActA::Input, ActB::Input),
        r: (ActA::Output, ActB::Output),
    ) -> bool {
        self.act_a.run_post(arg.0, r.0) && self.act_b.run_post(arg.1, r.1)
    }

    fn run(&self, arg: (ActA::Input, ActB::Input)) -> (r: (ActA::Output, ActB::Output)) {
        let (ia, ib) = arg;
        let a = self.act_a.run(ia);
        let b = self.act_b.run(ib);
        (a, b)
    }
}

impl<ActA: Identity, B> Identity for First<ActA, B> {
    open spec fn run_pre(&self, arg: (ActA::Input, B)) -> bool {
        self.act_a.run_pre(arg.0)
    }

    open spec fn run_post(&self, arg: (ActA::Input, B), r: (ActA::Output, B)) -> bool {
        self.act_a.run_post(arg.0, r.0) && r.1 == arg.1
    }

    fn run(&self, arg: (ActA::Input, B)) -> (r: (ActA::Output, B)) {
        let (ia, b) = arg;
        let a = self.act_a.run(ia);
        (a, b)
    }
}

impl<A, ActB: Identity> Identity for Second<A, ActB> {
    open spec fn run_pre(&self, arg: (A, ActB::Input)) -> bool {
        self.act_b.run_pre(arg.1)
    }

    open spec fn run_post(&self, arg: (A, ActB::Input), r: (A, ActB::Output)) -> bool {
        self.act_b.run_post(arg.1, r.1) && r.0 == arg.0
    }

    fn run(&self, arg: (A, ActB::Input)) -> (r: (A, ActB::Output)) {
        let (a, ib) = arg;
        let b = self.act_b.run(ib);
        (a, b)
    }
}

impl<ActA: Identity, ActB: Identity<Input = ActA::Input>> Identity for Tee<ActA, ActB> where
    ActA::Input: Copy,
 {
    open spec fn run_pre(&self, arg: ActA::Input) -> bool {
        self.act_a.run_pre(arg) && self.act_b.run_pre(arg)
    }

    open spec fn run_post(&self, arg: ActA::Input, r: (ActA::Output, ActB::Output)) -> bool {
        self.act_a.run_post(arg, r.0) && self.act_b.run_post(arg, r.1)
    }

    fn run(&self, arg: ActA::Input) -> (r: (ActA::Output, ActB::Output)) {
        let a = self.act_a.run(arg);
        let b = self.act_b.run(arg);
        (a, b)
    }
}

} // verus!
