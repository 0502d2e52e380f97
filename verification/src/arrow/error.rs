//! Evaluating an action chain with failures: any step may yield an error
//! instead of an output, and the first error stops the chain.

use core::marker::PhantomData;
use vstd::prelude::*;
use crate::arrow::{Action, AndThen, First, FromFunc, FuncError, Id, Identity, Pure, Second,
    Sequence, Tee};

verus! {

/// Either an error (left) or a proper output (right).
#[derive(Clone, Debug, PartialEq, Eq, PartialOrd, Ord, Hash)]
pub enum Either<A, B> {
    Left(A),
    Right(B),
}

/// Evaluate an action where any step may fail with an error of type `E`;
/// the first failure is the result, and no later step runs.
pub trait Error<E>: Action {
    /// When the action may be run on an input.
    spec fn err_pre(&self, arg: Self::Input) -> bool;

    /// Which outcomes running on an input may produce.
    spec fn err_post(&self, arg: Self::Input, r: Either<E, Self::Output>) -> bool;

    /// Evaluate the action on an input, failures included.
    fn run_error(&self, arg: Self::Input) -> (r: Either<E, Self::Output>)
        requires
            self.err_pre(arg),
        ensures
            self.err_post(arg, r),
    ;
}

/// A plain function cannot fail: its action always yields `Right`.
impl<A, B, F: Fn(A) -> B, E> Error<E> for FromFunc<A, B, F> {
    open spec fn err_pre(&self, arg: A) -> bool {
        call_requires(self.func, (arg,))
    }

    open spec fn err_post(&self, arg: A, r: Either<E, B>) -> bool {
        exists|b: B| call_ensures(self.func, (arg,), b) && r == Either::<E, B>::Right(b)
    }

    fn run_error(&self, arg: A) -> (r: Either<E, B>) {
        let b = (self.func)(arg);
        let ghost bw = b;
        let r = Either::Right(b);
        proof {
            assert(call_ensures(self.func, (arg,), bw) && r == Either::<E, B>::Right(bw));
        }
        r
    }
}

/// The pass-through action cannot fail.
impl<A, E> Error<E> for Id<A> {
    open spec fn err_pre(&self, arg: A) -> bool {
        true
    }

    open spec fn err_post(&self, arg: A, r: Either<E, A>) -> bool {
        r == Either::<E, A>::Right(arg)
    }

    fn run_error(&self, arg: A) -> (r: Either<E, A>) {
        Either::Right(arg)
    }
}

/// The constant action cannot fail.
impl<A: Copy, E> Error<E> for Pure<A> {
    open spec fn err_pre(&self, arg: ()) -> bool {
        true
    }

    open spec fn err_post(&self, arg: (), r: Either<E, A>) -> bool {
        r == Either::<E, A>::Right(self.value)
    }

    fn run_error(&self, arg: ()) -> (r: Either<E, A>) {
        Either::Right(self.value)
    }
}

/// A fallible function is run as it stands: whatever side it returns is
/// the outcome.
impl<A, B, E, F: Fn(A) -> Either<E, B>> Error<E> for FuncError<A, B, F> {
    open spec fn err_pre(&self, arg: A) -> bool {
        call_requires(self.func, (arg,))
    }

    open spec fn err_post(&self, arg: A, r: Either<E, B>) -> bool {
        call_ensures(self.func, (arg,), r)
    }

    fn run_error(&self, arg: A) -> (r: Either<E, B>) {
        (self.func)(arg)
    }
}

/// Chaining with failures: a failed first action short-circuits and the
/// second action never runs.
impl<E, ActA: Error<E>, ActB: Error<E, Input = ActA::Output>> Error<E> for AndThen<ActA, ActB> {
    open spec fn err_pre(&self, arg: ActA::Input) -> bool {
        &&& self.act_a.err_pre(arg)
        &&& forall|mid: ActA::Output|
            self.act_a.err_post(arg, Either::Right(mid)) ==> self.act_b.err_pre(mid)
    }

    open spec fn err_post(&self, arg: ActA::Input, r: Either<E, ActB::Output>) -> bool {
        exists|ra: Either<E, ActA::Output>|
            self.act_a.err_post(arg, ra) && match ra {
                Either::Left(err) => r == Either::<E, ActB::Output>::Left(err),
                Either::Right(mid) => self.act_b.err_post(mid, r),
            }
    }

    fn run_error(&self, arg: ActA::Input) -> (r: Either<E, ActB::Output>) {
        match self.act_a.run_error(arg) {
            Either::Right(mid) => {
                let ghost midw = mid;
                let r = self.act_b.run_error(mid);
                proof {
                    assert(self.act_a.err_post(arg, Either::Right(midw)) && self.act_b.err_post(
                        midw,
                        r,
                    ));
                }
                r
            },
            Either::Left(err) => {
                let ghost errw = err;
                let r = Either::Left(err);
                proof {
                    assert(self.act_a.err_post(arg, Either::<E, ActA::Output>::Left(errw)));
                }
                r
            },
        }
    }
}

/// Pairing with failures: the left action runs first, the first failure
/// wins, and on success the outputs are paired.
impl<E, ActA: Error<E>, ActB: Error<E>> Error<E> for Sequence<ActA, ActB> {
    open spec fn err_pre(&self, arg: (ActA::Input, ActB::Input)) -> bool {
        self.act_a.err_pre(arg.0) && self.act_b.err_pre(arg.1)
    }

    open spec fn err_post(
        &self,
        arg: (ActA::Input, ActB::Input),
        r: Either<E, (ActA::Output, ActB::Output)>,
    ) -> bool {
        exists|ra: Either<E, ActA::Output>|
            self.act_a.err_post(arg.0, ra) && match ra {
                Either::Left(err) => r == Either::<E, (ActA::Output, ActB::Output)>::Left(err),
                Either::Right(a) => exists|rb: Either<E, ActB::Output>|
                    self.act_b.err_post(arg.1, rb) && match rb {
                        Either::Left(err) => r == Either::<E, (ActA::Output, ActB::Output)>::Left(
                            err,
                        ),
                        Either::Right(b) => r == Either::<E, (ActA::Output, ActB::Output)>::Right(
                            (a, b),
                        ),
                    },
            }
    }

    fn run_error(&self, arg: (ActA::Input, ActB::Input)) -> (r: Either<
        E,
        (ActA::Output, ActB::Output),
    >) {
        let (ia, ib) = arg;
        match self.act_a.run_error(ia) {
            Either::Left(err) => {
                let ghost errw = err;
                let r = Either::Left(err);
                proof {
                    assert(self.act_a.err_post(arg.0, Either::<E, ActA::Output>::Left(errw)));
                }
                r
            },
            Either::Right(a) => {
                let ghost aw = a;
                let rb = self.act_b.run_error(ib);
                let ghost rbw = rb;
                let r = match rb {
                    Either::Left(err) => Either::Left(err),
                    Either::Right(b) => Either::Right((a, b)),
                };
                proof {
                    assert(self.act_a.err_post(arg.0, Either::<E, ActA::Output>::Right(aw))
                        && self.act_b.err_post(arg.1, rbw));
                }
                r
            },
        }
    }
}

/// Passing a value beside a fallible action: a failure of the action is
/// the failure of the whole.
impl<E, ActA: Error<E>, B> Error<E> for First<ActA, B> {
    open spec fn err_pre(&self, arg: (ActA::Input, B)) -> bool {
        self.act_a.err_pre(arg.0)
    }

    open spec fn err_post(&self, arg: (ActA::Input, B), r: Either<E, (ActA::Output, B)>) -> bool {
        exists|ra: Either<E, ActA::Output>|
            self.act_a.err_post(arg.0, ra) && match ra {
                Either::Left(err) => r == Either::<E, (ActA::Output, B)>::Left(err),
                Either::Right(a) => r == Either::<E, (ActA::Output, B)>::Right((a, arg.1)),
            }
    }

    fn run_error(&self, arg: (ActA::Input, B)) -> (r: Either<E, (ActA::Output, B)>) {
        let (ia, b) = arg;
        match self.act_a.run_error(ia) {
            Either::Left(err) => {
                let ghost errw = err;
                let r = Either::Left(err);
                proof {
                    assert(self.act_a.err_post(arg.0, Either::<E, ActA::Output>::Left(errw)));
                }
                r
            },
            Either::Right(a) => {
                let ghost aw = a;
                let r = Either::Right((a, b));
                proof {
                    assert(self.act_a.err_post(arg.0, Either::<E, ActA::Output>::Right(aw)));
                }
                r
            },
        }
    }
}

/// The mirror of `First`.
impl<E, A, ActB: Error<E>> Error<E> for Second<A, ActB> {
    open spec fn err_pre(&self, arg: (A, ActB::Input)) -> bool {
        self.act_b.err_pre(arg.1)
    }

    open spec fn err_post(&self, arg: (A, ActB::Input), r: Either<E, (A, ActB::Output)>) -> bool {
        exists|rb: Either<E, ActB::Output>|
            self.act_b.err_post(arg.1, rb) && match rb {
                Either::Left(err) => r == Either::<E, (A, ActB::Output)>::Left(err),
                Either::Right(b) => r == Either::<E, (A, ActB::Output)>::Right((arg.0, b)),
            }
    }

    fn run_error(&self, arg: (A, ActB::Input)) -> (r: Either<E, (A, ActB::Output)>) {
        let (a, ib) = arg;
        match self.act_b.run_error(ib) {
            Either::Left(err) => {
                let ghost errw = err;
                let r = Either::Left(err);
                proof {
                    assert(self.act_b.err_post(arg.1, Either::<E, ActB::Output>::Left(errw)));
                }
                r
            },
            Either::Right(b) => {
                let ghost bw = b;
                let r = Either::Right((a, b));
                proof {
                    assert(self.act_b.err_post(arg.1, Either::<E, ActB::Output>::Right(bw)));
                }
                r
            },
        }
    }
}

/// Both actions on one input, with failures: the left action runs first
/// and the first failure wins.
impl<E, ActA: Error<E>, ActB: Error<E, Input = ActA::Input>> Error<E> for Tee<ActA, ActB> where
    ActA::Input: Copy,
 {
    open spec fn err_pre(&self, arg: ActA::Input) -> bool {
        self.act_a.err_pre(arg) && self.act_b.err_pre(arg)
    }

    open spec fn err_post(
        &self,
        arg: ActA::Input,
        r: Either<E, (ActA::Output, ActB::Output)>,
    ) -> bool {
        exists|ra: Either<E, ActA::Output>|
            self.act_a.err_post(arg, ra) && match ra {
                Either::Left(err) => r == Either::<E, (ActA::Output, ActB::Output)>::Left(err),
                Either::Right(a) => exists|rb: Either<E, ActB::Output>|
                    self.act_b.err_post(arg, rb) && match rb {
                        Either::Left(err) => r == Either::<E, (ActA::Output, ActB::Output)>::Left(
                            err,
                        ),
                        Either::Right(b) => r == Either::<E, (ActA::Output, ActB::Output)>::Right(
                            (a, b),
                        ),
                    },
            }
    }

    fn run_error(&self, arg: ActA::Input) -> (r: Either<E, (ActA::Output, ActB::Output)>) {
        match self.act_a.run_error(arg) {
            Either::Left(err) => {
                let ghost errw = err;
                let r = Either::Left(err);
                proof {
                    assert(self.act_a.err_post(arg, Either::<E, ActA::Output>::Left(errw)));
                }
                r
            },
            Either::Right(a) => {
                let ghost aw = a;
                let rb = self.act_b.run_error(arg);
                let ghost rbw = rb;
                let r = match rb {
                    Either::Left(err) => Either::Left(err),
                    Either::Right(b) => Either::Right((a, b)),
                };
                proof {
                    assert(self.act_a.err_post(arg, Either::<E, ActA::Output>::Right(aw))
                        && self.act_b.err_post(arg, rbw));
                }
                r
            },
        }
    }
}

/// An action evaluated directly, lifted into the failing interpretation:
/// it always yields `Right`.
pub struct LiftIdentity<Act>(pub Act);

impl<Act: Action> Action for LiftIdentity<Act> {
    type Input = Act::Input;

    type Output = Act::Output;
}

impl<E, Act: Identity> Error<E> for LiftIdentity<Act> {
    open spec fn err_pre(&self, arg: Act::Input) -> bool {
        self.0.run_pre(arg)
    }

    open spec fn err_post(&self, arg: Act::Input, r: Either<E, Act::Output>) -> bool {
        exists|b: Act::Output|
            self.0.run_post(arg, b) && r == Either::<E, Act::Output>::Right(b)
    }

    fn run_error(&self, arg: Act::Input) -> (r: Either<E, Act::Output>) {
        let b = self.0.run(arg);
        let ghost bw = b;
        let r = Either::Right(b);
        proof {
            assert(self.0.run_post(arg, bw) && r == Either::<E, Act::Output>::Right(bw));
        }
        r
    }
}

/// An action with failures folded into its output: running it directly
/// yields the `Either` outcome as a value.
pub struct RunError<Act, E> {
    pub action: Act,
    pub _error: PhantomData<E>,
}

/// Fold an action's failures into its output type.
pub trait ErrorT<E>: Action {
    /// View this action as one whose output carries the outcome.
    fn strip_errors(self) -> (r: RunError<Self, E>)
        ensures
            r.action == self,
    {
        RunError { action: self, _error: PhantomData }
    }
}

impl<E, Act: Action> ErrorT<E> for Act {

}

impl<Act: Action, E> Action for RunError<Act, E> {
    type Input = Act::Input;

    type Output = Either<E, Act::Output>;
}

impl<E, Act: Error<E>> Identity for RunError<Act, E> {
    open spec fn run_pre(&self, arg: Act::Input) -> bool {
        self.action.err_pre(arg)
    }

    open spec fn run_post(&self, arg: Act::Input, r: Either<E, Act::Output>) -> bool {
        self.action.err_post(arg, r)
    }

    fn run(&self, arg: Act::Input) -> (r: Either<E, Act::Output>) {
        self.action.run_error(arg)
    }
}

} // verus!
