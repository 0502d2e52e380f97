//! The error carrier: an action either yields a value or fails with a
//! caller-defined error.  Failure short-circuits every later step of a
//! chain; only `catch_error` can recover.

use vstd::prelude::*;
use crate::action::{
    Action, AndThen, Combine, First, Mappable, Mapped, Second, Sequence, Sequential,
};
use crate::scaffold::{BuildError, Run};

verus! {

/// Build a failed action carrying the given error.
pub fn throw_error<A, E>(err: E) -> (r: Result<A, E>)
    ensures
        r == Result::<A, E>::Err(err),
{
    Err(err)
}

/// Evaluate `action`; on success return it unchanged, on failure hand
/// the error to `recover` and run the action it returns.  This is the
/// only operation that cancels a short-circuit.
pub fn catch_error<A, E, ActB: Run<BuildError<(), E>, A>, F: FnOnce(E) -> ActB>(
    action: Result<A, E>,
    recover: F,
) -> (r: Result<A, E>)
    requires
        action matches Err(e) ==> call_requires(recover, (e,)),
        forall|e: E, m: ActB|
            action == Result::<A, E>::Err(e) && call_ensures(recover, (e,), m) ==> m.pre(),
    ensures
        action matches Ok(a) ==> r == action,
        action matches Err(e) ==> exists|m: ActB| call_ensures(recover, (e,), m) && m.post(r),
{
    match action {
        Ok(a) => Ok(a),
        Err(e) => {
            let ghost ew = e;
            let m = recover(e);
            let ghost mw = m;
            let r = m.run();
            proof {
                assert(call_ensures(recover, (ew,), mw) && mw.post(r));
            }
            r
        },
    }
}

impl<A, E> Mappable<A> for Result<A, E> {

}

impl<A, E> Sequential<A> for Result<A, E> {

}

impl<A, E> Action<A> for Result<A, E> {

}

/// A `Result` is the base action of the error carrier: run, it yields
/// exactly itself.
impl<A, E> Run<BuildError<(), E>, A> for Result<A, E> {
    open spec fn pre(self) -> bool {
        true
    }

    open spec fn post(self, r: Result<A, E>) -> bool {
        r == self
    }

    fn run(self) -> (r: Result<A, E>) {
        self
    }
}

/// `Mapped` under the error carrier: the function is applied on success
/// only; a prior failure passes through untouched.
impl<A, B, E, ActA: Run<BuildError<(), E>, A>, F: FnOnce(A) -> B> Run<
    BuildError<(), E>,
    B,
> for Mapped<A, ActA, F> {
    open spec fn pre(self) -> bool {
        &&& self.act_a.pre()
        &&& forall|a: A|
            self.act_a.post(Result::<A, E>::Ok(a)) ==> call_requires(self.func, (a,))
    }

    open spec fn post(self, r: Result<B, E>) -> bool {
        exists|ra: Result<A, E>|
            self.act_a.post(ra) && match ra {
                Ok(a) => r matches Ok(b) && call_ensures(self.func, (a,), b),
                Err(e) => r == Result::<B, E>::Err(e),
            }
    }

    fn run(self) -> (r: Result<B, E>) {
        match self.act_a.run() {
            Ok(a) => {
                let ghost aw = a;
                let b = (self.func)(a);
                let r = Ok(b);
                proof {
                    assert(self.act_a.post(Result::<A, E>::Ok(aw)));
                }
                r
            },
            Err(e) => {
                let ghost ew = e;
                let r = Err(e);
                proof {
                    assert(self.act_a.post(Result::<A, E>::Err(ew)));
                }
                r
            },
        }
    }
}

/// `AndThen` under the error carrier: a failed first action
/// short-circuits, and the continuation is never invoked.
impl<A, B, E, ActA: Run<BuildError<(), E>, A>, ActB: Run<BuildError<(), E>, B>, F: FnOnce(
    A,
) -> ActB> Run<BuildError<(), E>, B> for AndThen<A, ActA, ActB, F> {
    open spec fn pre(self) -> bool {
        &&& self.act_a.pre()
        &&& forall|a: A|
            self.act_a.post(Result::<A, E>::Ok(a)) ==> call_requires(self.func, (a,))
        &&& forall|a: A, m: ActB|
            self.act_a.post(Result::<A, E>::Ok(a)) && call_ensures(self.func, (a,), m)
                ==> m.pre()
    }

    open spec fn post(self, r: Result<B, E>) -> bool {
        exists|ra: Result<A, E>|
            self.act_a.post(ra) && match ra {
                Ok(a) => exists|m: ActB| call_ensures(self.func, (a,), m) && m.post(r),
                Err(e) => r == Result::<B, E>::Err(e),
            }
    }

    fn run(self) -> (r: Result<B, E>) {
        match self.act_a.run() {
            Ok(a) => {
                let ghost aw = a;
                let m = (self.func)(a);
                let ghost mw = m;
                let r = m.run();
                proof {
                    assert(self.act_a.post(Result::<A, E>::Ok(aw)) && call_ensures(
                        self.func,
                        (aw,),
                        mw,
                    ) && mw.post(r));
                }
                r
            },
            Err(e) => {
                let ghost ew = e;
                let r = Err(e);
                proof {
                    assert(self.act_a.post(Result::<A, E>::Err(ew)));
                }
                r
            },
        }
    }
}

/// `First` under the error carrier: both actions run left to right, the
/// first failure wins, on success the left result is kept.
impl<A, B, E, ActA: Run<BuildError<(), E>, A>, ActB: Run<BuildError<(), E>, B>> Run<
    BuildError<(), E>,
    A,
> for First<B, ActA, ActB> {
    open spec fn pre(self) -> bool {
        self.act_a.pre() && self.act_b.pre()
    }

    open spec fn post(self, r: Result<A, E>) -> bool {
        exists|ra: Result<A, E>|
            self.act_a.post(ra) && match ra {
                Ok(a) => exists|rb: Result<B, E>|
                    self.act_b.post(rb) && match rb {
                        Ok(b) => r == Result::<A, E>::Ok(a),
                        Err(e) => r == Result::<A, E>::Err(e),
                    },
                Err(e) => r == Result::<A, E>::Err(e),
            }
    }

    fn run(self) -> (r: Result<A, E>) {
        match self.act_a.run() {
            Ok(a) => {
                let ghost aw = a;
                let rb = self.act_b.run();
                let ghost rbw = rb;
                let r = match rb {
                    Ok(_b) => Ok(a),
                    Err(e) => Err(e),
                };
                proof {
                    assert(self.act_a.post(Result::<A, E>::Ok(aw)) && self.act_b.post(rbw));
                }
                r
            },
            Err(e) => {
                let ghost ew = e;
                let r = Err(e);
                proof {
                    assert(self.act_a.post(Result::<A, E>::Err(ew)));
                }
                r
            },
        }
    }
}

/// `Second` under the error carrier: both actions run left to right, the
/// first failure wins, on success the right result is kept.
impl<A, B, E, ActA: Run<BuildError<(), E>, A>, ActB: Run<BuildError<(), E>, B>> Run<
    BuildError<(), E>,
    B,
> for Second<A, ActA, ActB> {
    open spec fn pre(self) -> bool {
        self.act_a.pre() && self.act_b.pre()
    }

    open spec fn post(self, r: Result<B, E>) -> bool {
        exists|ra: Result<A, E>|
            self.act_a.post(ra) && match ra {
                Ok(a) => exists|rb: Result<B, E>| self.act_b.post(rb) && r == rb,
                Err(e) => r == Result::<B, E>::Err(e),
            }
    }

    fn run(self) -> (r: Result<B, E>) {
        match self.act_a.run() {
            Ok(a) => {
                let ghost aw = a;
                let rb = self.act_b.run();
                let ghost rbw = rb;
                proof {
                    assert(self.act_a.post(Result::<A, E>::Ok(aw)) && self.act_b.post(rbw));
                }
                rb
            },
            Err(e) => {
                let ghost ew = e;
                let r = Err(e);
                proof {
                    assert(self.act_a.post(Result::<A, E>::Err(ew)));
                }
                r
            },
        }
    }
}

/// `Sequence` under the error carrier: both results paired on success,
/// the first failure wins.
impl<A, B, E, ActA: Run<BuildError<(), E>, A>, ActB: Run<BuildError<(), E>, B>> Run<
    BuildError<(), E>,
    (A, B),
> for Sequence<ActA, ActB> {
    open spec fn pre(self) -> bool {
        self.0.pre() && self.1.pre()
    }

    open spec fn post(self, r: Result<(A, B), E>) -> bool {
        exists|ra: Result<A, E>|
            self.0.post(ra) && match ra {
                Ok(a) => exists|rb: Result<B, E>|
                    self.1.post(rb) && match rb {
                        Ok(b) => r == Result::<(A, B), E>::Ok((a, b)),
                        Err(e) => r == Result::<(A, B), E>::Err(e),
                    },
                Err(e) => r == Result::<(A, B), E>::Err(e),
            }
    }

    fn run(self) -> (r: Result<(A, B), E>) {
        match self.0.run() {
            Ok(a) => {
                let ghost aw = a;
                let rb = self.1.run();
                let ghost rbw = rb;
                let r = match rb {
                    Ok(b) => Ok((a, b)),
                    Err(e) => Err(e),
                };
                proof {
                    assert(self.0.post(Result::<A, E>::Ok(aw)) && self.1.post(rbw));
                }
                r
            },
            Err(e) => {
                let ghost ew = e;
                let r = Err(e);
                proof {
                    assert(self.0.post(Result::<A, E>::Err(ew)));
                }
                r
            },
        }
    }
}

/// `Combine` under the error carrier: results merged by the function on
/// success, the first failure wins.
impl<
    A,
    B,
    C,
    E,
    ActA: Run<BuildError<(), E>, A>,
    ActB: Run<BuildError<(), E>, B>,
    F: FnOnce(A, B) -> C,
> Run<BuildError<(), E>, C> for Combine<A, B, ActA, ActB, F> {
    open spec fn pre(self) -> bool {
        &&& self.act_a.pre()
        &&& self.act_b.pre()
        &&& forall|a: A, b: B|
            self.act_a.post(Result::<A, E>::Ok(a)) && self.act_b.post(Result::<B, E>::Ok(b))
                ==> call_requires(self.func, (a, b))
    }

    open spec fn post(self, r: Result<C, E>) -> bool {
        exists|ra: Result<A, E>|
            self.act_a.post(ra) && match ra {
                Ok(a) => exists|rb: Result<B, E>|
                    self.act_b.post(rb) && match rb {
                        Ok(b) => r matches Ok(c) && call_ensures(self.func, (a, b), c),
                        Err(e) => r == Result::<C, E>::Err(e),
                    },
                Err(e) => r == Result::<C, E>::Err(e),
            }
    }

    fn run(self) -> (r: Result<C, E>) {
        match self.act_a.run() {
            Ok(a) => {
                let ghost aw = a;
                let rb = self.act_b.run();
                let ghost rbw = rb;
                match rb {
                    Ok(b) => {
                        let ghost bw = b;
                        let c = (self.func)(a, b);
                        let r = Ok(c);
                        proof {
                            assert(self.act_a.post(Result::<A, E>::Ok(aw)) && self.act_b.post(
                                Result::<B, E>::Ok(bw),
                            ));
                        }
                        r
                    },
                    Err(e) => {
                        let r = Err(e);
                        proof {
                            assert(self.act_a.post(Result::<A, E>::Ok(aw)) && self.act_b.post(
                                rbw,
                            ));
                        }
                        r
                    },
                }
            },
            Err(e) => {
                let ghost ew = e;
                let r = Err(e);
                proof {
                    assert(self.act_a.post(Result::<A, E>::Err(ew)));
                }
                r
            },
        }
    }
}

} // verus!
