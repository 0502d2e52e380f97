//! The one composite carrier implemented directly: a writer wrapped
//! around an error carrier.  A run yields a log beside the outcome, and
//! the log written before a failure is retained: a short-circuited chain
//! still reports the work that was done up to the failure.
//!
//! The scaffold for this stack is `BuildError<BuildWriter<(), W>, E>`,
//! whose completed type is `(Result<A, E>, W)`; its base action is a
//! `Writer` holding an outcome.

use vstd::prelude::*;
use crate::action::{Action, AndThen, Combine, First, Mappable, Mapped, Second, Sequence,
    Sequential};
use crate::monoid::Monoid;
use crate::scaffold::{BuildError, BuildWriter, Run};

verus! {

/// Relies on the derived `Clone` of `core::result::Result`: it clones
/// the carried value with `T::clone` on `Ok` and the carried error with
/// `E::clone` on `Err`.  vstd gives this std function no specification
/// of its own.
pub assume_specification<T: Clone, E: Clone>[ <Result<T, E> as Clone>::clone ](
    v: &Result<T, E>,
) -> (r: Result<T, E>)
    ensures
        r is Ok == (*v is Ok),
        r matches Ok(b) ==> (*v matches Ok(a) && call_ensures(T::clone, (&a,), b)),
        r matches Err(e2) ==> (*v matches Err(e) && call_ensures(E::clone, (&e,), e2)),
;

/// The scaffold of the writer-over-error stack, with log monoid `W` and
/// error type `E`.
pub type WriterErrorStack<W, E> = BuildError<BuildWriter<(), W>, E>;

/// The base action of the stack: an outcome together with the log
/// written while producing it.
#[derive(Debug, PartialEq, Eq, PartialOrd, Ord, Hash)]
pub struct Stacked<A, E, W> {
    pub outcome: Result<A, E>,
    pub log: W,
}

impl<A: Clone, E: Clone, W: Clone> Clone for Stacked<A, E, W> {
    /// Clone the action; what the clones of the fields are is only as
    /// known as their own `clone` implementations make it.
    fn clone(&self) -> (r: Self)
        ensures
            call_ensures(<Result<A, E> as Clone>::clone, (&self.outcome,), r.outcome),
            call_ensures(W::clone, (&self.log,), r.log),
    {
        Stacked { outcome: self.outcome.clone(), log: self.log.clone() }
    }
}

/// Build a stack action directly from an outcome and a log.
pub fn stacked<A, E, W>(outcome: Result<A, E>, log: W) -> (r: Stacked<A, E, W>)
    ensures
        r.outcome == outcome,
        r.log == log,
{
    Stacked { outcome: outcome, log: log }
}

impl<A, E, W> Mappable<A> for Stacked<A, E, W> {

}

impl<A, E, W> Sequential<A> for Stacked<A, E, W> {

}

impl<A, E, W> Action<A> for Stacked<A, E, W> {

}

/// Run, a `Stacked` value yields exactly its outcome and its log.
impl<A, E, W: Monoid> Run<WriterErrorStack<W, E>, A> for Stacked<A, E, W> {
    open spec fn pre(self) -> bool {
        true
    }

    open spec fn post(self, r: (Result<A, E>, W)) -> bool {
        r == (self.outcome, self.log)
    }

    fn run(self) -> (r: (Result<A, E>, W)) {
        (self.outcome, self.log)
    }
}

/// `Mapped` under the stack: the function is applied on success only;
/// the log and any failure pass through untouched.
impl<A, B, E, W: Monoid, ActA: Run<WriterErrorStack<W, E>, A>, F: FnOnce(A) -> B> Run<
    WriterErrorStack<W, E>,
    B,
> for Mapped<A, ActA, F> {
    open spec fn pre(self) -> bool {
        &&& self.act_a.pre()
        &&& forall|ra: (Result<A, E>, W), a: A|
            self.act_a.post(ra) && ra.0 == Result::<A, E>::Ok(a) ==> call_requires(
                self.func,
                (a,),
            )
    }

    open spec fn post(self, r: (Result<B, E>, W)) -> bool {
        exists|ra: (Result<A, E>, W)|
            self.act_a.post(ra) && r.1 == ra.1 && match ra.0 {
                Ok(a) => r.0 matches Ok(b) && call_ensures(self.func, (a,), b),
                Err(e) => r.0 == Result::<B, E>::Err(e),
            }
    }

    fn run(self) -> (r: (Result<B, E>, W)) {
        let (ra, log) = self.act_a.run();
        let ghost raw = (ra, log);
        match ra {
            Ok(a) => {
                let b = (self.func)(a);
                let r = (Ok(b), log);
                proof {
                    assert(self.act_a.post(raw) && r.1 == raw.1);
                }
                r
            },
            Err(e) => {
                let r = (Err(e), log);
                proof {
                    assert(self.act_a.post(raw) && r.1 == raw.1);
                }
                r
            },
        }
    }
}

/// `AndThen` under the stack: a failure short-circuits, the continuation
/// never runs, and the log written so far is kept; on success the two
/// logs are joined in order.
impl<
    A,
    B,
    E,
    W: Monoid,
    ActA: Run<WriterErrorStack<W, E>, A>,
    ActB: Run<WriterErrorStack<W, E>, B>,
    F: FnOnce(A) -> ActB,
> Run<WriterErrorStack<W, E>, B> for AndThen<A, ActA, ActB, F> {
    open spec fn pre(self) -> bool {
        &&& self.act_a.pre()
        &&& forall|ra: (Result<A, E>, W), a: A|
            self.act_a.post(ra) && ra.0 == Result::<A, E>::Ok(a) ==> call_requires(
                self.func,
                (a,),
            )
        &&& forall|ra: (Result<A, E>, W), a: A, m: ActB|
            self.act_a.post(ra) && ra.0 == Result::<A, E>::Ok(a) && call_ensures(
                self.func,
                (a,),
                m,
            ) ==> m.pre()
    }

    open spec fn post(self, r: (Result<B, E>, W)) -> bool {
        exists|ra: (Result<A, E>, W)|
            self.act_a.post(ra) && match ra.0 {
                Ok(a) => exists|m: ActB, rb: (Result<B, E>, W)|
                    {
                        &&& call_ensures(self.func, (a,), m)
                        &&& m.post(rb)
                        &&& r.0 == rb.0
                        &&& r.1.model() == W::mop(ra.1.model(), rb.1.model())
                    },
                Err(e) => r == (Result::<B, E>::Err(e), ra.1),
            }
    }

    fn run(self) -> (r: (Result<B, E>, W)) {
        let (ra, log_a) = self.act_a.run();
        let ghost raw = (ra, log_a);
        match ra {
            Ok(a) => {
                let ghost aw = a;
                let m = (self.func)(a);
                let ghost mw = m;
                let (rb, log_b) = m.run();
                let ghost rbw = (rb, log_b);
                let log = log_a.op(&log_b);
                let r = (rb, log);
                proof {
                    assert(self.act_a.post(raw) && call_ensures(self.func, (aw,), mw)
                        && mw.post(rbw) && r.0 == rbw.0 && r.1.model() == W::mop(
                        raw.1.model(),
                        rbw.1.model(),
                    ));
                }
                r
            },
            Err(e) => {
                let r = (Err(e), log_a);
                proof {
                    assert(self.act_a.post(raw));
                }
                r
            },
        }
    }
}

/// `First` under the stack: the left action runs first; its failure
/// keeps only its own log, a right failure keeps both logs.
impl<A, B, E, W: Monoid, ActA: Run<WriterErrorStack<W, E>, A>, ActB: Run<
    WriterErrorStack<W, E>,
    B,
>> Run<WriterErrorStack<W, E>, A> for First<B, ActA, ActB> {
    open spec fn pre(self) -> bool {
        self.act_a.pre() && self.act_b.pre()
    }

    open spec fn post(self, r: (Result<A, E>, W)) -> bool {
        exists|ra: (Result<A, E>, W)|
            self.act_a.post(ra) && match ra.0 {
                Ok(a) => exists|rb: (Result<B, E>, W)|
                    {
                        &&& self.act_b.post(rb)
                        &&& r.1.model() == W::mop(ra.1.model(), rb.1.model())
                        &&& match rb.0 {
                            Ok(_) => r.0 == Result::<A, E>::Ok(a),
                            Err(e) => r.0 == Result::<A, E>::Err(e),
                        }
                    },
                Err(e) => r == (Result::<A, E>::Err(e), ra.1),
            }
    }

    fn run(self) -> (r: (Result<A, E>, W)) {
        let (ra, log_a) = self.act_a.run();
        let ghost raw = (ra, log_a);
        match ra {
            Ok(a) => {
                let ghost aw = a;
                let (rb, log_b) = self.act_b.run();
                let ghost rbw = (rb, log_b);
                let log = log_a.op(&log_b);
                let r = match rb {
                    Ok(_b) => (Ok(a), log),
                    Err(e) => (Err(e), log),
                };
                proof {
                    assert(self.act_a.post(raw) && self.act_b.post(rbw) && r.1.model()
                        == W::mop(raw.1.model(), rbw.1.model()));
                }
                r
            },
            Err(e) => {
                let r = (Err(e), log_a);
                proof {
                    assert(self.act_a.post(raw));
                }
                r
            },
        }
    }
}

/// `Second` under the stack; the mirror of `First`.
impl<A, B, E, W: Monoid, ActA: Run<WriterErrorStack<W, E>, A>, ActB: Run<
    WriterErrorStack<W, E>,
    B,
>> Run<WriterErrorStack<W, E>, B> for Second<A, ActA, ActB> {
    open spec fn pre(self) -> bool {
        self.act_a.pre() && self.act_b.pre()
    }

    open spec fn post(self, r: (Result<B, E>, W)) -> bool {
        exists|ra: (Result<A, E>, W)|
            self.act_a.post(ra) && match ra.0 {
                Ok(_) => exists|rb: (Result<B, E>, W)|
                    {
                        &&& self.act_b.post(rb)
                        &&& r.0 == rb.0
                        &&& r.1.model() == W::mop(ra.1.model(), rb.1.model())
                    },
                Err(e) => r == (Result::<B, E>::Err(e), ra.1),
            }
    }

    fn run(self) -> (r: (Result<B, E>, W)) {
        let (ra, log_a) = self.act_a.run();
        let ghost raw = (ra, log_a);
        match ra {
            Ok(_a) => {
                let (rb, log_b) = self.act_b.run();
                let ghost rbw = (rb, log_b);
                let log = log_a.op(&log_b);
                let r = (rb, log);
                proof {
                    assert(self.act_a.post(raw) && self.act_b.post(rbw) && r.0 == rbw.0
                        && r.1.model() == W::mop(raw.1.model(), rbw.1.model()));
                }
                r
            },
            Err(e) => {
                let r = (Err(e), log_a);
                proof {
                    assert(self.act_a.post(raw));
                }
                r
            },
        }
    }
}

/// `Sequence` under the stack: results paired on success, the first
/// failure wins, logs as in `First`.
impl<A, B, E, W: Monoid, ActA: Run<WriterErrorStack<W, E>, A>, ActB: Run<
    WriterErrorStack<W, E>,
    B,
>> Run<WriterErrorStack<W, E>, (A, B)> for Sequence<ActA, ActB> {
    open spec fn pre(self) -> bool {
        self.0.pre() && self.1.pre()
    }

    open spec fn post(self, r: (Result<(A, B), E>, W)) -> bool {
        exists|ra: (Result<A, E>, W)|
            self.0.post(ra) && match ra.0 {
                Ok(a) => exists|rb: (Result<B, E>, W)|
                    {
                        &&& self.1.post(rb)
                        &&& r.1.model() == W::mop(ra.1.model(), rb.1.model())
                        &&& match rb.0 {
                            Ok(b) => r.0 == Result::<(A, B), E>::Ok((a, b)),
                            Err(e) => r.0 == Result::<(A, B), E>::Err(e),
                        }
                    },
                Err(e) => r == (Result::<(A, B), E>::Err(e), ra.1),
            }
    }

    fn run(self) -> (r: (Result<(A, B), E>, W)) {
        let (ra, log_a) = self.0.run();
        let ghost raw = (ra, log_a);
        match ra {
            Ok(a) => {
                let ghost aw = a;
                let (rb, log_b) = self.1.run();
                let ghost rbw = (rb, log_b);
                let log = log_a.op(&log_b);
                let r = match rb {
                    Ok(b) => (Ok((a, b)), log),
                    Err(e) => (Err(e), log),
                };
                proof {
                    assert(self.0.post(raw) && self.1.post(rbw) && r.1.model() == W::mop(
                        raw.1.model(),
                        rbw.1.model(),
                    ));
                }
                r
            },
            Err(e) => {
                let r = (Err(e), log_a);
                proof {
                    assert(self.0.post(raw));
                }
                r
            },
        }
    }
}

/// `Combine` under the stack: results merged on success, the first
/// failure wins, logs as in `First`.
impl<
    A,
    B,
    C,
    E,
    W: Monoid,
    ActA: Run<WriterErrorStack<W, E>, A>,
    ActB: Run<WriterErrorStack<W, E>, B>,
    F: FnOnce(A, B) -> C,
> Run<WriterErrorStack<W, E>, C> for Combine<A, B, ActA, ActB, F> {
    open spec fn pre(self) -> bool {
        &&& self.act_a.pre()
        &&& self.act_b.pre()
        &&& forall|ra: (Result<A, E>, W), rb: (Result<B, E>, W), a: A, b: B|
            self.act_a.post(ra) && self.act_b.post(rb) && ra.0 == Result::<A, E>::Ok(a) && rb.0
                == Result::<B, E>::Ok(b) ==> call_requires(self.func, (a, b))
    }

    open spec fn post(self, r: (Result<C, E>, W)) -> bool {
        exists|ra: (Result<A, E>, W)|
            self.act_a.post(ra) && match ra.0 {
                Ok(a) => exists|rb: (Result<B, E>, W)|
                    {
                        &&& self.act_b.post(rb)
                        &&& r.1.model() == W::mop(ra.1.model(), rb.1.model())
                        &&& match rb.0 {
                            Ok(b) => r.0 matches Ok(c) && call_ensures(self.func, (a, b), c),
                            Err(e) => r.0 == Result::<C, E>::Err(e),
                        }
                    },
                Err(e) => r == (Result::<C, E>::Err(e), ra.1),
            }
    }

    fn run(self) -> (r: (Result<C, E>, W)) {
        let (ra, log_a) = self.act_a.run();
        let ghost raw = (ra, log_a);
        match ra {
            Ok(a) => {
                let ghost aw = a;
                let (rb, log_b) = self.act_b.run();
                let ghost rbw = (rb, log_b);
                let log = log_a.op(&log_b);
                let r = match rb {
                    Ok(b) => {
                        let ghost bw = b;
                        let c = (self.func)(a, b);
                        (Ok(c), log)
                    },
                    Err(e) => (Err(e), log),
                };
                proof {
                    assert(self.act_a.post(raw) && self.act_b.post(rbw) && r.1.model()
                        == W::mop(raw.1.model(), rbw.1.model()));
                }
                r
            },
            Err(e) => {
                let r = (Err(e), log_a);
                proof {
                    assert(self.act_a.post(raw));
                }
                r
            },
        }
    }
}

/// The settled behaviour of the stack: when a chain's first action has
/// already failed, the chain yields that failure together with the log
/// written before the failure -- spent effort is reported, not dropped.
pub proof fn lemma_stack_log_survives_failure<
    A,
    B,
    E,
    W: Monoid,
    ActB: Run<WriterErrorStack<W, E>, B>,
    F: FnOnce(A) -> ActB,
>(chain: AndThen<A, Stacked<A, E, W>, ActB, F>, e: E, r: (Result<B, E>, W))
    requires
        chain.act_a.outcome == Result::<A, E>::Err(e),
        chain.post(r),
    ensures
        r.0 == Result::<B, E>::Err(e),
        r.1 == chain.act_a.log,
{
}

} // verus!
