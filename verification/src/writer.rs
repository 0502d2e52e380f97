//! The writer carrier: a value paired with an accumulated log, whose
//! type is a monoid.  Chaining actions concatenates their logs in
//! evaluation order.

use vstd::prelude::*;
use crate::action::{
    Action, AndThen, AndThenCtx, Combine, First, Mappable, Mapped, Second, Sequence, Sequential,
};
use crate::monoid::Monoid;
use crate::scaffold::{BuildWriter, Run};

verus! {

/// A value together with the log written while producing it.
#[derive(Clone, Debug, PartialEq, Eq, PartialOrd, Ord, Hash, Default)]
pub struct Writer<A, W> {
    pub value: A,
    pub log: W,
}

/// Build a writer action directly from a value and a log.
pub fn writer<A, W>(value: A, log: W) -> (r: Writer<A, W>)
    ensures
        r.value == value,
        r.log == log,
{
    Writer { value: value, log: log }
}

/// Record a log entry and nothing else.
pub fn tell<W>(log: W) -> (r: Writer<(), W>)
    ensures
        r.log == log,
{
    Writer { value: (), log: log }
}

/// Re-wrap an action so that its result also carries a copy of the log
/// accumulated so far.
pub fn listen<A, W: Monoid>(action: Writer<A, W>) -> (r: Writer<(A, W), W>)
    ensures
        r.value.0 == action.value,
        r.value.1.model() == action.log.model(),
        r.log == action.log,
{
    let copy = action.log.duplicate();
    Writer { value: (action.value, copy), log: action.log }
}

/// Apply the function carried in an action's result to its own log,
/// replacing the log.
pub fn pass<A, W, F: FnOnce(W) -> W>(action: Writer<(A, F), W>) -> (r: Writer<A, W>)
    requires
        call_requires(action.value.1, (action.log,)),
    ensures
        r.value == action.value.0,
        call_ensures(action.value.1, (action.log,), r.log),
{
    let (value, func) = action.value;
    let log = func(action.log);
    Writer { value: value, log: log }
}

/// Take the value and the log out.
impl<A, W> Writer<A, W> {
    pub fn unwrap_writer(self) -> (r: (A, W))
        ensures
            r == (self.value, self.log),
    {
        (self.value, self.log)
    }
}

impl<A, W> Mappable<A> for Writer<A, W> {

}

impl<A, W> Sequential<A> for Writer<A, W> {

}

impl<A, W> Action<A> for Writer<A, W> {

}

/// A writer value is the base action of the writer carrier: run, it
/// yields exactly its value and its log.
impl<A, W: Monoid> Run<BuildWriter<(), W>, A> for Writer<A, W> {
    open spec fn pre(self) -> bool {
        true
    }

    open spec fn post(self, r: (A, W)) -> bool {
        r == (self.value, self.log)
    }

    fn run(self) -> (r: (A, W)) {
        (self.value, self.log)
    }
}

/// `Mapped` under the writer carrier: the log passes through unchanged.
impl<A, B, W: Monoid, ActA: Run<BuildWriter<(), W>, A>, F: FnOnce(A) -> B> Run<
    BuildWriter<(), W>,
    B,
> for Mapped<A, ActA, F> {
    open spec fn pre(self) -> bool {
        &&& self.act_a.pre()
        &&& forall|ra: (A, W)| self.act_a.post(ra) ==> call_requires(self.func, (ra.0,))
    }

    open spec fn post(self, r: (B, W)) -> bool {
        exists|ra: (A, W)|
            self.act_a.post(ra) && call_ensures(self.func, (ra.0,), r.0) && r.1 == ra.1
    }

    fn run(self) -> (r: (B, W)) {
        let (a, log) = self.act_a.run();
        let ghost raw = (a, log);
        let b = (self.func)(a);
        let r = (b, log);
        proof {
            assert(self.act_a.post(raw) && call_ensures(self.func, (raw.0,), r.0) && r.1 == raw.1);
        }
        r
    }
}

/// `AndThen` under the writer carrier: the first action's log is
/// followed by the continuation's log, in that order.
impl<
    A,
    B,
    W: Monoid,
    ActA: Run<BuildWriter<(), W>, A>,
    ActB: Run<BuildWriter<(), W>, B>,
    F: FnOnce(A) -> ActB,
> Run<BuildWriter<(), W>, B> for AndThen<A, ActA, ActB, F> {
    open spec fn pre(self) -> bool {
        &&& self.act_a.pre()
        &&& forall|ra: (A, W)| self.act_a.post(ra) ==> call_requires(self.func, (ra.0,))
        &&& forall|ra: (A, W), m: ActB|
            self.act_a.post(ra) && call_ensures(self.func, (ra.0,), m) ==> m.pre()
    }

    open spec fn post(self, r: (B, W)) -> bool {
        exists|ra: (A, W), m: ActB, rb: (B, W)|
            {
                &&& self.act_a.post(ra)
                &&& call_ensures(self.func, (ra.0,), m)
                &&& m.post(rb)
                &&& r.0 == rb.0
                &&& r.1.model() == W::mop(ra.1.model(), rb.1.model())
            }
    }

    fn run(self) -> (r: (B, W)) {
        let (a, log_a) = self.act_a.run();
        let ghost raw = (a, log_a);
        let m = (self.func)(a);
        let ghost mw = m;
        let (b, log_b) = m.run();
        let ghost rbw = (b, log_b);
        let log = log_a.op(&log_b);
        let r = (b, log);
        proof {
            assert({
                &&& self.act_a.post(raw)
                &&& call_ensures(self.func, (raw.0,), mw)
                &&& mw.post(rbw)
                &&& r.0 == rbw.0
                &&& r.1.model() == W::mop(raw.1.model(), rbw.1.model())
            });
        }
        r
    }
}

/// `AndThenCtx` under the writer carrier; as `AndThen`, with the
/// continuation given an explicit context.
impl<
    A,
    B,
    W: Monoid,
    ActA: Run<BuildWriter<(), W>, A>,
    ActB: Run<BuildWriter<(), W>, B>,
    Ctx,
    F: FnOnce(Ctx, A) -> ActB,
> Run<BuildWriter<(), W>, B> for AndThenCtx<A, ActA, ActB, Ctx, F> {
    open spec fn pre(self) -> bool {
        &&& self.act_a.pre()
        &&& forall|ra: (A, W)|
            self.act_a.post(ra) ==> call_requires(self.func, (self.context, ra.0))
        &&& forall|ra: (A, W), m: ActB|
            self.act_a.post(ra) && call_ensures(self.func, (self.context, ra.0), m) ==> m.pre()
    }

    open spec fn post(self, r: (B, W)) -> bool {
        exists|ra: (A, W), m: ActB, rb: (B, W)|
            {
                &&& self.act_a.post(ra)
                &&& call_ensures(self.func, (self.context, ra.0), m)
                &&& m.post(rb)
                &&& r.0 == rb.0
                &&& r.1.model() == W::mop(ra.1.model(), rb.1.model())
            }
    }

    fn run(self) -> (r: (B, W)) {
        let ghost ctx = self.context;
        let (a, log_a) = self.act_a.run();
        let ghost raw = (a, log_a);
        let m = (self.func)(self.context, a);
        let ghost mw = m;
        let (b, log_b) = m.run();
        let ghost rbw = (b, log_b);
        let log = log_a.op(&log_b);
        let r = (b, log);
        proof {
            assert({
                &&& self.act_a.post(raw)
                &&& call_ensures(self.func, (ctx, raw.0), mw)
                &&& mw.post(rbw)
                &&& r.0 == rbw.0
                &&& r.1.model() == W::mop(raw.1.model(), rbw.1.model())
            });
        }
        r
    }
}

/// `First` under the writer carrier: both logs are written, left first.
impl<A, B, W: Monoid, ActA: Run<BuildWriter<(), W>, A>, ActB: Run<BuildWriter<(), W>, B>> Run<
    BuildWriter<(), W>,
    A,
> for First<B, ActA, ActB> {
    open spec fn pre(self) -> bool {
        self.act_a.pre() && self.act_b.pre()
    }

    open spec fn post(self, r: (A, W)) -> bool {
        exists|ra: (A, W), rb: (B, W)|
            {
                &&& self.act_a.post(ra)
                &&& self.act_b.post(rb)
                &&& r.0 == ra.0
                &&& r.1.model() == W::mop(ra.1.model(), rb.1.model())
            }
    }

    fn run(self) -> (r: (A, W)) {
        let (a, log_a) = self.act_a.run();
        let ghost raw = (a, log_a);
        let (b, log_b) = self.act_b.run();
        let ghost rbw = (b, log_b);
        let log = log_a.op(&log_b);
        let r = (a, log);
        proof {
            assert({
                &&& self.act_a.post(raw)
                &&& self.act_b.post(rbw)
                &&& r.0 == raw.0
                &&& r.1.model() == W::mop(raw.1.model(), rbw.1.model())
            });
        }
        r
    }
}

/// `Second` under the writer carrier: both logs are written, left first.
impl<A, B, W: Monoid, ActA: Run<BuildWriter<(), W>, A>, ActB: Run<BuildWriter<(), W>, B>> Run<
    BuildWriter<(), W>,
    B,
> for Second<A, ActA, ActB> {
    open spec fn pre(self) -> bool {
        self.act_a.pre() && self.act_b.pre()
    }

    open spec fn post(self, r: (B, W)) -> bool {
        exists|ra: (A, W), rb: (B, W)|
            {
                &&& self.act_a.post(ra)
                &&& self.act_b.post(rb)
                &&& r.0 == rb.0
                &&& r.1.model() == W::mop(ra.1.model(), rb.1.model())
            }
    }

    fn run(self) -> (r: (B, W)) {
        let (a, log_a) = self.act_a.run();
        let ghost raw = (a, log_a);
        let (b, log_b) = self.act_b.run();
        let ghost rbw = (b, log_b);
        let log = log_a.op(&log_b);
        let r = (b, log);
        proof {
            assert({
                &&& self.act_a.post(raw)
                &&& self.act_b.post(rbw)
                &&& r.0 == rbw.0
                &&& r.1.model() == W::mop(raw.1.model(), rbw.1.model())
            });
        }
        r
    }
}

/// `Sequence` under the writer carrier: results paired, logs merged.
impl<A, B, W: Monoid, ActA: Run<BuildWriter<(), W>, A>, ActB: Run<BuildWriter<(), W>, B>> Run<
    BuildWriter<(), W>,
    (A, B),
> for Sequence<ActA, ActB> {
    open spec fn pre(self) -> bool {
        self.0.pre() && self.1.pre()
    }

    open spec fn post(self, r: ((A, B), W)) -> bool {
        exists|ra: (A, W), rb: (B, W)|
            {
                &&& self.0.post(ra)
                &&& self.1.post(rb)
                &&& r.0 == (ra.0, rb.0)
                &&& r.1.model() == W::mop(ra.1.model(), rb.1.model())
            }
    }

    fn run(self) -> (r: ((A, B), W)) {
        let (a, log_a) = self.0.run();
        let ghost raw = (a, log_a);
        let (b, log_b) = self.1.run();
        let ghost rbw = (b, log_b);
        let log = log_a.op(&log_b);
        let r = ((a, b), log);
        proof {
            assert({
                &&& self.0.post(raw)
                &&& self.1.post(rbw)
                &&& r.0 == (raw.0, rbw.0)
                &&& r.1.model() == W::mop(raw.1.model(), rbw.1.model())
            });
        }
        r
    }
}

/// `Combine` under the writer carrier: results merged by the function,
/// logs merged left to right.
impl<
    A,
    B,
    C,
    W: Monoid,
    ActA: Run<BuildWriter<(), W>, A>,
    ActB: Run<BuildWriter<(), W>, B>,
    F: FnOnce(A, B) -> C,
> Run<BuildWriter<(), W>, C> for Combine<A, B, ActA, ActB, F> {
    open spec fn pre(self) -> bool {
        &&& self.act_a.pre()
        &&& self.act_b.pre()
        &&& forall|ra: (A, W), rb: (B, W)|
            self.act_a.post(ra) && self.act_b.post(rb) ==> call_requires(
                self.func,
                (ra.0, rb.0),
            )
    }

    open spec fn post(self, r: (C, W)) -> bool {
        exists|ra: (A, W), rb: (B, W)|
            {
                &&& self.act_a.post(ra)
                &&& self.act_b.post(rb)
                &&& call_ensures(self.func, (ra.0, rb.0), r.0)
                &&& r.1.model() == W::mop(ra.1.model(), rb.1.model())
            }
    }

    fn run(self) -> (r: (C, W)) {
        let (a, log_a) = self.act_a.run();
        let ghost raw = (a, log_a);
        let (b, log_b) = self.act_b.run();
        let ghost rbw = (b, log_b);
        let c = (self.func)(a, b);
        let log = log_a.op(&log_b);
        let r = (c, log);
        proof {
            assert({
                &&& self.act_a.post(raw)
                &&& self.act_b.post(rbw)
                &&& call_ensures(self.func, (raw.0, rbw.0), r.0)
                &&& r.1.model() == W::mop(raw.1.model(), rbw.1.model())
            });
        }
        r
    }
}

} // verus!
