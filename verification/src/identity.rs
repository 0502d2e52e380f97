//! The identity carrier: a value wrapped in nothing at all.

use vstd::prelude::*;
use crate::action::{
    Action, AndThen, Combine, First, Mappable, Mapped, Second, Sequence, Sequential,
};
use crate::scaffold::{BuildId, Run};

verus! {

/// The identity carrier.  `Id(a)` is the action that yields `a` with no
/// effect; running any action tree under the identity scaffold produces
/// an `Id` value.
#[derive(Clone, Debug, PartialEq, Eq, PartialOrd, Ord, Hash)]
pub struct Id<A>(pub A);

impl<A> Id<A> {
    /// Take the wrapped value out.
    pub fn unwrap(self) -> (r: A)
        ensures
            r == self.0,
    {
        self.0
    }

    /// Take the wrapped value out; a synonym of `unwrap`.
    pub fn run(self) -> (r: A)
        ensures
            r == self.0,
    {
        self.0
    }
}

impl<A> Mappable<A> for Id<A> {

}

impl<A> Sequential<A> for Id<A> {

}

impl<A> Action<A> for Id<A> {

}

/// An `Id` value is the base action of the identity carrier: run, it
/// yields exactly itself.
impl<A> Run<BuildId<()>, A> for Id<A> {
    open spec fn pre(self) -> bool {
        true
    }

    open spec fn post(self, r: Id<A>) -> bool {
        r == self
    }

    fn run(self) -> (r: Id<A>) {
        self
    }
}

/// `Mapped` under the identity carrier: run the child, apply the
/// function inside the wrapper.
impl<A, B, ActA: Run<BuildId<()>, A>, F: FnOnce(A) -> B> Run<BuildId<()>, B> for Mapped<
    A,
    ActA,
    F,
> {
    open spec fn pre(self) -> bool {
        &&& self.act_a.pre()
        &&& forall|ra: Id<A>| self.act_a.post(ra) ==> call_requires(self.func, (ra.0,))
    }

    open spec fn post(self, r: Id<B>) -> bool {
        exists|ra: Id<A>| self.act_a.post(ra) && call_ensures(self.func, (ra.0,), r.0)
    }

    fn run(self) -> (r: Id<B>) {
        let ra = self.act_a.run();
        let ghost raw = ra;
        let b = (self.func)(ra.0);
        let r = Id(b);
        proof {
            assert(self.act_a.post(raw) && call_ensures(self.func, (raw.0,), r.0));
        }
        r
    }
}

/// `AndThen` under the identity carrier: run the child, hand the wrapped
/// value to the continuation, run the returned action.
impl<A, B, ActA: Run<BuildId<()>, A>, ActB: Run<BuildId<()>, B>, F: FnOnce(A) -> ActB> Run<
    BuildId<()>,
    B,
> for AndThen<A, ActA, ActB, F> {
    open spec fn pre(self) -> bool {
        &&& self.act_a.pre()
        &&& forall|ra: Id<A>| self.act_a.post(ra) ==> call_requires(self.func, (ra.0,))
        &&& forall|ra: Id<A>, m: ActB|
            self.act_a.post(ra) && call_ensures(self.func, (ra.0,), m) ==> m.pre()
    }

    open spec fn post(self, r: Id<B>) -> bool {
        exists|ra: Id<A>, m: ActB|
            self.act_a.post(ra) && call_ensures(self.func, (ra.0,), m) && m.post(r)
    }

    fn run(self) -> (r: Id<B>) {
        let ra = self.act_a.run();
        let ghost raw = ra;
        let m = (self.func)(ra.0);
        let ghost mw = m;
        let r = m.run();
        proof {
            assert(self.act_a.post(raw) && call_ensures(self.func, (raw.0,), mw) && mw.post(r));
        }
        r
    }
}

/// `First` under the identity carrier: both children run, left kept.
impl<A, B, ActA: Run<BuildId<()>, A>, ActB: Run<BuildId<()>, B>> Run<BuildId<()>, A> for First<
    B,
    ActA,
    ActB,
> {
    open spec fn pre(self) -> bool {
        self.act_a.pre() && self.act_b.pre()
    }

    open spec fn post(self, r: Id<A>) -> bool {
        self.act_a.post(r) && exists|rb: Id<B>| self.act_b.post(rb)
    }

    fn run(self) -> (r: Id<A>) {
        let ra = self.act_a.run();
        let rb = self.act_b.run();
        let ghost rbw = rb;
        proof {
            assert(self.act_b.post(rbw));
        }
        ra
    }
}

/// `Second` under the identity carrier: both children run, right kept.
impl<A, B, ActA: Run<BuildId<()>, A>, ActB: Run<BuildId<()>, B>> Run<BuildId<()>, B> for Second<
    A,
    ActA,
    ActB,
> {
    open spec fn pre(self) -> bool {
        self.act_a.pre() && self.act_b.pre()
    }

    open spec fn post(self, r: Id<B>) -> bool {
        self.act_b.post(r) && exists|ra: Id<A>| self.act_a.post(ra)
    }

    fn run(self) -> (r: Id<B>) {
        let ra = self.act_a.run();
        let ghost raw = ra;
        let rb = self.act_b.run();
        proof {
            assert(self.act_a.post(raw));
        }
        rb
    }
}

/// `Sequence` under the identity carrier: both children run, results
/// paired inside the wrapper.
impl<A, B, ActA: Run<BuildId<()>, A>, ActB: Run<BuildId<()>, B>> Run<BuildId<()>, (A, B)> for Sequence<
    ActA,
    ActB,
> {
    open spec fn pre(self) -> bool {
        self.0.pre() && self.1.pre()
    }

    open spec fn post(self, r: Id<(A, B)>) -> bool {
        exists|ra: Id<A>, rb: Id<B>|
            self.0.post(ra) && self.1.post(rb) && r == Id((ra.0, rb.0))
    }

    fn run(self) -> (r: Id<(A, B)>) {
        let ra = self.0.run();
        let ghost raw = ra;
        let rb = self.1.run();
        let ghost rbw = rb;
        let r = Id((ra.0, rb.0));
        proof {
            assert(self.0.post(raw) && self.1.post(rbw) && r == Id((raw.0, rbw.0)));
        }
        r
    }
}

/// `Combine` under the identity carrier: both children run, results
/// merged by the function inside the wrapper.
impl<A, B, C, ActA: Run<BuildId<()>, A>, ActB: Run<BuildId<()>, B>, F: FnOnce(A, B) -> C> Run<
    BuildId<()>,
    C,
> for Combine<A, B, ActA, ActB, F> {
    open spec fn pre(self) -> bool {
        &&& self.act_a.pre()
        &&& self.act_b.pre()
        &&& forall|ra: Id<A>, rb: Id<B>|
            self.act_a.post(ra) && self.act_b.post(rb) ==> call_requires(
                self.func,
                (ra.0, rb.0),
            )
    }

    open spec fn post(self, r: Id<C>) -> bool {
        exists|ra: Id<A>, rb: Id<B>|
            self.act_a.post(ra) && self.act_b.post(rb) && call_ensures(
                self.func,
                (ra.0, rb.0),
                r.0,
            )
    }

    fn run(self) -> (r: Id<C>) {
        let ra = self.act_a.run();
        let ghost raw = ra;
        let rb = self.act_b.run();
        let ghost rbw = rb;
        let c = (self.func)(ra.0, rb.0);
        let r = Id(c);
        proof {
            assert(self.act_a.post(raw) && self.act_b.post(rbw) && call_ensures(
                self.func,
                (raw.0, rbw.0),
                r.0,
            ));
        }
        r
    }
}

} // verus!
