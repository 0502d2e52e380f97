//! The algebraic laws of the combinators, stated over the contracts of
//! `Run` and proved once and for all.  Each law speaks of the results an
//! action tree may produce (`Run::post`), for any functions whose
//! behaviour is pinned by their own contracts.

use vstd::prelude::*;
use crate::action::{AndThen, AndThenCtx, First, Mapped, Pure};
use crate::identity::Id;
use crate::monoid::Monoid;
use crate::scaffold::{Ap, BuildError, BuildId, BuildWriter, Run};
use crate::writer::Writer;

verus! {

/// `f` computes the mathematical function `m`: every result `f` may
/// return is the one `m` prescribes.
pub open spec fn computes<A, B, F: FnOnce(A) -> B>(f: F, m: spec_fn(A) -> B) -> bool {
    forall|x: A, y: B| call_ensures(f, (x,), y) ==> y == m(x)
}

/// What an action may yield under the plain carrier.
pub open spec fn post_plain<A, Act: Run<(), A>>(act: Act, r: A) -> bool {
    act.post(r)
}

/// What an action may yield under the identity carrier.
pub open spec fn post_id<A, Act: Run<BuildId<()>, A>>(act: Act, r: Id<A>) -> bool {
    act.post(r)
}

/// What an action may yield under the writer carrier.
pub open spec fn post_writer<A, W: Monoid, Act: Run<BuildWriter<(), W>, A>>(
    act: Act,
    r: (A, W),
) -> bool {
    act.post(r)
}

/// What an action may yield under the error carrier.
pub open spec fn post_error<A, E, Act: Run<BuildError<(), E>, A>>(
    act: Act,
    r: Result<A, E>,
) -> bool {
    act.post(r)
}

/// What `Pure` may yield under any scaffold is exactly what that
/// scaffold builds from its value.
pub proof fn lemma_pure_post<S: Ap<A>, A>(p: Pure<A>, r: S::R)
    requires
        <Pure<A> as Run<S, A>>::post(p, r),
    ensures
        S::builds(p.value, r),
{
}

/// Identity law, plain carrier: mapping the identity function over
/// `pure(a)` yields exactly `a` again.
pub proof fn lemma_map_identity_plain<A, F: FnOnce(A) -> A>(m: Mapped<A, Pure<A>, F>, a: A, r: A)
    requires
        m.act_a.value == a,
        computes(m.func, |x: A| x),
        post_plain(m, r),
    ensures
        r == a,
{
}

/// Identity law, identity carrier: mapping the identity function over
/// `pure(a)` yields exactly `Id(a)`.
pub proof fn lemma_map_identity_id<A, F: FnOnce(A) -> A>(m: Mapped<A, Pure<A>, F>, a: A, r: Id<A>)
    requires
        m.act_a.value == a,
        computes(m.func, |x: A| x),
        post_id(m, r),
    ensures
        r == Id(a),
{
}

/// Identity law, writer carrier: mapping the identity function over
/// `pure(a)` yields `a` with an empty log, exactly what `pure(a)` is.
pub proof fn lemma_map_identity_writer<A, W: Monoid, F: FnOnce(A) -> A>(
    m: Mapped<A, Pure<A>, F>,
    a: A,
    r: (A, W),
)
    requires
        m.act_a.value == a,
        computes(m.func, |x: A| x),
        post_writer(m, r),
    ensures
        r.0 == a,
        r.1.model() == W::munit(),
{
}

/// Identity law, error carrier: mapping the identity function over
/// `pure(a)` yields exactly `Ok(a)`.
pub proof fn lemma_map_identity_error<A, E, F: FnOnce(A) -> A>(
    m: Mapped<A, Pure<A>, F>,
    a: A,
    r: Result<A, E>,
)
    requires
        m.act_a.value == a,
        computes(m.func, |x: A| x),
        post_error(m, r),
    ensures
        r == Result::<A, E>::Ok(a),
{
}

/// Composition law, plain carrier: over any source action, mapping `f`
/// and then `g` and mapping their composition in one step both yield a
/// source result sent through `g` after `f` -- result for result.
pub proof fn lemma_map_composition_plain<
    A,
    B,
    C,
    ActA: Run<(), A>,
    F: FnOnce(A) -> B,
    G: FnOnce(B) -> C,
    H: FnOnce(A) -> C,
>(
    outer: Mapped<B, Mapped<A, ActA, F>, G>,
    fused: Mapped<A, ActA, H>,
    mf: spec_fn(A) -> B,
    mg: spec_fn(B) -> C,
    r1: C,
    r2: C,
)
    requires
        outer.act_a.act_a == fused.act_a,
        computes(outer.act_a.func, mf),
        computes(outer.func, mg),
        computes(fused.func, |x: A| mg(mf(x))),
        post_plain(outer, r1),
        post_plain(fused, r2),
    ensures
        exists|a: A| post_plain(fused.act_a, a) && r1 == mg(mf(a)),
        exists|a: A| post_plain(fused.act_a, a) && r2 == mg(mf(a)),
{
    let (mid, a1) = choose|mid: B, a1: A|
        {
            &&& post_plain(fused.act_a, a1)
            &&& call_ensures(outer.act_a.func, (a1,), mid)
            &&& call_ensures(outer.func, (mid,), r1)
        };
    assert(post_plain(fused.act_a, a1) && r1 == mg(mf(a1)));
    let a2 = choose|a2: A|
        <ActA as Run<(), A>>::post(fused.act_a, a2) && call_ensures(fused.func, (a2,), r2);
    assert(post_plain(fused.act_a, a2) && r2 == mg(mf(a2)));
}

/// Composition law, writer carrier: as under the plain carrier, and both
/// sides leave the source action's log untouched.
pub proof fn lemma_map_composition_writer<
    A,
    B,
    C,
    W: Monoid,
    ActA: Run<BuildWriter<(), W>, A>,
    F: FnOnce(A) -> B,
    G: FnOnce(B) -> C,
    H: FnOnce(A) -> C,
>(
    outer: Mapped<B, Mapped<A, ActA, F>, G>,
    fused: Mapped<A, ActA, H>,
    mf: spec_fn(A) -> B,
    mg: spec_fn(B) -> C,
    r1: (C, W),
    r2: (C, W),
)
    requires
        outer.act_a.act_a == fused.act_a,
        computes(outer.act_a.func, mf),
        computes(outer.func, mg),
        computes(fused.func, |x: A| mg(mf(x))),
        post_writer(outer, r1),
        post_writer(fused, r2),
    ensures
        exists|ra: (A, W)|
            post_writer(fused.act_a, ra) && r1.0 == mg(mf(ra.0)) && r1.1 == ra.1,
        exists|ra: (A, W)|
            post_writer(fused.act_a, ra) && r2.0 == mg(mf(ra.0)) && r2.1 == ra.1,
{
    let (rmid, ra1) = choose|rmid: (B, W), ra1: (A, W)|
        {
            &&& post_writer(fused.act_a, ra1)
            &&& call_ensures(outer.act_a.func, (ra1.0,), rmid.0)
            &&& rmid.1 == ra1.1
            &&& call_ensures(outer.func, (rmid.0,), r1.0)
            &&& r1.1 == rmid.1
        };
    assert(post_writer(fused.act_a, ra1) && r1.0 == mg(mf(ra1.0)) && r1.1 == ra1.1);
    let ra2 = choose|ra2: (A, W)|
        <ActA as Run<BuildWriter<(), W>, A>>::post(fused.act_a, ra2) && call_ensures(
            fused.func,
            (ra2.0,),
            r2.0,
        ) && r2.1 == ra2.1;
    assert(post_writer(fused.act_a, ra2) && r2.0 == mg(mf(ra2.0)) && r2.1 == ra2.1);
}

/// Bind left identity, plain carrier: chaining a continuation onto
/// `pure(a)` yields exactly the results of running `f(a)` itself.
pub proof fn lemma_bind_left_identity_plain<A, B, ActB: Run<(), B>, F: FnOnce(A) -> ActB>(
    chain: AndThen<A, Pure<A>, ActB, F>,
    a: A,
    r: B,
)
    requires
        chain.act_a.value == a,
        post_plain(chain, r),
    ensures
        exists|m: ActB| call_ensures(chain.func, (a,), m) && post_plain(m, r),
{
    let (a0, m) = choose|a0: A, m: ActB|
        post_plain(chain.act_a, a0) && call_ensures(chain.func, (a0,), m) && post_plain(m, r);
    assert(a0 == a);
    assert(call_ensures(chain.func, (a,), m) && post_plain(m, r));
}

/// Bind left identity, writer carrier: `pure` writes nothing, so the
/// chain's log is exactly the continuation's log.
pub proof fn lemma_bind_left_identity_writer<
    A,
    B,
    W: Monoid,
    ActB: Run<BuildWriter<(), W>, B>,
    F: FnOnce(A) -> ActB,
>(chain: AndThen<A, Pure<A>, ActB, F>, a: A, r: (B, W))
    requires
        chain.act_a.value == a,
        post_writer(chain, r),
    ensures
        exists|m: ActB, rb: (B, W)|
            {
                &&& call_ensures(chain.func, (a,), m)
                &&& post_writer(m, rb)
                &&& r.0 == rb.0
                &&& r.1.model() == rb.1.model()
            },
{
    let (ra, m, rb) = choose|ra: (A, W), m: ActB, rb: (B, W)|
        {
            &&& <Pure<A> as Run<BuildWriter<(), W>, A>>::post(chain.act_a, ra)
            &&& call_ensures(chain.func, (ra.0,), m)
            &&& <ActB as Run<BuildWriter<(), W>, B>>::post(m, rb)
            &&& r.0 == rb.0
            &&& r.1.model() == W::mop(ra.1.model(), rb.1.model())
        };
    lemma_pure_post::<BuildWriter<(), W>, A>(chain.act_a, ra);
    assert(ra.0 == a && ra.1.model() == W::munit());
    W::lemma_unit_left(rb.1.model());
    assert({
        &&& call_ensures(chain.func, (a,), m)
        &&& post_writer(m, rb)
        &&& r.0 == rb.0
        &&& r.1.model() == rb.1.model()
    });
}

/// Bind left identity, error carrier: `pure` cannot fail, so the chain's
/// outcome is exactly the outcome of running `f(a)`.
pub proof fn lemma_bind_left_identity_error<A, B, E, ActB: Run<BuildError<(), E>, B>, F: FnOnce(
    A,
) -> ActB>(chain: AndThen<A, Pure<A>, ActB, F>, a: A, r: Result<B, E>)
    requires
        chain.act_a.value == a,
        post_error(chain, r),
    ensures
        exists|m: ActB| call_ensures(chain.func, (a,), m) && post_error(m, r),
{
    let ra = choose|ra: Result<A, E>|
        <Pure<A> as Run<BuildError<(), E>, A>>::post(chain.act_a, ra) && match ra {
            Ok(x) => exists|m: ActB|
                call_ensures(chain.func, (x,), m) && <ActB as Run<BuildError<(), E>, B>>::post(
                    m,
                    r,
                ),
            Err(e) => r == Result::<B, E>::Err(e),
        };
    lemma_pure_post::<BuildError<(), E>, A>(chain.act_a, ra);
    assert(ra == Result::<A, E>::Ok(a));
    let m = choose|m: ActB|
        call_ensures(chain.func, (a,), m) && <ActB as Run<BuildError<(), E>, B>>::post(m, r);
    assert(call_ensures(chain.func, (a,), m) && post_error(m, r));
}

/// Bind left identity, identity carrier: chaining a continuation onto
/// `pure(a)` yields exactly the results of running `f(a)` itself.
pub proof fn lemma_bind_left_identity_id<A, B, ActB: Run<BuildId<()>, B>, F: FnOnce(A) -> ActB>(
    chain: AndThen<A, Pure<A>, ActB, F>,
    a: A,
    r: Id<B>,
)
    requires
        chain.act_a.value == a,
        post_id(chain, r),
    ensures
        exists|m: ActB| call_ensures(chain.func, (a,), m) && post_id(m, r),
{
    let (ra, m) = choose|ra: Id<A>, m: ActB|
        {
            &&& <Pure<A> as Run<BuildId<()>, A>>::post(chain.act_a, ra)
            &&& call_ensures(chain.func, (ra.0,), m)
            &&& <ActB as Run<BuildId<()>, B>>::post(m, r)
        };
    lemma_pure_post::<BuildId<()>, A>(chain.act_a, ra);
    assert(ra == Id(a));
    assert(call_ensures(chain.func, (a,), m) && post_id(m, r));
}

/// Bind right identity, plain carrier: chaining `pure` onto an action
/// yields exactly the action's own results.
pub proof fn lemma_bind_right_identity_plain<A, ActA: Run<(), A>, F: FnOnce(A) -> Pure<A>>(
    chain: AndThen<A, ActA, Pure<A>, F>,
    r: A,
)
    requires
        computes(chain.func, |x: A| (Pure { value: x })),
        post_plain(chain, r),
    ensures
        post_plain(chain.act_a, r),
{
}

/// Bind right identity, writer carrier: `pure` writes nothing, so the
/// action's value and log both come through unchanged.
pub proof fn lemma_bind_right_identity_writer<A, W: Monoid, ActA: Run<BuildWriter<(), W>, A>, F: FnOnce(
    A,
) -> Pure<A>>(chain: AndThen<A, ActA, Pure<A>, F>, r: (A, W))
    requires
        computes(chain.func, |x: A| (Pure { value: x })),
        post_writer(chain, r),
    ensures
        exists|ra: (A, W)|
            {
                &&& post_writer(chain.act_a, ra)
                &&& r.0 == ra.0
                &&& r.1.model() == ra.1.model()
            },
{
    let (ra, m, rb) = choose|ra: (A, W), m: Pure<A>, rb: (A, W)|
        {
            &&& <ActA as Run<BuildWriter<(), W>, A>>::post(chain.act_a, ra)
            &&& call_ensures(chain.func, (ra.0,), m)
            &&& <Pure<A> as Run<BuildWriter<(), W>, A>>::post(m, rb)
            &&& r.0 == rb.0
            &&& r.1.model() == W::mop(ra.1.model(), rb.1.model())
        };
    lemma_pure_post::<BuildWriter<(), W>, A>(m, rb);
    assert(rb.0 == ra.0 && rb.1.model() == W::munit());
    W::lemma_unit_right(ra.1.model());
    assert({
        &&& post_writer(chain.act_a, ra)
        &&& r.0 == ra.0
        &&& r.1.model() == ra.1.model()
    });
}

/// Bind right identity, error carrier: chaining `pure` onto an action
/// yields exactly the action's own outcome, failures included.
pub proof fn lemma_bind_right_identity_error<A, E, ActA: Run<BuildError<(), E>, A>, F: FnOnce(
    A,
) -> Pure<A>>(chain: AndThen<A, ActA, Pure<A>, F>, r: Result<A, E>)
    requires
        computes(chain.func, |x: A| (Pure { value: x })),
        post_error(chain, r),
    ensures
        post_error(chain.act_a, r),
{
}

/// The context-passing chain agrees with the closure chain: when the
/// two continuations relate the same inputs to the same actions, each
/// chain's possible results are possible results of the other.
pub proof fn lemma_and_then_ctx_agrees<
    A,
    B,
    Ctx,
    ActA: Run<(), A>,
    ActB: Run<(), B>,
    F: FnOnce(Ctx, A) -> ActB,
    G: FnOnce(A) -> ActB,
>(
    ctx_chain: AndThenCtx<A, ActA, ActB, Ctx, F>,
    chain: AndThen<A, ActA, ActB, G>,
    r1: B,
    r2: B,
)
    requires
        ctx_chain.act_a == chain.act_a,
        forall|x: A, m: ActB|
            call_ensures(ctx_chain.func, (ctx_chain.context, x), m) <==> call_ensures(
                chain.func,
                (x,),
                m,
            ),
        post_plain(ctx_chain, r1),
        post_plain(chain, r2),
    ensures
        post_plain(chain, r1),
        post_plain(ctx_chain, r2),
{
    let (a1, m1) = choose|a1: A, m1: ActB|
        {
            &&& <ActA as Run<(), A>>::post(ctx_chain.act_a, a1)
            &&& call_ensures(ctx_chain.func, (ctx_chain.context, a1), m1)
            &&& <ActB as Run<(), B>>::post(m1, r1)
        };
    assert({
        &&& post_plain(chain.act_a, a1)
        &&& call_ensures(chain.func, (a1,), m1)
        &&& post_plain(m1, r1)
    });
    let (a2, m2) = choose|a2: A, m2: ActB|
        {
            &&& <ActA as Run<(), A>>::post(chain.act_a, a2)
            &&& call_ensures(chain.func, (a2,), m2)
            &&& <ActB as Run<(), B>>::post(m2, r2)
        };
    assert({
        &&& post_plain(ctx_chain.act_a, a2)
        &&& call_ensures(ctx_chain.func, (ctx_chain.context, a2), m2)
        &&& post_plain(m2, r2)
    });
}

/// Bind right identity, identity carrier: chaining `pure` onto an action
/// yields exactly the action's own results.
pub proof fn lemma_bind_right_identity_id<A, ActA: Run<BuildId<()>, A>, F: FnOnce(A) -> Pure<A>>(
    chain: AndThen<A, ActA, Pure<A>, F>,
    r: Id<A>,
)
    requires
        computes(chain.func, |x: A| (Pure { value: x })),
        post_id(chain, r),
    ensures
        post_id(chain.act_a, r),
{
    let (ra, m) = choose|ra: Id<A>, m: Pure<A>|
        {
            &&& <ActA as Run<BuildId<()>, A>>::post(chain.act_a, ra)
            &&& call_ensures(chain.func, (ra.0,), m)
            &&& <Pure<A> as Run<BuildId<()>, A>>::post(m, r)
        };
    lemma_pure_post::<BuildId<()>, A>(m, r);
    assert(r == Id(ra.0));
}

/// Writer log order: chaining `writer(x, la)` with a continuation that
/// produces `writer(y, lb)` yields value `y` and log `la` then `lb`, in
/// exactly that order.
pub proof fn lemma_writer_log_order<A, B, W: Monoid, F: FnOnce(A) -> Writer<B, W>>(
    chain: AndThen<A, Writer<A, W>, Writer<B, W>, F>,
    y: B,
    lb: W::M,
    r: (B, W),
)
    requires
        forall|x: A, w: Writer<B, W>|
            call_ensures(chain.func, (x,), w) ==> w.value == y && w.log.model() == lb,
        post_writer(chain, r),
    ensures
        r.0 == y,
        r.1.model() == W::mop(chain.act_a.log.model(), lb),
{
}

/// Result short-circuit: a chain whose first action already failed
/// evaluates to that failure; the continuation contributes nothing.
pub proof fn lemma_short_circuit<A, B, E, ActB: Run<BuildError<(), E>, B>, F: FnOnce(A) -> ActB>(
    chain: AndThen<A, Result<A, E>, ActB, F>,
    e: E,
    r: Result<B, E>,
)
    requires
        chain.act_a == Result::<A, E>::Err(e),
        post_error(chain, r),
    ensures
        r == Result::<B, E>::Err(e),
{
}

/// Sequencing evaluates both sides for their effect: `first` keeps only
/// the left value, but the result's log is the left log followed by the
/// right log.
pub proof fn lemma_first_keeps_both_logs<A, B, W: Monoid>(
    pair: First<B, Writer<A, W>, Writer<B, W>>,
    r: (A, W),
)
    requires
        post_writer(pair, r),
    ensures
        r.0 == pair.act_a.value,
        r.1.model() == W::mop(pair.act_a.log.model(), pair.act_b.log.model()),
{
}

/// Scaffold polymorphism: what `build` (and so `pure`) yields under each
/// scaffold, pinned exactly: the bare value, the value in `Id`, the value
/// beside an empty log, and the value in `Ok`.
pub proof fn lemma_scaffold_polymorphism<A, W: Monoid, E>(
    a: A,
    r_plain: A,
    r_id: Id<A>,
    r_writer: (A, W),
    r_error: Result<A, E>,
)
    requires
        <() as Ap<A>>::builds(a, r_plain),
        <BuildId<()> as Ap<A>>::builds(a, r_id),
        <BuildWriter<(), W> as Ap<A>>::builds(a, r_writer),
        <BuildError<(), E> as Ap<A>>::builds(a, r_error),
    ensures
        r_plain == a,
        r_id == Id(a),
        r_writer.0 == a,
        r_writer.1.model() == W::munit(),
        r_error == Result::<A, E>::Ok(a),
{
}

} // verus!
