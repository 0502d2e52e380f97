//! Monoids: the shape a writer log must have so that logs of chained
//! actions can be merged associatively, with an identity element.

use vstd::prelude::*;

verus! {

/// A type with an identity element and an associative combining operation.
///
/// Each implementation chooses a mathematical model `M` for its values
/// (for example `Seq<char>` for `String`), states `op` and `empty` against
/// that model, and proves the monoid laws over it.  All writer contracts
/// in this crate speak of logs through `Monoid::model`.
pub trait Monoid: Sized {
    /// The mathematical model of a log value.
    type M;

    /// What a value denotes.
    spec fn model(self) -> Self::M;

    /// The model of the identity element.
    spec fn munit() -> Self::M;

    /// The combining operation, on models.
    spec fn mop(a: Self::M, b: Self::M) -> Self::M;

    /// The identity element: an empty log.
    fn empty() -> (r: Self)
        ensures
            r.model() == Self::munit(),
    ;

    /// Combine two logs, left to right.
    fn op(&self, other: &Self) -> (r: Self)
        ensures
            r.model() == Self::mop(self.model(), other.model()),
    ;

    /// A copy of a log, equal in model.
    fn duplicate(&self) -> (r: Self)
        ensures
            r.model() == self.model(),
    ;

    /// The identity element is neutral on the left.
    proof fn lemma_unit_left(m: Self::M)
        ensures
            Self::mop(Self::munit(), m) == m,
    ;

    /// The identity element is neutral on the right.
    proof fn lemma_unit_right(m: Self::M)
        ensures
            Self::mop(m, Self::munit()) == m,
    ;

    /// Combining is associative.
    proof fn lemma_assoc(a: Self::M, b: Self::M, c: Self::M)
        ensures
            Self::mop(Self::mop(a, b), c) == Self::mop(a, Self::mop(b, c)),
    ;
}

/// The trivial monoid: a log that records nothing.
impl Monoid for () {
    type M = ();

    open spec fn model(self) -> () {
        ()
    }

    open spec fn munit() -> () {
        ()
    }

    open spec fn mop(a: (), b: ()) -> () {
        ()
    }

    fn empty() -> (r: ()) {
        ()
    }

    fn op(&self, other: &()) -> (r: ()) {
        ()
    }

    fn duplicate(&self) -> (r: ()) {
        ()
    }

    proof fn lemma_unit_left(m: ()) {
    }

    proof fn lemma_unit_right(m: ()) {
    }

    proof fn lemma_assoc(a: (), b: (), c: ()) {
    }
}

/// Numbers under wrapping addition, with identity 0.
impl Monoid for u32 {
    type M = u32;

    open spec fn model(self) -> u32 {
        self
    }

    open spec fn munit() -> u32 {
        0
    }

    open spec fn mop(a: u32, b: u32) -> u32 {
        vstd::wrapping::u32_specs::wrapping_add(a, b)
    }

    fn empty() -> (r: u32) {
        0
    }

    fn op(&self, other: &u32) -> (r: u32) {
        self.wrapping_add(*other)
    }

    fn duplicate(&self) -> (r: u32) {
        *self
    }

    proof fn lemma_unit_left(m: u32) {
    }

    proof fn lemma_unit_right(m: u32) {
    }

    proof fn lemma_assoc(a: u32, b: u32, c: u32) {
    }
}

/// Text under concatenation, with the empty string as identity.
impl Monoid for String {
    type M = Seq<char>;

    open spec fn model(self) -> Seq<char> {
        self@
    }

    open spec fn munit() -> Seq<char> {
        Seq::empty()
    }

    open spec fn mop(a: Seq<char>, b: Seq<char>) -> Seq<char> {
        a + b
    }

    fn empty() -> (r: String) {
        String::new()
    }

    fn op(&self, other: &String) -> (r: String) {
        self.clone().concat(other.as_str())
    }

    fn duplicate(&self) -> (r: String) {
        self.clone()
    }

    proof fn lemma_unit_left(m: Seq<char>) {
        assert(Seq::empty() + m =~= m);
    }

    proof fn lemma_unit_right(m: Seq<char>) {
        assert(m + Seq::empty() =~= m);
    }

    proof fn lemma_assoc(a: Seq<char>, b: Seq<char>, c: Seq<char>) {
        assert((a + b) + c =~= a + (b + c));
    }
}

} // verus!
