use vstd::prelude::*;

verus! {

/// The shape of a unary natural number: either zero (`O`) or the successor
/// (`S`) of another value of the same family.
///
/// The parameter `P` is the concrete value type; a borrowed view of a value's
/// current shape instantiates it with `&P`.
pub enum PeanoMatcher<P> {
    O,
    S(P),
}

/// The recursive-shape contract for unary natural numbers.
///
/// A concrete type satisfies it by giving an abstract value (the number the
/// structure denotes), a constructor that wraps one shape instance, an
/// accessor that reveals the current shape, and a value-preserving duplicate
/// (deep copy under exclusive ownership, handle copy under shared ownership).
/// Every arithmetic operation is derived here, once, from those primitives,
/// so each ownership strategy inherits the same verified behaviour.
pub trait Peano: Sized {
    /// The natural number this value denotes.
    spec fn value(&self) -> nat;

    /// Wrap one shape instance, whose recursive field is already a concrete
    /// value, into a new concrete value.
    fn new(inner: PeanoMatcher<Self>) -> (r: Self)
        ensures
            (match inner {
                PeanoMatcher::O => r.value() == 0,
                PeanoMatcher::S(x) => r.value() == x.value() + 1,
            }),
    ;

    /// Reveal which shape this value currently holds, handing out a borrowed
    /// view of the recursive sub-value.
    fn matcher(&self) -> (m: PeanoMatcher<&Self>)
        ensures
            (match m {
                PeanoMatcher::O => self.value() == 0,
                PeanoMatcher::S(x) => self.value() == x.value() + 1,
            }),
    ;

    /// Produce an independent handle to the same number.
    fn dup(&self) -> (r: Self)
        ensures
            r.value() == self.value(),
    ;

    /// The number zero.
    fn zero() -> (r: Self)
        ensures
            r.value() == 0,
    {
        Self::new(PeanoMatcher::O)
    }

    /// The successor of this number.
    fn cons(&self) -> (r: Self)
        ensures
            r.value() == self.value() + 1,
    {
        Self::new(PeanoMatcher::S(self.dup()))
    }
}

/// The denoted number, as a machine integer: the depth of `S` layers above
/// `O`; written once against the contract and shared by every strategy.
pub fn count<P: Peano>(p: &P) -> (n: i32)
    requires
        p.value() <= i32::MAX,
    ensures
        n == p.value(),
    decreases p.value(),
{
    match p.matcher() {
        PeanoMatcher::O => 0,
        PeanoMatcher::S(x) => count(x) + 1,
    }
}

/// Addition: rewraps `a` as a successor once per layer peeled off `b`.
pub fn add<P: Peano>(a: &P, b: &P) -> (r: P)
    ensures
        r.value() == a.value() + b.value(),
    decreases b.value(),
{
    match b.matcher() {
        PeanoMatcher::O => a.dup(),
        PeanoMatcher::S(x) => crate::peano::add(&a.cons(), x),
    }
}

/// Partial subtraction: peels one layer off both sides at a time and returns
/// the unconsumed prefix of `a`, or `None` the moment `b` still has a layer
/// but `a` has none — no negative number is representable.
pub fn sub<'a, P: Peano>(a: &'a P, b: &P) -> (r: Option<&'a P>)
    ensures
        (match r {
            Some(x) => b.value() <= a.value() && x.value() + b.value() == a.value(),
            None => a.value() < b.value(),
        }),
    decreases a.value(),
{
    match (a.matcher(), b.matcher()) {
        (_, PeanoMatcher::O) => Some(a),
        (PeanoMatcher::O, _) => None,
        (PeanoMatcher::S(x), PeanoMatcher::S(y)) => crate::peano::sub(x, y),
    }
}

/// A value denoting exactly `n`, built by `n` successor applications on
/// zero — so its count is `n`.
pub fn from_u32<P: Peano>(n: u32) -> (r: P)
    ensures
        r.value() == n,
{
    let mut r: P = P::zero();
    let mut i: u32 = 0;
    while i < n
        invariant
            i <= n,
            r.value() == i,
        decreases n - i,
    {
        r = r.cons();
        i = i + 1;
    }
    r
}

/// Strategy equivalence: every observable the derived operations promise —
/// the count, the sum's count, the presence and count of a difference — is a
/// function of the operands' denoted numbers alone. So two strategies `P` and
/// `Q` holding equal numbers agree on all of them: here `ps`/`qs` stand for
/// any results `add` may return and `pd`/`qd` for any results `sub` may
/// return, each constrained exactly as those contracts constrain them.
pub proof fn lemma_strategy_equivalence<P: Peano, Q: Peano>(
    p1: P,
    p2: P,
    q1: Q,
    q2: Q,
    ps: P,
    qs: Q,
    pd: Option<P>,
    qd: Option<Q>,
)
    requires
        p1.value() == q1.value(),
        p2.value() == q2.value(),
        ps.value() == p1.value() + p2.value(),
        qs.value() == q1.value() + q2.value(),
        (match pd {
            Some(x) => p2.value() <= p1.value() && x.value() + p2.value() == p1.value(),
            None => p1.value() < p2.value(),
        }),
        (match qd {
            Some(x) => q2.value() <= q1.value() && x.value() + q2.value() == q1.value(),
            None => q1.value() < q2.value(),
        }),
    ensures
        ps.value() == qs.value(),
        pd is Some <==> qd is Some,
        (match (pd, qd) {
            (Some(x), Some(y)) => x.value() == y.value(),
            _ => true,
        }),
{
}

/// Additive identity: adding a zero-denoting value on either side leaves the
/// denoted number — and hence the count — unchanged. `l` and `r` stand for
/// any results `add` may return for `x.add(z)` and `z.add(x)`.
pub proof fn lemma_add_identity<P: Peano>(x: P, z: P, l: P, r: P)
    requires
        z.value() == 0,
        l.value() == x.value() + z.value(),
        r.value() == z.value() + x.value(),
    ensures
        l.value() == x.value(),
        r.value() == x.value(),
{
}

/// Additive correctness: for numbers denoting `a` and `b`, any result `add`
/// may return denotes exactly `a + b`.
pub proof fn lemma_add_correct<P: Peano>(x: P, y: P, s: P, a: nat, b: nat)
    requires
        x.value() == a,
        y.value() == b,
        s.value() == x.value() + y.value(),
    ensures
        s.value() == a + b,
{
}

/// Subtraction partiality: any result `sub` may return for `x.sub(y)` is
/// present exactly when `y` does not exceed `x`, and then denotes their
/// difference; it is absent exactly when `y` exceeds `x`.
pub proof fn lemma_sub_partiality<P: Peano>(x: P, y: P, d: Option<P>)
    requires
        (match d {
            Some(r) => y.value() <= x.value() && r.value() + y.value() == x.value(),
            None => x.value() < y.value(),
        }),
    ensures
        d is Some <==> y.value() <= x.value(),
        d is None <==> x.value() < y.value(),
        (d matches Some(r) ==> r.value() == x.value() - y.value()),
{
}

/// Subtraction identity: subtracting a zero-denoting value always succeeds
/// and returns a value denoting the minuend unchanged.
pub proof fn lemma_sub_identity<P: Peano>(x: P, z: P, d: Option<P>)
    requires
        z.value() == 0,
        (match d {
            Some(r) => z.value() <= x.value() && r.value() + z.value() == x.value(),
            None => x.value() < z.value(),
        }),
    ensures
        d matches Some(r) && r.value() == x.value(),
{
}

/// Construction is pure: the constructors' contracts determine the denoted
/// number from the arguments alone, so two successor applications on
/// equal-valued arguments yield values no operation can tell apart — whether
/// or not they share an allocation.
pub proof fn lemma_construction_pure<P: Peano>(x: P, y: P, sx: P, sy: P)
    requires
        x.value() == y.value(),
        sx.value() == x.value() + 1,
        sy.value() == y.value() + 1,
    ensures
        sx.value() == sy.value(),
{
}

} // verus!
