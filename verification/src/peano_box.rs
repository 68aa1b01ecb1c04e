use vstd::prelude::*;

use crate::peano;
use crate::peano::Peano as PeanoShape;
use crate::peano::PeanoMatcher;

verus! {

/// One node of the structure, owned exclusively by the wrapper that holds it.
enum PeanoInner {
    O,
    S(Peano),
}

/// A unary natural number under the exclusive-ownership strategy: every
/// value is the sole owner of its node, so no two values ever share
/// structure, and duplication deep-copies the whole chain.
pub struct Peano(Box<PeanoInner>);

impl Peano {
    /// The number zero.
    pub fn zero() -> (r: Self)
        ensures
            r.value() == 0,
    {
        PeanoShape::zero()
    }

    /// The successor of this number.
    pub fn cons(&self) -> (r: Self)
        ensures
            r.value() == self.value() + 1,
    {
        PeanoShape::cons(self)
    }

    /// Peel one successor layer off, deep-copying the predecessor;
    /// `None` when this value is zero.
    pub fn dec(&self) -> (r: Option<Self>)
        ensures
            (match r {
                None => self.value() == 0,
                Some(x) => self.value() == x.value() + 1,
            }),
    {
        match self.matcher() {
            PeanoMatcher::O => None,
            PeanoMatcher::S(x) => Some(x.dup()),
        }
    }

    /// The denoted number as a machine integer.
    pub fn count(&self) -> (n: i32)
        requires
            self.value() <= i32::MAX,
        ensures
            n == self.value(),
    {
        peano::count(self)
    }

    /// The sum of the two numbers, as a new value.
    pub fn add(&self, other: &Self) -> (r: Self)
        ensures
            r.value() == self.value() + other.value(),
    {
        peano::add(self, other)
    }
}

impl PeanoShape for Peano {
    /// The natural number this structure denotes: the depth of `S` nodes
    /// above the base `O` node.
    closed spec fn value(&self) -> nat
        decreases self,
    {
        match *self.0 {
            PeanoInner::O => 0,
            PeanoInner::S(x) => x.value() + 1,
        }
    }

    fn new(inner: PeanoMatcher<Self>) -> (r: Self) {
        match inner {
            PeanoMatcher::O => Peano(Box::new(PeanoInner::O)),
            PeanoMatcher::S(x) => Peano(Box::new(PeanoInner::S(x))),
        }
    }

    fn matcher(&self) -> (m: PeanoMatcher<&Self>) {
        match &*self.0 {
            PeanoInner::O => PeanoMatcher::O,
            PeanoInner::S(x) => PeanoMatcher::S(x),
        }
    }

    fn dup(&self) -> (r: Self)
        decreases self.value(),
    {
        match &*self.0 {
            PeanoInner::O => Peano(Box::new(PeanoInner::O)),
            PeanoInner::S(x) => Peano(Box::new(PeanoInner::S(x.dup()))),
        }
    }
}

} // verus!
