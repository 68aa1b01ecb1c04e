use std::rc::Rc;
use vstd::prelude::*;

use crate::peano;
use crate::peano::Peano as PeanoShape;
use crate::peano::PeanoMatcher;

verus! {

/// One node of the structure; it is never mutated once built, which is what
/// makes sharing it between values safe.
enum PeanoInner {
    O,
    S(Peano),
}

/// A unary natural number under the shared-ownership strategy: values hold
/// reference-counted handles to immutable nodes, so duplication is a handle
/// copy and distinct values may share structure.
pub struct Peano(Rc<PeanoInner>);

impl Peano {
    /// The number zero.
    pub fn zero() -> (r: Self)
        ensures
            r.value() == 0,
    {
        PeanoShape::zero()
    }

    /// The successor of this number.
    pub fn cons(&self) -> (r: Self)
        ensures
            r.value() == self.value() + 1,
    {
        PeanoShape::cons(self)
    }

    /// Peel one successor layer off, borrowing the predecessor;
    /// `None` when this value is zero.
    pub fn dec(&self) -> (r: Option<&Self>)
        ensures
            (match r {
                None => self.value() == 0,
                Some(x) => self.value() == x.value() + 1,
            }),
    {
        match self.matcher() {
            PeanoMatcher::O => None,
            PeanoMatcher::S(x) => Some(x),
        }
    }

    /// The denoted number as a machine integer.
    pub fn count(&self) -> (n: i32)
        requires
            self.value() <= i32::MAX,
        ensures
            n == self.value(),
    {
        peano::count(self)
    }

    /// The sum of the two numbers, as a new value.
    pub fn add(&self, other: &Self) -> (r: Self)
        ensures
            r.value() == self.value() + other.value(),
    {
        peano::add(self, other)
    }

    /// The difference of the two numbers, or `None` when `other` exceeds
    /// `self`: natural-number subtraction is partial by design.
    pub fn sub<'a>(&'a self, other: &Self) -> (r: Option<&'a Self>)
        ensures
            (match r {
                Some(x) => other.value() <= self.value() && x.value() + other.value()
                    == self.value(),
                None => self.value() < other.value(),
            }),
    {
        peano::sub(self, other)
    }
}

impl PeanoShape for Peano {
    /// The natural number this structure denotes: the depth of `S` nodes
    /// above the base `O` node.
    closed spec fn value(&self) -> nat
        decreases self,
    {
        match *self.0 {
            PeanoInner::O => 0,
            PeanoInner::S(x) => x.value() + 1,
        }
    }

    fn new(inner: PeanoMatcher<Self>) -> (r: Self) {
        match inner {
            PeanoMatcher::O => Peano(Rc::new(PeanoInner::O)),
            PeanoMatcher::S(x) => Peano(Rc::new(PeanoInner::S(x))),
        }
    }

    fn matcher(&self) -> (m: PeanoMatcher<&Self>) {
        match &*self.0 {
            PeanoInner::O => PeanoMatcher::O,
            PeanoInner::S(x) => PeanoMatcher::S(x),
        }
    }

    fn dup(&self) -> (r: Self) {
        Peano(self.0.clone())
    }
}

} // verus!
