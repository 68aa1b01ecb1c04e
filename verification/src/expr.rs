use std::rc::Rc;
use vstd::prelude::*;

verus! {

/// The shape of a boolean expression: a named variable, the negation of one
/// sub-expression, or the conjunction or disjunction of two.
///
/// `T` is the variable label type and `E` the concrete expression type; a
/// borrowed view of a value's current shape instantiates them with `&T` and
/// `&E`.
#[derive(Copy, Clone, Eq, PartialEq, Ord, PartialOrd, Hash, Debug)]
pub enum ExprMatcher<T, E> {
    Var(T),
    Not(E),
    And(E, E),
    Or(E, E),
}

/// The abstract syntax tree an expression denotes, independent of how its
/// nodes are owned; contracts over concrete expression values speak of this
/// model.
pub enum ExprModel<T> {
    Var(T),
    Not(Box<ExprModel<T>>),
    And(Box<ExprModel<T>>, Box<ExprModel<T>>),
    Or(Box<ExprModel<T>>, Box<ExprModel<T>>),
}

/// The recursive-shape contract for boolean expressions: an abstract model,
/// a constructor that wraps one shape instance, an accessor that reveals the
/// current shape, and a model-preserving duplicate. The expression-building
/// operations are derived here once and shared by every ownership strategy;
/// the algebra is deliberately uninterpreted — no simplification, no
/// evaluation — so building the tree is the entire behaviour.
pub trait Expr: Sized {
    /// The variable label type.
    type T;

    /// The tree this value denotes.
    spec fn model(&self) -> ExprModel<Self::T>;

    /// Wrap one shape instance, whose recursive fields are already concrete
    /// values, into a new concrete value.
    fn new(inner: ExprMatcher<Self::T, Self>) -> (r: Self)
        ensures
            (match inner {
                ExprMatcher::Var(t) => r.model() == ExprModel::Var(t),
                ExprMatcher::Not(e) => r.model() == ExprModel::Not(Box::new(e.model())),
                ExprMatcher::And(a, b) => r.model() == ExprModel::And(
                    Box::new(a.model()),
                    Box::new(b.model()),
                ),
                ExprMatcher::Or(a, b) => r.model() == ExprModel::Or(
                    Box::new(a.model()),
                    Box::new(b.model()),
                ),
            }),
    ;

    /// Reveal which shape this value currently holds, handing out borrowed
    /// views of the label or the recursive sub-values.
    fn matcher(&self) -> (m: ExprMatcher<&Self::T, &Self>)
        ensures
            (match m {
                ExprMatcher::Var(t) => self.model() == ExprModel::Var(*t),
                ExprMatcher::Not(e) => self.model() == ExprModel::Not(Box::new(e.model())),
                ExprMatcher::And(a, b) => self.model() == ExprModel::And(
                    Box::new(a.model()),
                    Box::new(b.model()),
                ),
                ExprMatcher::Or(a, b) => self.model() == ExprModel::Or(
                    Box::new(a.model()),
                    Box::new(b.model()),
                ),
            }),
    ;

    /// Produce an independent handle to the same tree.
    fn dup(&self) -> (r: Self)
        ensures
            r.model() == self.model(),
    ;

    /// An expression consisting of a single variable.
    fn var(v: Self::T) -> (r: Self)
        ensures
            r.model() == ExprModel::Var(v),
    {
        Self::new(ExprMatcher::Var(v))
    }

    /// The negation of this expression, with no simplification.
    fn not(&self) -> (r: Self)
        ensures
            r.model() == ExprModel::Not(Box::new(self.model())),
    {
        Self::new(ExprMatcher::Not(self.dup()))
    }

    /// The conjunction of the two expressions, with no simplification.
    fn and(&self, other: &Self) -> (r: Self)
        ensures
            r.model() == ExprModel::And(Box::new(self.model()), Box::new(other.model())),
    {
        Self::new(ExprMatcher::And(self.dup(), other.dup()))
    }

    /// The disjunction of the two expressions, with no simplification.
    fn or(&self, other: &Self) -> (r: Self)
        ensures
            r.model() == ExprModel::Or(Box::new(self.model()), Box::new(other.model())),
    {
        Self::new(ExprMatcher::Or(self.dup(), other.dup()))
    }
}

/// Reported shape, negation: when a value's model is a negation — as it is
/// for any result of `not` — the view its `matcher` hands out can only be the
/// `Not` variant, wrapping a sub-value whose model is the operand's. In
/// particular `variable(v).not()` reports `Not` around a value whose model is
/// `Var(v)`.
pub proof fn lemma_reported_not<E: Expr>(e: E, x: ExprModel<E::T>, m: ExprMatcher<&E::T, &E>)
    requires
        e.model() == ExprModel::Not(Box::new(x)),
        (match m {
            ExprMatcher::Var(t) => e.model() == ExprModel::Var(*t),
            ExprMatcher::Not(o) => e.model() == ExprModel::Not(Box::new(o.model())),
            ExprMatcher::And(a, b) => e.model() == ExprModel::And(
                Box::new(a.model()),
                Box::new(b.model()),
            ),
            ExprMatcher::Or(a, b) => e.model() == ExprModel::Or(
                Box::new(a.model()),
                Box::new(b.model()),
            ),
        }),
    ensures
        (m matches ExprMatcher::Not(o) && o.model() == x),
{
}

/// Reported shape, conjunction: when a value's model is a conjunction — as
/// it is for any result of `a.and(b)` — its `matcher` can only report the
/// `And` variant, with the first child's model equal to `a`'s and the second
/// to `b`'s; and the same for `or`.
pub proof fn lemma_reported_and<E: Expr>(
    e: E,
    x: ExprModel<E::T>,
    y: ExprModel<E::T>,
    m: ExprMatcher<&E::T, &E>,
)
    requires
        e.model() == ExprModel::And(Box::new(x), Box::new(y)),
        (match m {
            ExprMatcher::Var(t) => e.model() == ExprModel::Var(*t),
            ExprMatcher::Not(o) => e.model() == ExprModel::Not(Box::new(o.model())),
            ExprMatcher::And(a, b) => e.model() == ExprModel::And(
                Box::new(a.model()),
                Box::new(b.model()),
            ),
            ExprMatcher::Or(a, b) => e.model() == ExprModel::Or(
                Box::new(a.model()),
                Box::new(b.model()),
            ),
        }),
    ensures
        (m matches ExprMatcher::And(a, b) && a.model() == x && b.model() == y),
{
}

/// Reported shape, disjunction: the `or` counterpart of `lemma_reported_and`.
pub proof fn lemma_reported_or<E: Expr>(
    e: E,
    x: ExprModel<E::T>,
    y: ExprModel<E::T>,
    m: ExprMatcher<&E::T, &E>,
)
    requires
        e.model() == ExprModel::Or(Box::new(x), Box::new(y)),
        (match m {
            ExprMatcher::Var(t) => e.model() == ExprModel::Var(*t),
            ExprMatcher::Not(o) => e.model() == ExprModel::Not(Box::new(o.model())),
            ExprMatcher::And(a, b) => e.model() == ExprModel::And(
                Box::new(a.model()),
                Box::new(b.model()),
            ),
            ExprMatcher::Or(a, b) => e.model() == ExprModel::Or(
                Box::new(a.model()),
                Box::new(b.model()),
            ),
        }),
    ensures
        (m matches ExprMatcher::Or(a, b) && a.model() == x && b.model() == y),
{
}

/// Construction is pure: the constructors' contracts determine the built
/// tree from the arguments' models alone, so building the same shape twice
/// from equal-model arguments yields values with equal models — whether or
/// not they share an allocation.
pub proof fn lemma_construction_pure<E: Expr>(a1: E, b1: E, a2: E, b2: E, r1: E, r2: E)
    requires
        a1.model() == a2.model(),
        b1.model() == b2.model(),
        r1.model() == ExprModel::And(Box::new(a1.model()), Box::new(b1.model())),
        r2.model() == ExprModel::And(Box::new(a2.model()), Box::new(b2.model())),
    ensures
        r1.model() == r2.model(),
{
}

/// Strategy equivalence for expressions: the model any constructor promises
/// is a function of the arguments' models alone, so two ownership strategies
/// over the same label type that hold equal models keep equal models under
/// every construction — here shown for conjunction, the other shapes being
/// word-for-word the same.
pub proof fn lemma_strategy_equivalence<E: Expr, F: Expr<T = E::T>>(
    a1: E,
    b1: E,
    a2: F,
    b2: F,
    r1: E,
    r2: F,
)
    requires
        a1.model() == a2.model(),
        b1.model() == b2.model(),
        r1.model() == ExprModel::And(Box::new(a1.model()), Box::new(b1.model())),
        r2.model() == ExprModel::And(Box::new(a2.model()), Box::new(b2.model())),
    ensures
        r1.model() == r2.model(),
{
}

/// One node of a shared expression tree; never mutated once built, which is
/// what makes sharing it between values safe.
enum RcExprInner<T> {
    Var(T),
    Not(RcExpr<T>),
    And(RcExpr<T>, RcExpr<T>),
    Or(RcExpr<T>, RcExpr<T>),
}

/// A boolean expression under the shared-ownership strategy: values hold
/// reference-counted handles to immutable nodes, so duplication is a handle
/// copy and a repeated sub-expression can be one shared allocation.
#[derive(Clone)]
pub struct RcExpr<T>(Rc<RcExprInner<T>>);

impl<T> Expr for RcExpr<T> {
    type T = T;

    /// The tree this value denotes, read off the nodes recursively.
    closed spec fn model(&self) -> ExprModel<T>
        decreases self,
    {
        match *self.0 {
            RcExprInner::Var(t) => ExprModel::Var(t),
            RcExprInner::Not(e) => ExprModel::Not(Box::new(e.model())),
            RcExprInner::And(a, b) => ExprModel::And(Box::new(a.model()), Box::new(b.model())),
            RcExprInner::Or(a, b) => ExprModel::Or(Box::new(a.model()), Box::new(b.model())),
        }
    }

    fn new(inner: ExprMatcher<T, Self>) -> (r: Self) {
        match inner {
            ExprMatcher::Var(t) => RcExpr(Rc::new(RcExprInner::Var(t))),
            ExprMatcher::Not(e) => RcExpr(Rc::new(RcExprInner::Not(e))),
            ExprMatcher::And(a, b) => RcExpr(Rc::new(RcExprInner::And(a, b))),
            ExprMatcher::Or(a, b) => RcExpr(Rc::new(RcExprInner::Or(a, b))),
        }
    }

    fn matcher(&self) -> (m: ExprMatcher<&T, &Self>) {
        match &*self.0 {
            RcExprInner::Var(t) => ExprMatcher::Var(t),
            RcExprInner::Not(e) => ExprMatcher::Not(e),
            RcExprInner::And(a, b) => ExprMatcher::And(a, b),
            RcExprInner::Or(a, b) => ExprMatcher::Or(a, b),
        }
    }

    fn dup(&self) -> (r: Self) {
        RcExpr(self.0.clone())
    }
}

/// One node of an exclusively owned expression tree.
enum BoxExprInner<T> {
    Var(T),
    Not(BoxExpr<T>),
    And(BoxExpr<T>, BoxExpr<T>),
    Or(BoxExpr<T>, BoxExpr<T>),
}

/// A boolean expression under the exclusive-ownership strategy: every value
/// is the sole owner of its nodes, and duplication deep-copies the whole
/// tree — which is why the variable labels must be plain copyable data.
pub struct BoxExpr<T>(Box<BoxExprInner<T>>);

impl<T: Copy> Expr for BoxExpr<T> {
    type T = T;

    /// The tree this value denotes, read off the nodes recursively.
    closed spec fn model(&self) -> ExprModel<T>
        decreases self,
    {
        match *self.0 {
            BoxExprInner::Var(t) => ExprModel::Var(t),
            BoxExprInner::Not(e) => ExprModel::Not(Box::new(e.model())),
            BoxExprInner::And(a, b) => ExprModel::And(Box::new(a.model()), Box::new(b.model())),
            BoxExprInner::Or(a, b) => ExprModel::Or(Box::new(a.model()), Box::new(b.model())),
        }
    }

    fn new(inner: ExprMatcher<T, Self>) -> (r: Self) {
        match inner {
            ExprMatcher::Var(t) => BoxExpr(Box::new(BoxExprInner::Var(t))),
            ExprMatcher::Not(e) => BoxExpr(Box::new(BoxExprInner::Not(e))),
            ExprMatcher::And(a, b) => BoxExpr(Box::new(BoxExprInner::And(a, b))),
            ExprMatcher::Or(a, b) => BoxExpr(Box::new(BoxExprInner::Or(a, b))),
        }
    }

    fn matcher(&self) -> (m: ExprMatcher<&T, &Self>) {
        match &*self.0 {
            BoxExprInner::Var(t) => ExprMatcher::Var(t),
            BoxExprInner::Not(e) => ExprMatcher::Not(e),
            BoxExprInner::And(a, b) => ExprMatcher::And(a, b),
            BoxExprInner::Or(a, b) => ExprMatcher::Or(a, b),
        }
    }

    fn dup(&self) -> (r: Self)
        decreases *self,
    {
        match &*self.0 {
            BoxExprInner::Var(t) => BoxExpr(Box::new(BoxExprInner::Var(*t))),
            BoxExprInner::Not(e) => BoxExpr(Box::new(BoxExprInner::Not(e.dup()))),
            BoxExprInner::And(a, b) => BoxExpr(
                Box::new(BoxExprInner::And(a.dup(), b.dup())),
            ),
            BoxExprInner::Or(a, b) => BoxExpr(Box::new(BoxExprInner::Or(a.dup(), b.dup()))),
        }
    }
}

} // verus!
