use recursive_adt::expr::{BoxExpr, Expr, ExprMatcher, RcExpr};

#[test]
fn test_xx() {
    let v0: RcExpr<isize> = RcExpr::var(0);
    let v1: RcExpr<isize> = RcExpr::var(1);
    let _ = v0.and(&v1);
}

#[test]
fn negation_wraps_variable() {
    let e: RcExpr<isize> = RcExpr::var(5).not();
    match e.matcher() {
        ExprMatcher::Not(inner) => match inner.matcher() {
            ExprMatcher::Var(v) => assert_eq!(*v, 5),
            _ => panic!("the operand should report the variable shape"),
        },
        _ => panic!("a built negation should report the Not shape"),
    }
}

#[test]
fn conjunction_reports_both_children() {
    let a: RcExpr<isize> = RcExpr::var(1);
    let b: RcExpr<isize> = RcExpr::var(2).not();
    let e = a.and(&b);
    match e.matcher() {
        ExprMatcher::And(left, right) => {
            assert!(matches!(left.matcher(), ExprMatcher::Var(v) if *v == 1));
            assert!(matches!(right.matcher(), ExprMatcher::Not(_)));
        }
        _ => panic!("a built conjunction should report the And shape"),
    }
}

#[test]
fn disjunction_reports_both_children() {
    let a: BoxExpr<isize> = BoxExpr::var(3);
    let b: BoxExpr<isize> = BoxExpr::var(4);
    let e = a.or(&b);
    match e.matcher() {
        ExprMatcher::Or(left, right) => {
            assert!(matches!(left.matcher(), ExprMatcher::Var(v) if *v == 3));
            assert!(matches!(right.matcher(), ExprMatcher::Var(v) if *v == 4));
        }
        _ => panic!("a built disjunction should report the Or shape"),
    }
}

#[test]
fn construction_is_pure_shapes() {
    // Two constructions from equal arguments report identical shape nesting,
    // under either ownership strategy.
    let first: RcExpr<isize> = RcExpr::var(7).not();
    let second: RcExpr<isize> = RcExpr::var(7).not();
    for e in [&first, &second] {
        match e.matcher() {
            ExprMatcher::Not(inner) => {
                assert!(matches!(inner.matcher(), ExprMatcher::Var(v) if *v == 7));
            }
            _ => panic!("both constructions should report the Not shape"),
        }
    }

    let third: BoxExpr<isize> = BoxExpr::var(7).not();
    match third.matcher() {
        ExprMatcher::Not(inner) => {
            assert!(matches!(inner.matcher(), ExprMatcher::Var(v) if *v == 7));
        }
        _ => panic!("the exclusive strategy should report the same shape"),
    }
}

#[test]
fn shared_subtrees_stay_immutable() {
    // One sub-expression reused across several values: sharing is an
    // optimization and never observable through the shape accessors.
    let common: RcExpr<isize> = RcExpr::var(9);
    let left = common.not();
    let right = common.and(&common);
    assert!(matches!(left.matcher(), ExprMatcher::Not(_)));
    match right.matcher() {
        ExprMatcher::And(a, b) => {
            assert!(matches!(a.matcher(), ExprMatcher::Var(v) if *v == 9));
            assert!(matches!(b.matcher(), ExprMatcher::Var(v) if *v == 9));
        }
        _ => panic!("a built conjunction should report the And shape"),
    }
    assert!(matches!(common.matcher(), ExprMatcher::Var(v) if *v == 9));
}
