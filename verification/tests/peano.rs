use recursive_adt::peano;
use recursive_adt::peano_box::Peano as BoxPeano;
use recursive_adt::peano_rc::Peano as RcPeano;

#[test]
fn test_rc_add() {
    let zero = RcPeano::zero();
    let three = RcPeano::zero().cons().cons().cons();
    let five = RcPeano::zero().cons().cons().cons().cons().cons();
    assert_eq!(zero.add(&zero).count(), 0);
    assert_eq!(zero.add(&three).count(), 3);
    assert_eq!(three.add(&zero).count(), 3);
    assert_eq!(three.add(&five).count(), 8);
    assert_eq!(five.add(&three).count(), 8);
}

#[test]
fn test_rc_sub() {
    let zero = RcPeano::zero();
    let three = RcPeano::zero().cons().cons().cons();
    let five = RcPeano::zero().cons().cons().cons().cons().cons();
    assert_eq!(zero.sub(&zero).map(|x| x.count()), Some(0));
    assert_eq!(three.sub(&three).map(|x| x.count()), Some(0));
    assert_eq!(five.sub(&five).map(|x| x.count()), Some(0));
    assert_eq!(zero.sub(&three).map(|x| x.count()), None);
    assert_eq!(three.sub(&zero).map(|x| x.count()), Some(3));
    assert_eq!(five.sub(&three).map(|x| x.count()), Some(2));
    assert_eq!(three.sub(&five).map(|x| x.count()), None);
}

#[test]
fn test_box_add() {
    let zero = BoxPeano::zero();
    let three = BoxPeano::zero().cons().cons().cons();
    let five = BoxPeano::zero().cons().cons().cons().cons().cons();
    assert_eq!(zero.add(&zero).count(), 0);
    assert_eq!(zero.add(&three).count(), 3);
    assert_eq!(three.add(&zero).count(), 3);
    assert_eq!(three.add(&five).count(), 8);
    assert_eq!(five.add(&three).count(), 8);
}

#[test]
fn test_box_sub() {
    let zero = BoxPeano::zero();
    let three = BoxPeano::zero().cons().cons().cons();
    let five = BoxPeano::zero().cons().cons().cons().cons().cons();
    assert_eq!(peano::sub(&zero, &zero).map(|x| x.count()), Some(0));
    assert_eq!(peano::sub(&three, &three).map(|x| x.count()), Some(0));
    assert_eq!(peano::sub(&five, &five).map(|x| x.count()), Some(0));
    assert_eq!(peano::sub(&zero, &three).map(|x| x.count()), None);
    assert_eq!(peano::sub(&three, &zero).map(|x| x.count()), Some(3));
    assert_eq!(peano::sub(&five, &three).map(|x| x.count()), Some(2));
    assert_eq!(peano::sub(&three, &five).map(|x| x.count()), None);
}

#[test]
fn strategy_equivalence_observables() {
    // The same construction sequence under both ownership strategies yields
    // the same counts, the same sums, and the same subtraction outcomes.
    for a in 0u32..6 {
        for b in 0u32..6 {
            let xb = peano::from_u32::<BoxPeano>(a);
            let yb = peano::from_u32::<BoxPeano>(b);
            let xr = peano::from_u32::<RcPeano>(a);
            let yr = peano::from_u32::<RcPeano>(b);
            assert_eq!(xb.count(), xr.count());
            assert_eq!(xb.add(&yb).count(), xr.add(&yr).count());
            assert_eq!(
                peano::sub(&xb, &yb).map(|d| d.count()),
                xr.sub(&yr).map(|d| d.count())
            );
        }
    }
}

#[test]
fn count_matches_construction_depth() {
    assert_eq!(peano::from_u32::<RcPeano>(0).count(), 0);
    assert_eq!(peano::from_u32::<RcPeano>(1).count(), 1);
    assert_eq!(peano::from_u32::<RcPeano>(7).count(), 7);
    assert_eq!(peano::from_u32::<RcPeano>(40).count(), 40);
}

#[test]
fn additive_identity_counts() {
    for n in 0u32..8 {
        let x = peano::from_u32::<RcPeano>(n);
        let z = RcPeano::zero();
        assert_eq!(x.add(&z).count(), n as i32);
        assert_eq!(z.add(&x).count(), n as i32);
    }
}

#[test]
fn additive_correctness_exact() {
    let two = peano::from_u32::<BoxPeano>(2);
    let three = peano::from_u32::<BoxPeano>(3);
    assert_eq!(two.add(&three).count(), 5);
    assert_eq!(three.add(&two).count(), 5);
    assert_eq!(two.add(&two).count(), 4);
}

#[test]
fn subtraction_identity_keeps_count() {
    for n in 0u32..8 {
        let x = peano::from_u32::<RcPeano>(n);
        let z = RcPeano::zero();
        assert_eq!(x.sub(&z).map(|d| d.count()), Some(n as i32));
    }
}

#[test]
fn dec_peels_one_layer() {
    let zero_b = BoxPeano::zero();
    assert!(zero_b.dec().is_none());
    let three_b = zero_b.cons().cons().cons();
    assert_eq!(three_b.dec().map(|x| x.count()), Some(2));

    let zero_r = RcPeano::zero();
    assert!(zero_r.dec().is_none());
    let three_r = zero_r.cons().cons().cons();
    assert_eq!(three_r.dec().map(|x| x.count()), Some(2));
}

#[test]
fn construction_is_pure() {
    // Two independent constructions from equal arguments are operationally
    // indistinguishable, shared allocations or not.
    let a = RcPeano::zero().cons().cons();
    let b = RcPeano::zero().cons().cons();
    assert_eq!(a.count(), b.count());
    assert_eq!(a.add(&b).count(), b.add(&a).count());
    assert_eq!(a.sub(&b).map(|d| d.count()), b.sub(&a).map(|d| d.count()));
}
