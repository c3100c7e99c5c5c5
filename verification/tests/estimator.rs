use lqe::LQE;
use lqe::Ratio;

#[test]
fn updates_from_measurements() {
    let lqe = LQE {
        measurement: Ratio::new(7, 1),
        variance: Ratio::new(2, 1),
    };

    let r = lqe.update(Ratio::new(10, 1), Ratio::new(2, 1));
    // (8.5, 5.0)
    assert!(r.0.equiv(&Ratio::new(17, 2)));
    assert!(r.1.equiv(&Ratio::new(5, 1)));
}

#[test]
fn predicts_next_value() {
    let lqe = LQE {
        measurement: Ratio::new(7, 1),
        variance: Ratio::new(2, 1),
    };

    let r = lqe.predict(Ratio::new(10, 1), Ratio::new(2, 1));
    // (17.0, 4.0)
    assert!(r.0.equiv(&Ratio::new(17, 1)));
    assert!(r.1.equiv(&Ratio::new(4, 1)));
}

#[test]
fn returns_result() {
    let lqe = LQE {
        measurement: Ratio::new(3, 1),
        variance: Ratio::new(2, 1),
    };

    assert_eq!(lqe.result(), (Ratio::new(3, 1), Ratio::new(2, 1)));
}

#[test]
fn runs_filter_correctly() {
    let lqe = LQE {
        measurement: Ratio::new(3, 1),
        variance: Ratio::new(2, 1),
    };

    let once = lqe.next(Ratio::new(5, 1), Ratio::new(3, 1)).result();
    // (6.125, 3.0)
    assert!(once.0.equiv(&Ratio::new(49, 8)));
    assert!(once.1.equiv(&Ratio::new(3, 1)));

    let twice = lqe
        .next(Ratio::new(5, 1), Ratio::new(3, 1))
        .next(Ratio::new(7, 1), Ratio::new(1, 1))
        .result();
    // (8.225, 2.625)
    assert!(twice.0.equiv(&Ratio::new(329, 40)));
    assert!(twice.1.equiv(&Ratio::new(21, 8)));
}

#[test]
fn next_leaves_input_unchanged() {
    let lqe = LQE {
        measurement: Ratio::new(3, 1),
        variance: Ratio::new(2, 1),
    };

    let _stepped = lqe.next(Ratio::new(5, 1), Ratio::new(3, 1));
    // the original belief is observed unchanged afterwards
    assert_eq!(lqe.result(), (Ratio::new(3, 1), Ratio::new(2, 1)));
}

#[test]
fn repeated_steps_are_bit_identical() {
    let lqe = LQE {
        measurement: Ratio::new(3, 1),
        variance: Ratio::new(2, 1),
    };

    let first = lqe.next(Ratio::new(5, 1), Ratio::new(3, 1)).result();
    let second = lqe.next(Ratio::new(5, 1), Ratio::new(3, 1)).result();
    assert_eq!(first, second);
}

#[test]
fn equiv_ignores_the_representative() {
    assert!(Ratio::new(1, 2).equiv(&Ratio::new(2, 4)));
    assert!(Ratio::new(1, -2).equiv(&Ratio::new(-1, 2)));
    assert!(Ratio::new(0, 5).equiv(&Ratio::new(0, -3)));
    assert!(!Ratio::new(1, 2).equiv(&Ratio::new(1, 3)));
}

#[test]
fn update_with_negative_variance_propagates() {
    // a negative variance is not rejected: the arithmetic carries it through
    let lqe = LQE {
        measurement: Ratio::new(1, 1),
        variance: Ratio::new(-3, 1),
    };

    let r = lqe.update(Ratio::new(2, 1), Ratio::new(1, 1));
    // mean (1*1 + 2*(-3)) / (-2) = 5/2, variance ((-3)*2) / (-2) = 3
    assert!(r.0.equiv(&Ratio::new(5, 2)));
    assert!(r.1.equiv(&Ratio::new(3, 1)));
}

#[test]
fn fused_variance_can_exceed_both_inputs() {
    // the fused variance is (prior variance * observed mean) / summed
    // variances, so it is not bounded by the smaller input variance
    let lqe = LQE {
        measurement: Ratio::new(7, 1),
        variance: Ratio::new(2, 1),
    };

    let r = lqe.update(Ratio::new(10, 1), Ratio::new(2, 1));
    let fused = r.1.num as f64 / r.1.den as f64;
    assert!(fused == 5.0);
    assert!(fused > 2.0);
}

#[test]
fn accepts_values_at_the_bound() {
    let lqe = LQE {
        measurement: Ratio::new(8192, 1),
        variance: Ratio::new(1, 1),
    };

    let stepped = lqe.next(Ratio::new(-8192, 1), Ratio::new(1, 1)).result();
    // prediction (0, 2), fused with (-8192, 1): mean (-8192*2 + 0*1)/3,
    // variance (1*0)/3
    assert!(stepped.0.equiv(&Ratio::new(-16384, 3)));
    assert!(stepped.1.equiv(&Ratio::new(0, 1)));
}
