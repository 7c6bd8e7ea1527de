use standing::wave::{phase_femtocycles, TURN_FEMTO};

#[test]
fn phase_at_time_zero_is_zero() {
    assert_eq!(phase_femtocycles(0, 200_000), 0);
}

#[test]
fn phase_is_fractional_part_of_cycles() {
    // 1.5 s at 0.2 Hz is 0.3 of a cycle.
    let r = phase_femtocycles(1_500_000_000, 200_000);
    assert_eq!(r, 300_000_000_000_000);
    // 7.5 s at 0.2 Hz is 1.5 cycles: the whole turn drops out.
    let r = phase_femtocycles(7_500_000_000, 200_000);
    assert_eq!(r, 500_000_000_000_000);
}

#[test]
fn phase_wraps_negative_products_into_range() {
    // A negative frequency runs the wave backwards but the phase stays
    // in [0, one turn).
    let r = phase_femtocycles(1_500_000_000, -200_000);
    assert_eq!(r, 700_000_000_000_000);
    let r = phase_femtocycles(-1_500_000_000, 200_000);
    assert_eq!(r, 700_000_000_000_000);
}

#[test]
fn phase_always_in_range() {
    for &t in &[i64::MIN, -1, 0, 1, 123_456_789, i64::MAX] {
        for &f in &[i64::MIN, -7, 0, 3, 1_000_000, i64::MAX] {
            let r = phase_femtocycles(t, f);
            assert!(0 <= r && r < TURN_FEMTO);
        }
    }
}

#[test]
fn phase_is_periodic_in_one_period() {
    // 0.2 Hz has a period of 5 s: five seconds later, the same phase.
    let f = 200_000;
    let period_ns = 5_000_000_000;
    for &t in &[0i64, 1_230_000_000, 987_654_321] {
        assert_eq!(phase_femtocycles(t, f), phase_femtocycles(t + period_ns, f));
    }
}
