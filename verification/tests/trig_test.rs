use busycrab::trig::cos_mrad;
use busycrab::trig::sin_mrad;

#[test]
fn test_sine_anchor_points() {
    assert_eq!(sin_mrad(0), 0);
    assert_eq!(sin_mrad(1571), 9998);
    assert_eq!(sin_mrad(3142), 0);
    assert_eq!(sin_mrad(4713), -9998);
    assert_eq!(cos_mrad(0), 9998);
}

#[test]
fn test_sine_stays_in_unit_range() {
    for x in 0..6284 {
        let s = sin_mrad(x);
        assert!((-10000..=10000).contains(&s));
        let c = cos_mrad(x);
        assert!((-10000..=10000).contains(&c));
    }
}
