use checkin_ops::{DOMPoint, DOMPointReadOnly};

#[test]
fn new_keeps_given_coordinates() {
    let (ro, _p) = DOMPoint::new(Some(1.5f64.to_bits()), Some(2.0f64.to_bits()), Some((-3.25f64).to_bits()), Some(4.0f64.to_bits()));
    assert_eq!(f64::from_bits(ro.x()), 1.5);
    assert_eq!(f64::from_bits(ro.y()), 2.0);
    assert_eq!(f64::from_bits(ro.z()), -3.25);
    assert_eq!(f64::from_bits(ro.w()), 4.0);
}

#[test]
fn new_defaults_missing_coordinates_to_zero() {
    let (ro, p) = DOMPoint::new(None, Some(7), None, None);
    assert_eq!(ro.x(), 0);
    assert_eq!(ro.y(), 7);
    assert_eq!(ro.z(), 0);
    assert_eq!(ro.w(), 0);
    assert_eq!(f64::from_bits(p.x(&ro)), 0.0);
    assert!(f64::from_bits(p.w(&ro)).is_sign_positive());
}

#[test]
fn from_point_matches_new() {
    let a = DOMPoint::from_point(Some(10), None, Some(30), Some(40));
    let (b, _) = DOMPoint::new(Some(10), None, Some(30), Some(40));
    assert_eq!((a.x(), a.y(), a.z(), a.w()), (b.x(), b.y(), b.z(), b.w()));
    assert_eq!((a.x(), a.y(), a.z(), a.w()), (10, 0, 30, 40));
    let c = DOMPointReadOnly::from_point_inner(None, None, None, Some(1));
    assert_eq!((c.x(), c.y(), c.z(), c.w()), (0, 0, 0, 1));
}

#[test]
fn write_then_read_each_coordinate() {
    let (mut ro, p) = DOMPoint::new(Some(1), Some(2), Some(3), Some(4));
    p.set_x(11, &mut ro);
    assert_eq!((p.x(&ro), p.y(&ro), p.z(&ro), p.w(&ro)), (11, 2, 3, 4));
    p.set_y(12, &mut ro);
    assert_eq!((ro.x(), ro.y(), ro.z(), ro.w()), (11, 12, 3, 4));
    p.set_z(13, &mut ro);
    assert_eq!((ro.x(), ro.y(), ro.z(), ro.w()), (11, 12, 13, 4));
    p.set_w(14, &mut ro);
    assert_eq!((ro.x(), ro.y(), ro.z(), ro.w()), (11, 12, 13, 14));
}

#[test]
fn bit_patterns_round_trip_exactly() {
    let nan = f64::from_bits(0x7ff8_0000_0000_1234);
    let (mut ro, p) = DOMPoint::new(Some(nan.to_bits()), Some((-0.0f64).to_bits()), None, None);
    assert_eq!(ro.x(), 0x7ff8_0000_0000_1234);
    assert!(f64::from_bits(ro.y()).is_sign_negative());
    p.set_z(f64::INFINITY.to_bits(), &mut ro);
    assert_eq!(f64::from_bits(p.z(&ro)), f64::INFINITY);
}

#[test]
fn wrapping_smi_is_identity() {
    let (_, p) = DOMPoint::new(None, None, None, None);
    assert_eq!(p.wrapping_smi(0), 0);
    assert_eq!(p.wrapping_smi(42), 42);
    assert_eq!(p.wrapping_smi(u32::MAX), u32::MAX);
    p.with_symbol();
    p.with_stack_trace();
}

#[test]
fn point_class_names() {
    let (ro, p) = DOMPoint::new(None, None, None, None);
    assert_eq!(ro.get_name(), "DOMPointReadOnly");
    assert_eq!(p.get_name(), "DOMPoint");
}
