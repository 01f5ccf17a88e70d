use checkin_ops::{Foo, TestEnumWrap, TestObjectWrap};

#[test]
fn varargs_counts_arguments() {
    let w = TestObjectWrap::new(false);
    assert_eq!(w.with_varargs(None), 0);
    assert_eq!(w.with_varargs(Some(0)), 0);
    assert_eq!(w.with_varargs(Some(3)), 3);
    assert_eq!(w.with_varargs(Some(i32::MAX)), i32::MAX as u32);
}

#[test]
fn varargs_negative_length_wraps() {
    let w = TestObjectWrap::new(true);
    assert_eq!(w.with_varargs(Some(-1)), u32::MAX);
}

#[test]
fn slow_getter_yields_getter() {
    let w = TestObjectWrap::new(true);
    assert_eq!(w.with_slow_getter(), "getter");
    w.with_rename();
}

#[test]
fn enum_wrap_as_int() {
    assert_eq!(TestEnumWrap::A.as_int(), 0);
    let copy = TestEnumWrap::A;
    assert_eq!(copy.as_int(), TestEnumWrap::A as u8);
}

#[test]
fn wrap_class_names() {
    assert_eq!(TestObjectWrap::new(false).get_name(), "TestObjectWrap");
    assert_eq!(TestEnumWrap::A.get_name(), "TestEnumWrap");
    assert_eq!(Foo.get_name(), "Foo");
}
