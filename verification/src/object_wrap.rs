use vstd::prelude::*;

verus! {

/// How many arguments a variadic call reports: the count the call handed
/// over, read as unsigned, or zero when no argument list came with it.
pub open spec fn varargs_count(arg_count: Option<i32>) -> u32 {
    match arg_count {
        Some(n) => n as u32,
        None => 0,
    }
}

/// A variadic call with an argument list of length `n` reports exactly `n`
/// (read as unsigned, so a non-negative length is reported unchanged), and
/// only a call without an argument list reports zero arguments.
pub proof fn law_varargs_counts_arguments(n: i32)
    ensures
        varargs_count(Some(n)) == n as u32,
        0 <= n ==> varargs_count(Some(n)) as int == n as int,
        varargs_count(None) == 0,
        varargs_count(Some(n)) == 0 <==> n == 0,
{
    assert(n == 0 <==> (n as u32) == 0) by (bit_vector);
}

/// An object wrap that exercises the shapes a wrapped method can take.
pub struct TestObjectWrap {}

impl TestObjectWrap {
    /// The constructor; its flag argument is accepted and ignored.
    pub fn new(_flag: bool) -> TestObjectWrap {
        TestObjectWrap {}
    }

    /// Reports the number of arguments of a variadic call: the length of the
    /// argument list when there is one (cast to `u32` as the original does,
    /// wrapping a negative length), and zero when there is none.
    pub fn with_varargs(&self, arg_count: Option<i32>) -> (r: u32)
        ensures
            r == varargs_count(arg_count),
            arg_count matches Some(n) ==> r == n as u32,
            arg_count matches Some(n) ==> (0 <= n ==> r == n),
            arg_count is None ==> r == 0,
    {
        match arg_count {
            Some(n) => n as u32,
            None => 0,
        }
    }

    /// A method exposed under another name; it does nothing.
    pub fn with_rename(&self) {
    }

    /// A getter that always yields the string `"getter"`.
    pub fn with_slow_getter(&self) -> (r: String)
        ensures
            r@ == "getter"@,
    {
        String::from_str("getter")
    }

    /// The class name under which the garbage collector knows this object.
    pub fn get_name(&self) -> (r: &'static str)
        ensures
            r@ == "TestObjectWrap"@,
    {
        "TestObjectWrap"
    }
}

/// An enum handed to script as a wrapped object.
#[derive(Clone, Copy)]
pub enum TestEnumWrap {
    A,
}

impl TestEnumWrap {
    /// The discriminant of the variant, as a byte.
    pub fn as_int(&self) -> (r: u8)
        ensures
            r == 0,
    {
        match self {
            TestEnumWrap::A => 0,
        }
    }

    /// The class name under which the garbage collector knows this object.
    pub fn get_name(&self) -> (r: &'static str)
        ensures
            r@ == "TestEnumWrap"@,
    {
        "TestEnumWrap"
    }
}

/// A garbage-collected object with no state, passed to ops by reference.
pub struct Foo;

impl Foo {
    /// The class name under which the garbage collector knows this object.
    pub fn get_name(&self) -> (r: &'static str)
        ensures
            r@ == "Foo"@,
    {
        "Foo"
    }
}

} // verus!
