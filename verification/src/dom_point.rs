use vstd::prelude::*;

verus! {

/// The bit pattern of `+0.0_f64`, used for every coordinate that is not given.
pub const ZERO_BITS: u64 = 0;

/// A coordinate given as an optional `f64` bit pattern, with a missing one read as `+0.0`.
pub open spec fn bits_or_zero(c: Option<u64>) -> u64 {
    match c {
        Some(bits) => bits,
        None => ZERO_BITS,
    }
}

/// The coordinates `[x, y, z, w]` that a point built from these optional inputs holds.
pub open spec fn coordinates_from(
    x: Option<u64>,
    y: Option<u64>,
    z: Option<u64>,
    w: Option<u64>,
) -> Seq<u64> {
    seq![bits_or_zero(x), bits_or_zero(y), bits_or_zero(z), bits_or_zero(w)]
}

/// The index of each coordinate in a point's view.
pub open spec fn axis_x() -> int { 0 }

pub open spec fn axis_y() -> int { 1 }

pub open spec fn axis_z() -> int { 2 }

pub open spec fn axis_w() -> int { 3 }

fn bits_or_zero_exec(c: Option<u64>) -> (r: u64)
    ensures
        r == bits_or_zero(c),
{
    match c {
        Some(bits) => bits,
        None => ZERO_BITS,
    }
}

/// The read-only part of a point: four coordinates, each held as the bit
/// pattern of an `f64` (so that the value round-trips exactly, NaN payloads
/// and signed zeros included).
pub struct DOMPointReadOnly {
    x: u64,
    y: u64,
    z: u64,
    w: u64,
}

impl View for DOMPointReadOnly {
    type V = Seq<u64>;

    /// The coordinates in the order `[x, y, z, w]`.
    closed spec fn view(&self) -> Seq<u64> {
        seq![self.x, self.y, self.z, self.w]
    }
}

impl DOMPointReadOnly {
    /// Builds a point from the coordinates read off another point-like
    /// object; a coordinate the object lacks becomes `+0.0`.
    pub fn from_point_inner(
        x: Option<u64>,
        y: Option<u64>,
        z: Option<u64>,
        w: Option<u64>,
    ) -> (p: DOMPointReadOnly)
        ensures
            p@ == coordinates_from(x, y, z, w),
    {
        DOMPointReadOnly {
            x: bits_or_zero_exec(x),
            y: bits_or_zero_exec(y),
            z: bits_or_zero_exec(z),
            w: bits_or_zero_exec(w),
        }
    }

    /// The bit pattern of the `x` coordinate.
    pub fn x(&self) -> (r: u64)
        ensures
            r == self@[axis_x()],
    {
        self.x
    }

    /// The bit pattern of the `y` coordinate.
    pub fn y(&self) -> (r: u64)
        ensures
            r == self@[axis_y()],
    {
        self.y
    }

    /// The bit pattern of the `z` coordinate.
    pub fn z(&self) -> (r: u64)
        ensures
            r == self@[axis_z()],
    {
        self.z
    }

    /// The bit pattern of the `w` coordinate.
    pub fn w(&self) -> (r: u64)
        ensures
            r == self@[axis_w()],
    {
        self.w
    }

    /// The class name under which the garbage collector knows this object.
    pub fn get_name(&self) -> (r: &'static str)
        ensures
            r@ == "DOMPointReadOnly"@,
    {
        "DOMPointReadOnly"
    }
}

/// The writable face of a point. It holds nothing itself: its accessors
/// read and write the coordinates of the read-only part it inherits from.
pub struct DOMPoint {}

impl DOMPoint {
    /// Constructs a point; each coordinate not given becomes `+0.0`.
    pub fn new(
        x: Option<u64>,
        y: Option<u64>,
        z: Option<u64>,
        w: Option<u64>,
    ) -> (r: (DOMPointReadOnly, DOMPoint))
        ensures
            r.0@ == coordinates_from(x, y, z, w),
    {
        let ro = DOMPointReadOnly {
            x: bits_or_zero_exec(x),
            y: bits_or_zero_exec(y),
            z: bits_or_zero_exec(z),
            w: bits_or_zero_exec(w),
        };
        (ro, DOMPoint {})
    }

    /// Builds a new point from the coordinates of another point-like object.
    pub fn from_point(
        x: Option<u64>,
        y: Option<u64>,
        z: Option<u64>,
        w: Option<u64>,
    ) -> (p: DOMPointReadOnly)
        ensures
            p@ == coordinates_from(x, y, z, w),
    {
        DOMPointReadOnly::from_point_inner(x, y, z, w)
    }

    /// Stores the bit pattern of a new `x` coordinate; the others stay.
    pub fn set_x(&self, x: u64, ro: &mut DOMPointReadOnly)
        ensures
            final(ro)@ == old(ro)@.update(axis_x(), x),
    {
        ro.x = x;
    }

    /// The bit pattern of the `x` coordinate.
    pub fn x(&self, ro: &DOMPointReadOnly) -> (r: u64)
        ensures
            r == ro@[axis_x()],
    {
        ro.x
    }

    /// Stores the bit pattern of a new `y` coordinate; the others stay.
    pub fn set_y(&self, y: u64, ro: &mut DOMPointReadOnly)
        ensures
            final(ro)@ == old(ro)@.update(axis_y(), y),
    {
        ro.y = y;
    }

    /// The bit pattern of the `y` coordinate.
    pub fn y(&self, ro: &DOMPointReadOnly) -> (r: u64)
        ensures
            r == ro@[axis_y()],
    {
        ro.y
    }

    /// Stores the bit pattern of a new `z` coordinate; the others stay.
    pub fn set_z(&self, z: u64, ro: &mut DOMPointReadOnly)
        ensures
            final(ro)@ == old(ro)@.update(axis_z(), z),
    {
        ro.z = z;
    }

    /// The bit pattern of the `z` coordinate.
    pub fn z(&self, ro: &DOMPointReadOnly) -> (r: u64)
        ensures
            r == ro@[axis_z()],
    {
        ro.z
    }

    /// Stores the bit pattern of a new `w` coordinate; the others stay.
    pub fn set_w(&self, w: u64, ro: &mut DOMPointReadOnly)
        ensures
            final(ro)@ == old(ro)@.update(axis_w(), w),
    {
        ro.w = w;
    }

    /// The bit pattern of the `w` coordinate.
    pub fn w(&self, ro: &DOMPointReadOnly) -> (r: u64)
        ensures
            r == ro@[axis_w()],
    {
        ro.w
    }

    /// Hands a small integer back unchanged.
    pub fn wrapping_smi(&self, t: u32) -> (r: u32)
        ensures
            r == t,
    {
        t
    }

    /// A method bound under a symbol key; it does nothing.
    pub fn with_symbol(&self) {
    }

    /// A method bound so as to capture a stack trace; it does nothing itself.
    pub fn with_stack_trace(&self) {
    }

    /// The class name under which the garbage collector knows this object.
    pub fn get_name(&self) -> (r: &'static str)
        ensures
            r@ == "DOMPoint"@,
    {
        "DOMPoint"
    }
}

/// A write to one coordinate is read back exactly by that coordinate's
/// getter, and leaves the other three coordinates as they were.
pub proof fn law_write_then_read(p: DOMPointReadOnly, axis: int, bits: u64)
    requires
        axis_x() <= axis <= axis_w(),
    ensures
        p@.update(axis, bits)[axis] == bits,
        forall|other: int|
            axis_x() <= other <= axis_w() && other != axis ==> #[trigger] p@.update(axis, bits)[other]
                == p@[other],
        p@.update(axis, bits).len() == p@.len(),
{
}

/// Every point holds exactly four coordinates, `x`, `y`, `z` and `w`.
pub proof fn law_four_coordinates(p: DOMPointReadOnly)
    ensures
        p@.len() == 4,
{
}

/// A point built from optional coordinates holds each given bit pattern
/// unchanged and `+0.0` for each one that is missing.
pub proof fn law_missing_coordinate_is_zero(
    x: Option<u64>,
    y: Option<u64>,
    z: Option<u64>,
    w: Option<u64>,
)
    ensures
        coordinates_from(x, y, z, w).len() == 4,
        coordinates_from(x, y, z, w)[axis_x()] == (if let Some(b) = x { b } else { 0 }),
        coordinates_from(x, y, z, w)[axis_y()] == (if let Some(b) = y { b } else { 0 }),
        coordinates_from(x, y, z, w)[axis_z()] == (if let Some(b) = z { b } else { 0 }),
        coordinates_from(x, y, z, w)[axis_w()] == (if let Some(b) = w { b } else { 0 }),
{
}

} // verus!
