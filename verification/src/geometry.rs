use vstd::prelude::*;

verus! {

/// An X window identifier.
pub type Window = u64;

/// The identifier of a monitor.
pub type MonitorId = u32;

/// Largest absolute value of a coordinate, a size or a configured length
/// for which the geometry computations of this crate are defined.  It keeps
/// every intermediate sum and product well inside `i32`.
pub const COORD_LIMIT: i32 = 1_000_000;

/// `v` lies within the range on which geometry is computed.
pub fn value_in_range(v: i32) -> (r: bool)
    ensures
        r == in_range(v as int),
{
    -COORD_LIMIT <= v && v <= COORD_LIMIT
}

pub open spec fn in_range(v: int) -> bool {
    -COORD_LIMIT <= v <= COORD_LIMIT
}

/// Integer division rounding toward zero, as Rust's `/` does on `i32`.
pub open spec fn div_trunc(a: int, b: int) -> int
    recommends
        b > 0,
{
    if a >= 0 {
        a / b
    } else {
        -((-a) / b)
    }
}

#[derive(Clone, Copy, Debug, PartialEq, Eq, Structural)]
pub struct Position {
    pub x: i32,
    pub y: i32,
}

#[derive(Clone, Copy, Debug, PartialEq, Eq, Structural)]
pub struct Size {
    pub width: i32,
    pub height: i32,
}

impl Position {
    pub fn new(x: i32, y: i32) -> (p: Position)
        ensures
            p == (Position { x, y }),
    {
        Position { x, y }
    }

    pub open spec fn in_range(self) -> bool {
        in_range(self.x as int) && in_range(self.y as int)
    }
}

impl Size {
    pub fn new(width: i32, height: i32) -> (s: Size)
        ensures
            s == (Size { width, height }),
    {
        Size { width, height }
    }

    pub open spec fn in_range(self) -> bool {
        in_range(self.width as int) && in_range(self.height as int)
    }
}

/// A rectangle given by its top left corner and its size.
#[derive(Clone, Copy, Debug, PartialEq, Eq, Structural)]
pub struct Rect {
    pub position: Position,
    pub size: Size,
}

impl Rect {
    pub open spec fn mk(position: Position, size: Size) -> Rect {
        Rect { position, size }
    }

    pub open spec fn pos(self) -> Position {
        self.position
    }

    pub open spec fn sz(self) -> Size {
        self.size
    }

    pub fn new(position: Position, size: Size) -> (r: Rect)
        ensures
            r.pos() == position,
            r.sz() == size,
    {
        Rect { position, size }
    }

    pub fn get_position(&self) -> (p: Position)
        ensures
            p == self.pos(),
    {
        self.position
    }

    pub fn get_size(&self) -> (s: Size)
        ensures
            s == self.sz(),
    {
        self.size
    }

    pub open spec fn in_range(self) -> bool {
        self.pos().in_range() && self.sz().in_range()
    }
}

/// The geometry of a window as the X server reports it.
#[derive(Clone, Copy, Debug, PartialEq, Eq, Structural)]
pub struct Geometry {
    pub x: i32,
    pub y: i32,
    pub width: i32,
    pub height: i32,
}

impl Rect {
    /// The rectangle of a geometry.
    pub fn from_geometry(item: Geometry) -> (r: Rect)
        ensures
            r == Rect::mk(Position { x: item.x, y: item.y }, Size { width: item.width, height: item.height }),
    {
        Rect { position: Position { x: item.x, y: item.y }, size: Size { width: item.width, height: item.height } }
    }
}

/// A colour as it is written in the configuration.
#[derive(Clone, Debug, PartialEq, Eq)]
pub enum Color {
    DefaultBorder,
    DefaultBackground,
    DefaultFocusedBackground,
    Custom(String),
}

impl Color {
    /// The same colour.
    pub fn copied(&self) -> (c: Color)
        ensures
            c == *self,
    {
        match self {
            Color::DefaultBorder => Color::DefaultBorder,
            Color::DefaultBackground => Color::DefaultBackground,
            Color::DefaultFocusedBackground => Color::DefaultFocusedBackground,
            Color::Custom(s) => Color::Custom(s.clone()),
        }
    }
}

/// The boolean that an X boolean stands for: every value but zero is true.
pub open spec fn spec_from_c_bool(b: i32) -> bool {
    b != 0
}

/// The X boolean that `to_c_bool` writes: both arms of its test are true,
/// so it is `1` for every input.
pub open spec fn spec_to_c_bool(b: bool) -> i32 {
    1
}

/// Reads an X boolean.
pub fn from_c_bool(b: i32) -> (r: bool)
    ensures
        r == spec_from_c_bool(b),
{
    if b > 0 || b < 0 {
        true
    } else {
        false
    }
}

/// Writes an X boolean; see `spec_to_c_bool`.
pub fn to_c_bool(b: bool) -> (r: i32)
    ensures
        r == spec_to_c_bool(b),
{
    if b || !b {
        1
    } else {
        0
    }
}

} // verus!

verus! {

pub open spec fn abs(v: int) -> int {
    if v < 0 {
        -v
    } else {
        v
    }
}

/// Rounding toward zero never makes a quotient larger than the dividend.
pub proof fn lemma_div_trunc_bound(c: int, n: int)
    requires
        n > 0,
    ensures
        abs(div_trunc(c, n)) <= abs(c),
        abs(div_trunc(c, n)) * n <= abs(c),
        c >= 0 ==> div_trunc(c, n) >= 0,
        c <= 0 ==> div_trunc(c, n) <= 0,
{
    let a = abs(c);
    let q = a / n;
    assert(0 <= q) by (nonlinear_arith)
        requires
            a >= 0,
            n > 0,
            q == a / n,
    ;
    assert(q * n <= a) by (nonlinear_arith)
        requires
            a >= 0,
            n > 0,
            q == a / n,
    ;
    assert(q <= a) by (nonlinear_arith)
        requires
            q * n <= a,
            q >= 0,
            n > 0,
    ;
    assert(abs(div_trunc(c, n)) == q);
}

/// A multiple `i * (c / n)` with `0 <= i < n` stays within `|c|`.
pub proof fn lemma_mul_div_trunc_bound(c: int, n: int, i: int)
    requires
        n > 0,
        0 <= i < n,
    ensures
        -abs(c) <= i * div_trunc(c, n) <= abs(c),
{
    lemma_div_trunc_bound(c, n);
    let q = div_trunc(c, n);
    let aq = abs(q);
    assert(i * aq <= aq * n) by (nonlinear_arith)
        requires
            0 <= i < n,
            aq >= 0,
    ;
    assert(-(i * aq) <= i * q <= i * aq) by (nonlinear_arith)
        requires
            aq == abs(q),
            i >= 0,
    ;
}

} // verus!
