//! Integer points and rectangles in world or screen units.
//!
//! Positions are kept inside `[MIN_COORD, MAX_COORD]` and sizes inside
//! `[1, MAX_COORD]` by the constructors and setters, so that the right and
//! bottom edge of a rectangle built through them always fit in an `i32`.
//! The fields stay public: code that writes them directly takes over the
//! duty of keeping them in range where it matters.

use vstd::prelude::*;

verus! {

/// Largest coordinate and largest size that the constructors produce.
pub const MAX_COORD: i32 = 1073741823;

/// Smallest coordinate that the constructors produce.
pub const MIN_COORD: i32 = -1073741824;

/// A position forced into `[MIN_COORD, MAX_COORD]`.
pub open spec fn spec_clamp_position(val: int) -> int {
    if val > MAX_COORD {
        MAX_COORD as int
    } else if val < MIN_COORD {
        MIN_COORD as int
    } else {
        val
    }
}

/// A size forced into `[1, MAX_COORD]`; zero becomes one.
pub open spec fn spec_clamp_size(val: int) -> int {
    if val <= 0 {
        1
    } else if val > MAX_COORD {
        MAX_COORD as int
    } else {
        val
    }
}

pub fn clamp_position(val: i32) -> (r: i32)
    ensures
        r == spec_clamp_position(val as int),
        MIN_COORD <= r <= MAX_COORD,
{
    if val > MAX_COORD {
        MAX_COORD
    } else if val < MIN_COORD {
        MIN_COORD
    } else {
        val
    }
}

pub fn clamp_size(val: u32) -> (r: i32)
    ensures
        r == spec_clamp_size(val as int),
        1 <= r <= MAX_COORD,
{
    if val == 0 {
        1
    } else if val > 1073741823u32 {
        MAX_COORD
    } else {
        val as i32
    }
}

/// `clamp_position` for a value that was computed without overflow in 64
/// bits.
pub fn clamp_position_wide(val: i64) -> (r: i32)
    ensures
        r == spec_clamp_position(val as int),
        MIN_COORD <= r <= MAX_COORD,
{
    if val > 1073741823i64 {
        MAX_COORD
    } else if val < -1073741824i64 {
        MIN_COORD
    } else {
        val as i32
    }
}

/// Half of `val`, rounded down, as a shift to the right by one gives it.
pub fn half(val: i32) -> (r: i32)
    ensures
        r == val as int / 2,
{
    assert(val >> 1 == val / 2) by (bit_vector);
    val >> 1
}

/// Rust's `/` on `i32`, which rounds towards zero, for a positive divisor.
pub open spec fn spec_div_trunc(a: int, d: int) -> int
    recommends
        d > 0,
{
    if a >= 0 {
        a / d
    } else {
        -((-a) / d)
    }
}

/// A point in world or screen units.
#[derive(Clone, Copy, Debug, PartialEq, Eq, Structural)]
pub struct Point {
    pub x: i32,
    pub y: i32,
}

impl Point {
    pub open spec fn spec_new(x: int, y: int) -> Point {
        Point { x: spec_clamp_position(x) as i32, y: spec_clamp_position(y) as i32 }
    }

    /// A point with both coordinates clamped into the coordinate range.
    pub fn new(x: i32, y: i32) -> (p: Point)
        ensures
            p == Point::spec_new(x as int, y as int),
    {
        Point { x: clamp_position(x), y: clamp_position(y) }
    }
}

/// A rectangle by its upper left corner and its size.
#[derive(Clone, Copy, Debug, PartialEq, Eq, Structural)]
pub struct Rect {
    pub x: i32,
    pub y: i32,
    pub w: i32,
    pub h: i32,
}

impl Rect {
    /// Position and size are inside the ranges that the constructors keep.
    pub open spec fn in_range(&self) -> bool {
        &&& MIN_COORD <= self.x <= MAX_COORD
        &&& MIN_COORD <= self.y <= MAX_COORD
        &&& 1 <= self.w <= MAX_COORD
        &&& 1 <= self.h <= MAX_COORD
    }

    pub open spec fn spec_new(x: int, y: int, width: int, height: int) -> Rect {
        Rect {
            x: spec_clamp_position(x) as i32,
            y: spec_clamp_position(y) as i32,
            w: spec_clamp_size(width) as i32,
            h: spec_clamp_size(height) as i32,
        }
    }

    /// A rectangle with its upper left corner at `(x, y)`, position and size
    /// clamped; a width or height of zero becomes one.
    pub fn new(x: i32, y: i32, width: u32, height: u32) -> (r: Rect)
        ensures
            r == Rect::spec_new(x as int, y as int, width as int, height as int),
            r.in_range(),
    {
        Rect {
            x: clamp_position(x),
            y: clamp_position(y),
            w: clamp_size(width),
            h: clamp_size(height),
        }
    }

    pub fn x(&self) -> (r: i32)
        ensures
            r == self.x,
    {
        self.x
    }

    pub fn y(&self) -> (r: i32)
        ensures
            r == self.y,
    {
        self.y
    }

    /// The width as an unsigned number; a negative `w` wraps as the cast does.
    pub fn width(&self) -> (r: u32)
        ensures
            r == self.w as u32,
            self.w >= 0 ==> r == self.w,
    {
        self.w as u32
    }

    /// The height as an unsigned number; a negative `h` wraps as the cast does.
    pub fn height(&self) -> (r: u32)
        ensures
            r == self.h as u32,
            self.h >= 0 ==> r == self.h,
    {
        self.h as u32
    }

    pub fn set_x(&mut self, x: i32)
        ensures
            *final(self) == (Rect { x: spec_clamp_position(x as int) as i32, ..*old(self) }),
    {
        self.x = clamp_position(x);
    }

    pub fn set_y(&mut self, y: i32)
        ensures
            *final(self) == (Rect { y: spec_clamp_position(y as int) as i32, ..*old(self) }),
    {
        self.y = clamp_position(y);
    }

    pub fn set_width(&mut self, width: u32)
        ensures
            *final(self) == (Rect { w: spec_clamp_size(width as int) as i32, ..*old(self) }),
    {
        self.w = clamp_size(width);
    }

    pub fn set_height(&mut self, height: u32)
        ensures
            *final(self) == (Rect { h: spec_clamp_size(height as int) as i32, ..*old(self) }),
    {
        self.h = clamp_size(height);
    }

    /// The x coordinate just past the right edge.
    pub open spec fn spec_right(&self) -> int {
        self.x + self.w
    }

    /// The y coordinate just past the bottom edge.
    pub open spec fn spec_bottom(&self) -> int {
        self.y + self.h
    }

    /// The point lies inside: left and top edge count, right and bottom do not.
    pub open spec fn spec_contains_point(&self, p: Point) -> bool {
        &&& self.x <= p.x < self.spec_right()
        &&& self.y <= p.y < self.spec_bottom()
    }

    /// Every point of `other` lies inside `self`.
    pub open spec fn spec_contains_rect(&self, other: Rect) -> bool {
        &&& other.x >= self.x
        &&& other.spec_right() <= self.spec_right()
        &&& other.y >= self.y
        &&& other.spec_bottom() <= self.spec_bottom()
    }

    pub fn contains_point(&self, p: Point) -> (inside: bool)
        ensures
            inside == self.spec_contains_point(p),
    {
        let right: i64 = self.x as i64 + self.w as i64;
        let bottom: i64 = self.y as i64 + self.h as i64;
        let inside_x: bool = p.x >= self.x && (p.x as i64) < right;
        inside_x && (p.y >= self.y && (p.y as i64) < bottom)
    }

    pub fn contains_rect(&self, other: Rect) -> (inside: bool)
        ensures
            inside == self.spec_contains_rect(other),
    {
        other.x >= self.x && other.x as i64 + other.w as i64 <= self.x as i64 + self.w as i64
            && other.y >= self.y && other.y as i64 + other.h as i64 <= self.y as i64
            + self.h as i64
    }
}

} // verus!
