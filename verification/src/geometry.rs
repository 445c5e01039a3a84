//! Geometric types for screen regions and coordinates.
use vstd::prelude::*;

verus! {

/// `v` fits in an `i32`.
pub open spec fn fits_i32(v: int) -> bool {
    i32::MIN <= v <= i32::MAX
}

/// The value of `w as i32`: the two's-complement reading of the same 32 bits.
pub open spec fn wrap_i32(w: u32) -> int {
    if w <= i32::MAX {
        w as int
    } else {
        w as int - 0x1_0000_0000
    }
}

/// The value of `d as u32` for an `i32` difference `d`.
pub open spec fn wrap_u32(d: int) -> int {
    if d >= 0 {
        d
    } else {
        d + 0x1_0000_0000
    }
}

pub open spec fn spec_min(a: int, b: int) -> int {
    if a <= b {
        a
    } else {
        b
    }
}

pub open spec fn spec_max(a: int, b: int) -> int {
    if a >= b {
        a
    } else {
        b
    }
}

pub proof fn lemma_cast_u32_to_i32(w: u32)
    ensures
        (w as i32) as int == wrap_i32(w),
{
    assert(w <= 0x7fff_ffff ==> (w as i32) as int == w as int) by (bit_vector);
    assert(w > 0x7fff_ffff ==> (w as i32) as int == w as int - 0x1_0000_0000) by (bit_vector);
}

pub proof fn lemma_cast_i32_to_u32(d: i32)
    ensures
        (d as u32) as int == wrap_u32(d as int),
{
    assert(d >= 0 ==> (d as u32) as int == d as int) by (bit_vector);
    assert(d < 0 ==> (d as u32) as int == d as int + 0x1_0000_0000) by (bit_vector);
}

/// The magnitude of an `i32`, as `u32` (what `i32::unsigned_abs` gives).
fn abs_diff_u32(d: i32) -> (m: u32)
    ensures
        m == spec_max(d as int, -d),
{
    if d >= 0 {
        d as u32
    } else {
        (-(d as i64)) as u32
    }
}

/// A point on the screen with x and y coordinates.
#[derive(Debug, Clone, Copy, PartialEq, Eq, Hash, Structural)]
pub struct Point {
    pub x: i32,
    pub y: i32,
}

impl Point {
    /// Create a new point.
    pub fn new(x: i32, y: i32) -> (p: Self)
        ensures
            p.x == x,
            p.y == y,
    {
        Self { x, y }
    }
}

/// A rectangular region on the screen.
#[derive(Debug, Clone, Copy, PartialEq, Eq, Hash, Structural)]
pub struct Rectangle {
    pub x: i32,
    pub y: i32,
    pub width: u32,
    pub height: u32,
}

impl Rectangle {
    /// `x + width as i32`, the first column right of the rectangle.
    pub open spec fn right(self) -> int {
        self.x + wrap_i32(self.width)
    }

    /// `y + height as i32`, the first row below the rectangle.
    pub open spec fn bottom(self) -> int {
        self.y + wrap_i32(self.height)
    }

    /// A rectangle whose sizes are non-negative as `i32` and whose far edges
    /// are representable: the rectangles the operations below are meant for.
    pub open spec fn well_formed(self) -> bool {
        &&& self.width <= i32::MAX
        &&& self.height <= i32::MAX
        &&& fits_i32(self.right())
        &&& fits_i32(self.bottom())
    }

    /// The point lies in the half-open region `[x, right) x [y, bottom)`.
    pub open spec fn spec_contains(self, p: Point) -> bool {
        p.x >= self.x && p.x < self.right() && p.y >= self.y && p.y < self.bottom()
    }

    /// The condition `contains_point` evaluates without an `i32` overflow.
    pub open spec fn contains_defined(self, p: Point) -> bool {
        &&& p.x >= self.x ==> fits_i32(self.right())
        &&& (p.x >= self.x && p.x < self.right() && p.y >= self.y) ==> fits_i32(self.bottom())
    }

    pub open spec fn spec_intersects(self, other: Rectangle) -> bool {
        &&& self.x < other.right()
        &&& self.right() > other.x
        &&& self.y < other.bottom()
        &&& self.bottom() > other.y
    }

    /// The condition `intersects` evaluates without an `i32` overflow.
    pub open spec fn intersects_defined(self, other: Rectangle) -> bool {
        &&& fits_i32(other.right())
        &&& self.x < other.right() ==> fits_i32(self.right())
        &&& (self.x < other.right() && self.right() > other.x) ==> fits_i32(other.bottom())
        &&& (self.x < other.right() && self.right() > other.x && self.y < other.bottom())
            ==> fits_i32(self.bottom())
    }

    /// Left, top, right and bottom edges of the overlap of two rectangles.
    pub open spec fn overlap_left(self, other: Rectangle) -> int {
        spec_max(self.x as int, other.x as int)
    }

    pub open spec fn overlap_top(self, other: Rectangle) -> int {
        spec_max(self.y as int, other.y as int)
    }

    pub open spec fn overlap_right(self, other: Rectangle) -> int {
        spec_min(self.right(), other.right())
    }

    pub open spec fn overlap_bottom(self, other: Rectangle) -> int {
        spec_min(self.bottom(), other.bottom())
    }

    /// The condition `intersection` evaluates without an `i32` overflow.
    pub open spec fn intersection_defined(self, other: Rectangle) -> bool {
        &&& self.intersects_defined(other)
        &&& self.spec_intersects(other) ==> {
            &&& fits_i32(self.overlap_right(other) - self.overlap_left(other))
            &&& fits_i32(self.overlap_bottom(other) - self.overlap_top(other))
        }
    }

    /// The overlap of two intersecting rectangles, as `intersection` builds it.
    pub open spec fn spec_intersection(self, other: Rectangle) -> Option<Rectangle> {
        if self.spec_intersects(other) {
            Some(
                Rectangle {
                    x: self.overlap_left(other) as i32,
                    y: self.overlap_top(other) as i32,
                    width: wrap_u32(self.overlap_right(other) - self.overlap_left(other)) as u32,
                    height: wrap_u32(self.overlap_bottom(other) - self.overlap_top(other)) as u32,
                },
            )
        } else {
            None
        }
    }

    /// Create a new rectangle.
    pub fn new(x: i32, y: i32, width: u32, height: u32) -> (r: Self)
        ensures
            r.x == x,
            r.y == y,
            r.width == width,
            r.height == height,
    {
        Self { x, y, width, height }
    }

    /// The rectangle spanned by two opposite corners.
    pub open spec fn spec_from_points(p1: Point, p2: Point) -> Rectangle {
        Rectangle {
            x: spec_min(p1.x as int, p2.x as int) as i32,
            y: spec_min(p1.y as int, p2.y as int) as i32,
            width: spec_max(p1.x - p2.x, p2.x - p1.x) as u32,
            height: spec_max(p1.y - p2.y, p2.y - p1.y) as u32,
        }
    }

    /// Create a rectangle from two points (top-left and bottom-right).
    pub fn from_points(p1: Point, p2: Point) -> (r: Self)
        requires
            fits_i32(p1.x - p2.x),
            fits_i32(p1.y - p2.y),
        ensures
            r == Self::spec_from_points(p1, p2),
    {
        let x = if p1.x <= p2.x {
            p1.x
        } else {
            p2.x
        };
        let y = if p1.y <= p2.y {
            p1.y
        } else {
            p2.y
        };
        let width = abs_diff_u32(p1.x - p2.x);
        let height = abs_diff_u32(p1.y - p2.y);
        Self::new(x, y, width, height)
    }

    /// Calculate the area of the rectangle.
    pub fn area(&self) -> (a: u64)
        ensures
            a == self.width * self.height,
    {
        assert(self.width * self.height <= u32::MAX * u32::MAX) by (nonlinear_arith);
        self.width as u64 * self.height as u64
    }

    /// Get the center point of the rectangle.
    pub fn center(&self) -> (c: Point)
        requires
            fits_i32(self.x + self.width / 2),
            fits_i32(self.y + self.height / 2),
        ensures
            c.x == self.x + self.width / 2,
            c.y == self.y + self.height / 2,
    {
        Point::new(self.x + (self.width / 2) as i32, self.y + (self.height / 2) as i32)
    }

    /// Check if a point is inside the rectangle.
    pub fn contains_point(&self, point: &Point) -> (b: bool)
        requires
            self.contains_defined(*point),
        ensures
            b == self.spec_contains(*point),
    {
        proof {
            lemma_cast_u32_to_i32(self.width);
            lemma_cast_u32_to_i32(self.height);
        }
        point.x >= self.x && point.x < self.x + self.width as i32 && point.y >= self.y && point.y
            < self.y + self.height as i32
    }

    /// Check if this rectangle intersects with another.
    pub fn intersects(&self, other: &Rectangle) -> (b: bool)
        requires
            self.intersects_defined(*other),
        ensures
            b == self.spec_intersects(*other),
    {
        proof {
            lemma_cast_u32_to_i32(self.width);
            lemma_cast_u32_to_i32(self.height);
            lemma_cast_u32_to_i32(other.width);
            lemma_cast_u32_to_i32(other.height);
        }
        self.x < other.x + other.width as i32 && self.x + self.width as i32 > other.x && self.y
            < other.y + other.height as i32 && self.y + self.height as i32 > other.y
    }

    /// Get the intersection of two rectangles, if any.
    pub fn intersection(&self, other: &Rectangle) -> (r: Option<Rectangle>)
        requires
            self.intersection_defined(*other),
        ensures
            r == self.spec_intersection(*other),
    {
        if !self.intersects(other) {
            return None;
        }
        proof {
            lemma_cast_u32_to_i32(self.width);
            lemma_cast_u32_to_i32(self.height);
            lemma_cast_u32_to_i32(other.width);
            lemma_cast_u32_to_i32(other.height);
        }
        let x1 = if self.x >= other.x {
            self.x
        } else {
            other.x
        };
        let y1 = if self.y >= other.y {
            self.y
        } else {
            other.y
        };
        let sr = self.x + self.width as i32;
        let or = other.x + other.width as i32;
        let sb = self.y + self.height as i32;
        let ob = other.y + other.height as i32;
        let x2 = if sr <= or {
            sr
        } else {
            or
        };
        let y2 = if sb <= ob {
            sb
        } else {
            ob
        };
        let dx = x2 - x1;
        let dy = y2 - y1;
        proof {
            lemma_cast_i32_to_u32(dx);
            lemma_cast_i32_to_u32(dy);
        }
        Some(Rectangle::new(x1, y1, dx as u32, dy as u32))
    }

    /// Get the top-left point.
    pub fn top_left(&self) -> (p: Point)
        ensures
            p.x == self.x,
            p.y == self.y,
    {
        Point::new(self.x, self.y)
    }

    /// Get the top-right point.
    pub fn top_right(&self) -> (p: Point)
        requires
            fits_i32(self.right()),
        ensures
            p.x == self.right(),
            p.y == self.y,
    {
        proof {
            lemma_cast_u32_to_i32(self.width);
        }
        Point::new(self.x + self.width as i32, self.y)
    }

    /// Get the bottom-left point.
    pub fn bottom_left(&self) -> (p: Point)
        requires
            fits_i32(self.bottom()),
        ensures
            p.x == self.x,
            p.y == self.bottom(),
    {
        proof {
            lemma_cast_u32_to_i32(self.height);
        }
        Point::new(self.x, self.y + self.height as i32)
    }

    /// Get the bottom-right point.
    pub fn bottom_right(&self) -> (p: Point)
        requires
            fits_i32(self.right()),
            fits_i32(self.bottom()),
        ensures
            p.x == self.right(),
            p.y == self.bottom(),
    {
        proof {
            lemma_cast_u32_to_i32(self.width);
            lemma_cast_u32_to_i32(self.height);
        }
        Point::new(self.x + self.width as i32, self.y + self.height as i32)
    }
}

/// Whether two rectangles intersect does not depend on their order.
pub proof fn intersects_symmetric(a: Rectangle, b: Rectangle)
    ensures
        a.spec_intersects(b) == b.spec_intersects(a),
{
}

/// The intersection of two rectangles does not depend on their order.
pub proof fn intersection_commutes(a: Rectangle, b: Rectangle)
    ensures
        a.spec_intersection(b) == b.spec_intersection(a),
{
}

/// For well-formed rectangles, the intersection holds exactly the points
/// that lie in both; when there is none, no point lies in both. The
/// intersection is itself well-formed.
pub proof fn intersection_is_common_part(a: Rectangle, b: Rectangle, p: Point)
    requires
        a.well_formed(),
        b.well_formed(),
    ensures
        match a.spec_intersection(b) {
            Some(c) => c.well_formed() && (c.spec_contains(p) <==> (a.spec_contains(p)
                && b.spec_contains(p))),
            None => !(a.spec_contains(p) && b.spec_contains(p)),
        },
{
    if a.spec_intersects(b) {
        let dx = a.overlap_right(b) - a.overlap_left(b);
        let dy = a.overlap_bottom(b) - a.overlap_top(b);
        assert(dx >= 0);
        assert(dy >= 0);
    }
}

/// The center of a well-formed, non-empty rectangle lies inside it.
pub proof fn center_inside(r: Rectangle)
    requires
        r.well_formed(),
        r.width > 0,
        r.height > 0,
    ensures
        r.spec_contains(Point { x: (r.x + r.width / 2) as i32, y: (r.y + r.height / 2) as i32 }),
{
}

/// The rectangle spanned by two points does not depend on their order, and
/// when its sizes fit an `i32` its corners are the component-wise minimum
/// (top-left) and maximum (bottom-right) of the two points.
pub proof fn from_points_spans(p1: Point, p2: Point)
    requires
        fits_i32(p1.x - p2.x),
        fits_i32(p1.y - p2.y),
    ensures
        Rectangle::spec_from_points(p1, p2) == Rectangle::spec_from_points(p2, p1),
        Rectangle::spec_from_points(p1, p2).x == spec_min(p1.x as int, p2.x as int),
        Rectangle::spec_from_points(p1, p2).y == spec_min(p1.y as int, p2.y as int),
        p1.x - p2.x > i32::MIN ==> Rectangle::spec_from_points(p1, p2).right() == spec_max(
            p1.x as int,
            p2.x as int,
        ),
        p1.y - p2.y > i32::MIN ==> Rectangle::spec_from_points(p1, p2).bottom() == spec_max(
            p1.y as int,
            p2.y as int,
        ),
{
}

/// Pixel format for frame buffers.
#[derive(Debug, Clone, Copy, PartialEq, Eq, Hash, Structural)]
#[non_exhaustive]
pub enum PixelFormat {
    /// 32-bit BGRA (Blue, Green, Red, Alpha)
    BGRA8888,
    /// 32-bit RGBA (Red, Green, Blue, Alpha)
    RGBA8888,
    /// 32-bit ARGB (Alpha, Red, Green, Blue)
    ARGB8888,
    /// 24-bit RGB (Red, Green, Blue)
    RGB888,
    /// 24-bit BGR (Blue, Green, Red)
    BGR888,
}

impl PixelFormat {
    /// Bytes that one pixel takes in this format.
    pub open spec fn pixel_bytes(self) -> nat {
        match self {
            PixelFormat::BGRA8888 | PixelFormat::RGBA8888 | PixelFormat::ARGB8888 => 4,
            PixelFormat::RGB888 | PixelFormat::BGR888 => 3,
        }
    }

    /// The format carries an alpha channel.
    pub open spec fn spec_has_alpha(self) -> bool {
        self is BGRA8888 || self is RGBA8888 || self is ARGB8888
    }

    /// Get the number of bytes per pixel.
    pub fn bytes_per_pixel(&self) -> (n: usize)
        ensures
            n == self.pixel_bytes(),
    {
        match self {
            PixelFormat::BGRA8888 | PixelFormat::RGBA8888 | PixelFormat::ARGB8888 => 4,
            PixelFormat::RGB888 | PixelFormat::BGR888 => 3,
        }
    }

    /// Check if the format has an alpha channel.
    pub fn has_alpha(&self) -> (b: bool)
        ensures
            b == self.spec_has_alpha(),
    {
        match self {
            PixelFormat::BGRA8888 | PixelFormat::RGBA8888 | PixelFormat::ARGB8888 => true,
            PixelFormat::RGB888 | PixelFormat::BGR888 => false,
        }
    }
}

} // verus!
