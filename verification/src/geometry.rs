//! Integer points and rectangles in screen coordinates.

use vstd::prelude::*;

verus! {

/// A pixel position.
#[derive(Debug, Clone, Copy, PartialEq, Eq, Structural)]
pub struct Point {
    pub x: i32,
    pub y: i32,
}

/// An axis-aligned rectangle: its top-left corner and its size.
#[derive(Debug, Clone, Copy, PartialEq, Eq, Structural)]
pub struct Rect {
    pub x: i32,
    pub y: i32,
    pub width: i32,
    pub height: i32,
}

/// Half of `v`, rounded towards zero.
pub open spec fn half(v: int) -> int {
    if v >= 0 {
        v / 2
    } else {
        -((-v) / 2)
    }
}

/// Whether `v` is a value of `i32`.
pub open spec fn fits(v: int) -> bool {
    i32::MIN <= v <= i32::MAX
}

/// Distance between two integers.
pub open spec fn distance(a: int, b: int) -> int {
    if a >= b {
        a - b
    } else {
        b - a
    }
}

pub open spec fn smaller(a: int, b: int) -> int {
    if a <= b {
        a
    } else {
        b
    }
}

impl Point {
    pub fn new(x: i32, y: i32) -> (point: Point)
        ensures
            point == (Point { x, y }),
    {
        Point { x, y }
    }

    /// The sum of two positions stays inside `i32`.
    pub open spec fn can_add(self, other: Point) -> bool {
        fits(self.x + other.x) && fits(self.y + other.y)
    }

    pub fn offset(self, other: Point) -> (point: Point)
        requires
            self.can_add(other),
        ensures
            point.x == self.x + other.x,
            point.y == self.y + other.y,
    {
        Point { x: self.x + other.x, y: self.y + other.y }
    }
}

impl Rect {
    pub fn new(x: i32, y: i32, width: i32, height: i32) -> (rect: Rect)
        ensures
            rect == (Rect { x, y, width, height }),
    {
        Rect { x, y, width, height }
    }

    pub open spec fn spec_tl(self) -> Point {
        Point { x: self.x, y: self.y }
    }

    /// Top-left corner.
    pub fn tl(self) -> (point: Point)
        ensures
            point == self.spec_tl(),
    {
        Point { x: self.x, y: self.y }
    }

    pub open spec fn mid_x(self) -> int {
        self.x + half(self.width as int)
    }

    pub open spec fn mid_y(self) -> int {
        self.y + half(self.height as int)
    }

    pub open spec fn right(self) -> int {
        self.x + self.width
    }

    pub open spec fn bottom(self) -> int {
        self.y + self.height
    }

    /// The centre is a representable position.
    pub open spec fn has_center(self) -> bool {
        fits(self.mid_x()) && fits(self.mid_y())
    }

    /// Both far edges are representable positions.
    pub open spec fn has_edges(self) -> bool {
        fits(self.right()) && fits(self.bottom())
    }

    /// Whether the pixel at (`x`, `y`) lies in the rectangle.
    pub open spec fn covers(self, x: int, y: int) -> bool {
        self.x <= x < self.right() && self.y <= y < self.bottom()
    }

    /// Whether `point` lies inside, the right and the bottom edge excluded.
    pub fn contains(self, point: Point) -> (inside: bool)
        requires
            self.has_edges(),
        ensures
            inside == self.covers(point.x as int, point.y as int),
    {
        self.x <= point.x && point.x < self.x + self.width && self.y <= point.y && point.y < self.y
            + self.height
    }

    /// The rectangle spanned by two opposite corners.
    pub fn from_points(a: Point, b: Point) -> (rect: Rect)
        requires
            distance(a.x as int, b.x as int) <= i32::MAX,
            distance(a.y as int, b.y as int) <= i32::MAX,
        ensures
            rect.x == smaller(a.x as int, b.x as int),
            rect.y == smaller(a.y as int, b.y as int),
            rect.width == distance(a.x as int, b.x as int),
            rect.height == distance(a.y as int, b.y as int),
    {
        let (x, width): (i32, i32) = if a.x <= b.x {
            (a.x, b.x - a.x)
        } else {
            (b.x, a.x - b.x)
        };
        let (y, height): (i32, i32) = if a.y <= b.y {
            (a.y, b.y - a.y)
        } else {
            (b.y, a.y - b.y)
        };
        Rect { x, y, width, height }
    }

    /// Some pixel lies in both rectangles.
    pub open spec fn meets(self, other: Rect) -> bool {
        exists|x: int, y: int| #[trigger] self.covers(x, y) && other.covers(x, y)
    }

    /// Whether the intersection of two rectangles has a positive area.
    pub fn overlaps(self, other: Rect) -> (overlap: bool)
        ensures
            overlap == self.meets(other),
    {
        let left: i64 = if self.x <= other.x {
            other.x as i64
        } else {
            self.x as i64
        };
        let top: i64 = if self.y <= other.y {
            other.y as i64
        } else {
            self.y as i64
        };
        let right: i64 = self.x as i64 + self.width as i64;
        let other_right: i64 = other.x as i64 + other.width as i64;
        let bottom: i64 = self.y as i64 + self.height as i64;
        let other_bottom: i64 = other.y as i64 + other.height as i64;
        let overlap = left < right && left < other_right && top < bottom && top < other_bottom;
        proof {
            if overlap {
                assert(self.covers(left as int, top as int) && other.covers(
                    left as int,
                    top as int,
                ));
            }
        }
        overlap
    }
}

/// Half of `v`, rounded towards zero.
pub fn half_of(v: i32) -> (h: i32)
    ensures
        h == half(v as int),
{
    if v >= 0 {
        v / 2
    } else if v == i32::MIN {
        -1073741824
    } else {
        -((-v) / 2)
    }
}

/// Distance between two coordinates.
pub fn abs_diff(a: i32, b: i32) -> (d: u32)
    ensures
        d == distance(a as int, b as int),
{
    if a >= b {
        (a as i64 - b as i64) as u32
    } else {
        (b as i64 - a as i64) as u32
    }
}

/// The centre of `rect` lies within it, where the rectangle is not empty.
pub proof fn law_center_is_covered(rect: Rect)
    requires
        rect.width > 0,
        rect.height > 0,
    ensures
        rect.covers(rect.mid_x(), rect.mid_y()),
{
}

/// The middle of a rectangle lies half its size from its corner, rounded towards the corner.
pub proof fn law_middle(rect: Rect)
    ensures
        rect.width >= 0 ==> rect.mid_x() - rect.x == rect.width as int / 2,
        rect.width < 0 ==> rect.x - rect.mid_x() == (-rect.width) / 2,
        rect.height >= 0 ==> rect.mid_y() - rect.y == rect.height as int / 2,
        rect.height < 0 ==> rect.y - rect.mid_y() == (-rect.height) / 2,
{
}

/// Half of a number, taken twice, misses it by less than two and never in magnitude exceeds it.
pub proof fn law_half_of(v: i32, h: i32)
    requires
        call_ensures(half_of, (v,), h),
    ensures
        v >= 0 ==> 0 <= v - 2 * h <= 1,
        v <= 0 ==> -1 <= v - 2 * h <= 0,
{
}

/// The distance leads from either coordinate to the other.
pub proof fn law_abs_diff(a: i32, b: i32, d: u32)
    requires
        call_ensures(abs_diff, (a, b), d),
    ensures
        a + d == b || b + d == a,
{
}

/// The pixels of a rectangle are those from its corner on, as many to the right and down as it is
/// wide and high.
pub proof fn law_contains(rect: Rect, point: Point, inside: bool)
    requires
        call_ensures(Rect::contains, (rect, point), inside),
    ensures
        inside <==> 0 <= point.x - rect.x < rect.width && 0 <= point.y - rect.y < rect.height,
{
}

/// Two rectangles overlap where the later of their starts comes before the earlier of their ends,
/// across and down.
pub proof fn law_overlaps(a: Rect, b: Rect, overlap: bool)
    requires
        call_ensures(Rect::overlaps, (a, b), overlap),
    ensures
        overlap <==> {
            &&& a.width > 0 && b.width > 0 && a.height > 0 && b.height > 0
            &&& a.x < b.x + b.width && b.x < a.x + a.width
            &&& a.y < b.y + b.height && b.y < a.y + a.height
        },
{
    law_meets(a, b);
}

/// Two rectangles meet where the later of their starts comes before the earlier of their ends,
/// across and down.
pub proof fn law_meets(a: Rect, b: Rect)
    ensures
        a.meets(b) <==> {
            &&& a.width > 0 && b.width > 0 && a.height > 0 && b.height > 0
            &&& a.x < b.x + b.width && b.x < a.x + a.width
            &&& a.y < b.y + b.height && b.y < a.y + a.height
        },
{
    let left: int = if a.x <= b.x {
        b.x as int
    } else {
        a.x as int
    };
    let top: int = if a.y <= b.y {
        b.y as int
    } else {
        a.y as int
    };
    if a.covers(left, top) && b.covers(left, top) {
        assert(a.meets(b));
    }
}

/// Adding positions adds their coordinates.
pub proof fn law_offset(a: Point, b: Point, sum: Point)
    requires
        call_ensures(Point::offset, (a, b), sum),
    ensures
        sum.x - a.x == b.x,
        sum.y - a.y == b.y,
{
}

/// The rectangle between two corners starts at the smaller and ends at the larger coordinates.
pub proof fn law_from_points(a: Point, b: Point, rect: Rect)
    requires
        call_ensures(Rect::from_points, (a, b), rect),
    ensures
        rect.x <= a.x <= rect.x + rect.width,
        rect.x <= b.x <= rect.x + rect.width,
        rect.y <= a.y <= rect.y + rect.height,
        rect.y <= b.y <= rect.y + rect.height,
        rect.x == a.x || rect.x == b.x,
        rect.y == a.y || rect.y == b.y,
        rect.x + rect.width == a.x || rect.x + rect.width == b.x,
        rect.y + rect.height == a.y || rect.y + rect.height == b.y,
{
}

/// The corner of a rectangle is where its coordinates start.
pub proof fn law_tl(rect: Rect, corner: Point)
    requires
        call_ensures(Rect::tl, (rect,), corner),
    ensures
        corner.x == rect.x,
        corner.y == rect.y,
{
}

/// Points and boxes are made of what they are given, each number in its place.
pub proof fn law_new(x: i32, y: i32, width: i32, height: i32, point: Point, rect: Rect)
    requires
        call_ensures(Point::new, (x, y), point),
        call_ensures(Rect::new, (x, y, width, height), rect),
    ensures
        point.x == x && point.y == y,
        rect.x == x && rect.y == y && rect.width == width && rect.height == height,
{
}

} // verus!
