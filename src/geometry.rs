//! Integer points and half-open rectangles on the character grid.
use vstd::prelude::*;

verus! {

/// Clamps a mathematical integer to the range of `i16`.
pub open spec fn clamp16(v: int) -> int {
    if v < i16::MIN as int {
        i16::MIN as int
    } else if v > i16::MAX as int {
        i16::MAX as int
    } else {
        v
    }
}

/// `v` clamped to the range of `i16`.
pub fn clamp_i16(v: i32) -> (r: i16)
    ensures
        r as int == clamp16(v as int),
{
    if v < -32768 {
        -32768
    } else if v > 32767 {
        32767
    } else {
        v as i16
    }
}

/// A grid position: `x` is the column, `y` the row.
#[derive(Clone, Copy, Debug, PartialEq, Eq, Structural)]
pub struct Point {
    pub x: i16,
    pub y: i16,
}

impl Point {
    pub fn new(x: i16, y: i16) -> (r: Point)
        ensures
            r.x == x,
            r.y == y,
    {
        Point { x, y }
    }

    pub fn zero() -> (r: Point)
        ensures
            r.x == 0,
            r.y == 0,
    {
        Point { x: 0, y: 0 }
    }
}

/// A half-open box: the cells `(x, y)` with `a.x <= x < b.x` and `a.y <= y < b.y`.
#[derive(Clone, Copy, Debug, PartialEq, Eq, Structural)]
pub struct Rect {
    pub a: Point,
    pub b: Point,
}

impl Rect {
    /// The rectangle with this corner order holds no cell when it is inverted.
    pub open spec fn wf(self) -> bool {
        self.a.x <= self.b.x && self.a.y <= self.b.y
    }

    pub open spec fn spec_contains(self, x: int, y: int) -> bool {
        self.a.x <= x < self.b.x && self.a.y <= y < self.b.y
    }

    pub open spec fn spec_width(self) -> int {
        self.b.x - self.a.x
    }

    pub open spec fn spec_height(self) -> int {
        self.b.y - self.a.y
    }

    /// The rectangle moved by `(dx, dy)`, each coordinate clamped to `i16`.
    pub open spec fn spec_moved(self, dx: int, dy: int) -> Rect {
        Rect {
            a: Point { x: clamp16(self.a.x + dx) as i16, y: clamp16(self.a.y + dy) as i16 },
            b: Point { x: clamp16(self.b.x + dx) as i16, y: clamp16(self.b.y + dy) as i16 },
        }
    }

    pub open spec fn spec_intersect(self, o: Rect) -> Rect {
        Rect {
            a: Point {
                x: if self.a.x >= o.a.x { self.a.x } else { o.a.x },
                y: if self.a.y >= o.a.y { self.a.y } else { o.a.y },
            },
            b: Point {
                x: if self.b.x <= o.b.x { self.b.x } else { o.b.x },
                y: if self.b.y <= o.b.y { self.b.y } else { o.b.y },
            },
        }
    }

    pub open spec fn spec_intersects(self, o: Rect) -> bool {
        self.a.x < o.b.x && o.a.x < self.b.x && self.a.y < o.b.y && o.a.y < self.b.y
    }

    pub fn new(ax: i16, ay: i16, bx: i16, by: i16) -> (r: Rect)
        ensures
            r.a.x == ax && r.a.y == ay && r.b.x == bx && r.b.y == by,
    {
        Rect { a: Point { x: ax, y: ay }, b: Point { x: bx, y: by } }
    }

    pub fn width(&self) -> (r: i32)
        ensures
            r == self.spec_width(),
    {
        self.b.x as i32 - self.a.x as i32
    }

    pub fn height(&self) -> (r: i32)
        ensures
            r == self.spec_height(),
    {
        self.b.y as i32 - self.a.y as i32
    }

    pub fn contains(&self, p: Point) -> (r: bool)
        ensures
            r == self.spec_contains(p.x as int, p.y as int),
    {
        p.x >= self.a.x && p.x < self.b.x && p.y >= self.a.y && p.y < self.b.y
    }

    /// Whether the two rectangles share at least one cell.
    pub fn intersects(&self, o: &Rect) -> (r: bool)
        ensures
            r == self.spec_intersects(*o),
    {
        self.a.x < o.b.x && o.a.x < self.b.x && self.a.y < o.b.y && o.a.y < self.b.y
    }

    /// The cells common to both rectangles (an inverted rectangle when there are none).
    pub fn intersect(&self, o: &Rect) -> (r: Rect)
        ensures
            r == self.spec_intersect(*o),
            forall|x: int, y: int|
                r.spec_contains(x, y) <==> (self.spec_contains(x, y) && o.spec_contains(x, y)),
    {
        let ax = if self.a.x >= o.a.x { self.a.x } else { o.a.x };
        let ay = if self.a.y >= o.a.y { self.a.y } else { o.a.y };
        let bx = if self.b.x <= o.b.x { self.b.x } else { o.b.x };
        let by = if self.b.y <= o.b.y { self.b.y } else { o.b.y };
        Rect { a: Point { x: ax, y: ay }, b: Point { x: bx, y: by } }
    }

    /// Moves the rectangle by `(dx, dy)`, clamping each coordinate to `i16`.
    pub fn moved(&self, dx: i32, dy: i32) -> (r: Rect)
        requires
            -65536 <= dx <= 65536,
            -65536 <= dy <= 65536,
        ensures
            r == self.spec_moved(dx as int, dy as int),
    {
        Rect {
            a: Point { x: clamp_i16(self.a.x as i32 + dx), y: clamp_i16(self.a.y as i32 + dy) },
            b: Point { x: clamp_i16(self.b.x as i32 + dx), y: clamp_i16(self.b.y as i32 + dy) },
        }
    }

    /// Grows the rectangle by `dx` columns and `dy` rows on every side
    /// (shrinks it for negative values), clamping each coordinate to `i16`.
    pub fn grow(&mut self, dx: i16, dy: i16)
        ensures
            final(self).a.x == clamp16(old(self).a.x - dx),
            final(self).a.y == clamp16(old(self).a.y - dy),
            final(self).b.x == clamp16(old(self).b.x + dx),
            final(self).b.y == clamp16(old(self).b.y + dy),
    {
        self.a.x = clamp_i16(self.a.x as i32 - dx as i32);
        self.a.y = clamp_i16(self.a.y as i32 - dy as i32);
        self.b.x = clamp_i16(self.b.x as i32 + dx as i32);
        self.b.y = clamp_i16(self.b.y as i32 + dy as i32);
    }
}

} // verus!
