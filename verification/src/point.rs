//! Two-dimensional geometry: points and vectors in course-plane units, and
//! the eight-way cardinal classifier used for corner cutting.

use vstd::prelude::*;

use crate::config::{CARDINAL_DEADBAND, MAX_COORD, MAX_SPAN};

verus! {

/// A point (or vector) in the course plane, in integer course units.
#[derive(Clone, Copy, PartialEq, Eq, Structural, Debug)]
pub struct Point {
    pub x: i64,
    pub y: i64,
}

/// The absolute value of a mathematical integer.
pub open spec fn abs_val(v: int) -> int {
    if v < 0 {
        -v
    } else {
        v
    }
}

/// The absolute value of a machine integer.
pub fn abs_i64(v: i64) -> (r: i64)
    requires
        v > i64::MIN,
    ensures
        r == abs_val(v as int),
{
    if v >= 0 {
        v
    } else {
        -v
    }
}

/// The squared Euclidean distance between two points.
pub open spec fn dist_sq(a: Point, b: Point) -> int {
    (a.x - b.x) * (a.x - b.x) + (a.y - b.y) * (a.y - b.y)
}

/// The squared Euclidean length of a vector.
pub open spec fn len_sq(p: Point) -> int {
    p.x * p.x + p.y * p.y
}

/// Squares of values bounded by `b` are bounded by `b * b`.
proof fn lemma_square_bound(v: int, b: int)
    requires
        -b <= v <= b,
        0 <= b,
    ensures
        0 <= v * v <= b * b,
{
    assert(0 <= v * v <= b * b) by (nonlinear_arith)
        requires
            -b <= v <= b,
            0 <= b,
    ;
}

impl Point {
    /// Coordinates bounded as every observed position and checkpoint is.
    pub open spec fn fits(self) -> bool {
        &&& -MAX_COORD <= self.x <= MAX_COORD
        &&& -MAX_COORD <= self.y <= MAX_COORD
    }

    /// Coordinates bounded as every velocity is: the difference of two
    /// bounded positions.
    pub open spec fn span_fits(self) -> bool {
        &&& -MAX_SPAN <= self.x <= MAX_SPAN
        &&& -MAX_SPAN <= self.y <= MAX_SPAN
    }

    pub fn new(x: i64, y: i64) -> (p: Point)
        ensures
            p == (Point { x, y }),
    {
        Point { x, y }
    }

    /// Componentwise vector addition.
    pub fn add(self, rhs: Point) -> (r: Point)
        requires
            i64::MIN <= self.x + rhs.x <= i64::MAX,
            i64::MIN <= self.y + rhs.y <= i64::MAX,
        ensures
            r.x == self.x + rhs.x,
            r.y == self.y + rhs.y,
    {
        Point { x: self.x + rhs.x, y: self.y + rhs.y }
    }

    /// Componentwise vector subtraction.
    pub fn sub(self, rhs: Point) -> (r: Point)
        requires
            i64::MIN <= self.x - rhs.x <= i64::MAX,
            i64::MIN <= self.y - rhs.y <= i64::MAX,
        ensures
            r.x == self.x - rhs.x,
            r.y == self.y - rhs.y,
    {
        Point { x: self.x - rhs.x, y: self.y - rhs.y }
    }

    /// The squared distance to another bounded position. All comparisons of
    /// distances against non-negative thresholds are made on squares, which
    /// decide them exactly.
    pub fn distance_squared_to(self, other: Point) -> (d: i64)
        requires
            self.fits(),
            other.fits(),
        ensures
            d == dist_sq(self, other),
    {
        let dx = self.x - other.x;
        let dy = self.y - other.y;
        proof {
            lemma_square_bound(dx as int, 2 * MAX_COORD as int);
            lemma_square_bound(dy as int, 2 * MAX_COORD as int);
        }
        dx * dx + dy * dy
    }

    /// The squared length of a velocity vector.
    pub fn length_squared(self) -> (d: i64)
        requires
            self.span_fits(),
        ensures
            d == len_sq(self),
    {
        proof {
            lemma_square_bound(self.x as int, MAX_SPAN as int);
            lemma_square_bound(self.y as int, MAX_SPAN as int);
        }
        self.x * self.x + self.y * self.y
    }

    /// Classifies where `other` lies relative to `self`, one axis at a time,
    /// with differences within `threshold` counting as level.
    pub fn cardinal(self, other: Point, threshold: i64) -> (c: Cardinal)
        requires
            self.fits(),
            other.fits(),
            0 <= threshold <= MAX_COORD,
        ensures
            c == cardinal_spec(self, other, threshold as int),
    {
        let y = if other.y - threshold > self.y {
            Cardinal::Down
        } else if other.y + threshold < self.y {
            Cardinal::Up
        } else {
            Cardinal::Level
        };
        let x = if other.x - threshold > self.x {
            Cardinal::Right
        } else if other.x + threshold < self.x {
            Cardinal::Left
        } else {
            Cardinal::Level
        };
        Cardinal::combine(x, y)
    }
}

/// One of the eight compass octants, or `Level` when the two points are level
/// on both axes. `Down` means the other point has the larger `y` coordinate,
/// as in screen coordinates.
#[derive(Clone, Copy, PartialEq, Eq, Structural, Debug)]
pub enum Cardinal {
    Level,
    Up,
    UpRight,
    Right,
    DownRight,
    Down,
    DownLeft,
    Left,
    UpLeft,
}

/// The vertical component of the cardinal classification.
pub open spec fn axis_y(a: Point, b: Point, t: int) -> Cardinal {
    if b.y - t > a.y {
        Cardinal::Down
    } else if b.y + t < a.y {
        Cardinal::Up
    } else {
        Cardinal::Level
    }
}

/// The horizontal component of the cardinal classification.
pub open spec fn axis_x(a: Point, b: Point, t: int) -> Cardinal {
    if b.x - t > a.x {
        Cardinal::Right
    } else if b.x + t < a.x {
        Cardinal::Left
    } else {
        Cardinal::Level
    }
}

/// Composition of the two axis classifications: a neutral axis defers to the
/// other, two on-axis directions compose into a diagonal, and anything else
/// keeps the first.
pub open spec fn combine_spec(first: Cardinal, second: Cardinal) -> Cardinal {
    match first {
        Cardinal::Level => second,
        Cardinal::Up => match second {
            Cardinal::Left => Cardinal::UpLeft,
            Cardinal::Right => Cardinal::UpRight,
            _ => first,
        },
        Cardinal::Right => match second {
            Cardinal::Up => Cardinal::UpRight,
            Cardinal::Down => Cardinal::DownRight,
            _ => first,
        },
        Cardinal::Down => match second {
            Cardinal::Left => Cardinal::DownLeft,
            Cardinal::Right => Cardinal::DownRight,
            _ => first,
        },
        Cardinal::Left => match second {
            Cardinal::Up => Cardinal::UpLeft,
            Cardinal::Down => Cardinal::DownLeft,
            _ => first,
        },
        _ => first,
    }
}

/// The full cardinal classification of `b` relative to `a`.
pub open spec fn cardinal_spec(a: Point, b: Point, t: int) -> Cardinal {
    combine_spec(axis_x(a, b, t), axis_y(a, b, t))
}

impl Cardinal {
    /// Combines the two axis classifications.
    pub fn combine(first: Cardinal, second: Cardinal) -> (c: Cardinal)
        ensures
            c == combine_spec(first, second),
    {
        match first {
            Cardinal::Level => second,
            Cardinal::Up => match second {
                Cardinal::Left => Cardinal::UpLeft,
                Cardinal::Right => Cardinal::UpRight,
                _ => first,
            },
            Cardinal::Right => match second {
                Cardinal::Up => Cardinal::UpRight,
                Cardinal::Down => Cardinal::DownRight,
                _ => first,
            },
            Cardinal::Down => match second {
                Cardinal::Left => Cardinal::DownLeft,
                Cardinal::Right => Cardinal::DownRight,
                _ => first,
            },
            Cardinal::Left => match second {
                Cardinal::Up => Cardinal::UpLeft,
                Cardinal::Down => Cardinal::DownLeft,
                _ => first,
            },
            _ => first,
        }
    }
}

/// Law: combining any axis classification with a neutral one leaves it
/// unchanged, on either side.
pub proof fn lemma_combine_identity(a: Cardinal, b: Cardinal)
    ensures
        combine_spec(a, Cardinal::Level) == a,
        combine_spec(Cardinal::Level, b) == b,
{
}

/// Law: the cardinal classification is total, and each of its nine outcomes
/// is reached by some pair of points.
pub proof fn lemma_cardinal_covers()
    ensures
        exists|a: Point, b: Point| cardinal_spec(a, b, CARDINAL_DEADBAND as int) == Cardinal::Level,
        exists|a: Point, b: Point| cardinal_spec(a, b, CARDINAL_DEADBAND as int) == Cardinal::Up,
        exists|a: Point, b: Point| cardinal_spec(a, b, CARDINAL_DEADBAND as int)
            == Cardinal::UpRight,
        exists|a: Point, b: Point| cardinal_spec(a, b, CARDINAL_DEADBAND as int) == Cardinal::Right,
        exists|a: Point, b: Point| cardinal_spec(a, b, CARDINAL_DEADBAND as int)
            == Cardinal::DownRight,
        exists|a: Point, b: Point| cardinal_spec(a, b, CARDINAL_DEADBAND as int) == Cardinal::Down,
        exists|a: Point, b: Point| cardinal_spec(a, b, CARDINAL_DEADBAND as int)
            == Cardinal::DownLeft,
        exists|a: Point, b: Point| cardinal_spec(a, b, CARDINAL_DEADBAND as int) == Cardinal::Left,
        exists|a: Point, b: Point| cardinal_spec(a, b, CARDINAL_DEADBAND as int)
            == Cardinal::UpLeft,
{
    let o = Point { x: 0, y: 0 };
    assert(cardinal_spec(o, Point { x: 0, y: 0 }, CARDINAL_DEADBAND as int) == Cardinal::Level);
    assert(cardinal_spec(o, Point { x: 0, y: -100i64 }, CARDINAL_DEADBAND as int) == Cardinal::Up);
    assert(cardinal_spec(o, Point { x: 100, y: -100i64 }, CARDINAL_DEADBAND as int)
        == Cardinal::UpRight);
    assert(cardinal_spec(o, Point { x: 100, y: 0 }, CARDINAL_DEADBAND as int) == Cardinal::Right);
    assert(cardinal_spec(o, Point { x: 100, y: 100 }, CARDINAL_DEADBAND as int)
        == Cardinal::DownRight);
    assert(cardinal_spec(o, Point { x: 0, y: 100 }, CARDINAL_DEADBAND as int) == Cardinal::Down);
    assert(cardinal_spec(o, Point { x: -100i64, y: 100 }, CARDINAL_DEADBAND as int)
        == Cardinal::DownLeft);
    assert(cardinal_spec(o, Point { x: -100i64, y: 0 }, CARDINAL_DEADBAND as int) == Cardinal::Left);
    assert(cardinal_spec(o, Point { x: -100i64, y: -100i64 }, CARDINAL_DEADBAND as int)
        == Cardinal::UpLeft);
}

} // verus!
