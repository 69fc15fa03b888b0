//! Positions on a grid, plain or measured from a pivot, and the sides of a
//! grid.

use vstd::prelude::*;

verus! {

/// A corner of a rectangle, the middle of one of its edges, or its centre.
/// Coordinates that are measured from a pivot grow away from it: to the left
/// from one on the right edge, and downwards from one on the top edge.
#[derive(Clone, Copy, Debug, PartialEq, Eq)]
pub enum Pivot {
    TopLeft,
    TopCenter,
    TopRight,
    LeftCenter,
    Center,
    RightCenter,
    BottomLeft,
    BottomCenter,
    BottomRight,
}

/// One of the four sides of a rectangle.
#[derive(Clone, Copy, Debug, PartialEq, Eq)]
pub enum Side {
    Left,
    Top,
    Right,
    Bottom,
}

/// A position given relative to a pivot of the grid it is used on.
#[derive(Clone, Copy, Debug, PartialEq, Eq)]
pub struct PivotedPoint {
    pub point: [i32; 2],
    pub pivot: Pivot,
}

/// A position on a grid, with the pivot it is measured from, if any.
pub trait GridPoint: Copy {
    /// The horizontal coordinate.
    spec fn px(&self) -> int;

    /// The vertical coordinate.
    spec fn py(&self) -> int;

    /// The pivot that the coordinates are measured from.
    spec fn anchor(&self) -> Option<Pivot>;

    fn x(&self) -> (r: i32)
        ensures
            r == self.px(),
    ;

    fn y(&self) -> (r: i32)
        ensures
            r == self.py(),
    ;

    fn get_pivot(self) -> (r: Option<Pivot>)
        ensures
            r == self.anchor(),
    ;

    /// The same coordinates, measured from `pivot`.
    fn pivot(&self, pivot: Pivot) -> (r: PivotedPoint)
        ensures
            r.point[0] == self.px(),
            r.point[1] == self.py(),
            r.pivot == pivot,
    ;
}

impl GridPoint for [i32; 2] {
    open spec fn px(&self) -> int {
        self[0] as int
    }

    open spec fn py(&self) -> int {
        self[1] as int
    }

    open spec fn anchor(&self) -> Option<Pivot> {
        None
    }

    fn x(&self) -> (r: i32) {
        self[0]
    }

    fn y(&self) -> (r: i32) {
        self[1]
    }

    fn get_pivot(self) -> (r: Option<Pivot>) {
        None
    }

    fn pivot(&self, pivot: Pivot) -> (r: PivotedPoint) {
        PivotedPoint { point: [self[0], self[1]], pivot }
    }
}

impl GridPoint for PivotedPoint {
    open spec fn px(&self) -> int {
        self.point[0] as int
    }

    open spec fn py(&self) -> int {
        self.point[1] as int
    }

    open spec fn anchor(&self) -> Option<Pivot> {
        Some(self.pivot)
    }

    fn x(&self) -> (r: i32) {
        self.point[0]
    }

    fn y(&self) -> (r: i32) {
        self.point[1]
    }

    fn get_pivot(self) -> (r: Option<Pivot>) {
        Some(self.pivot)
    }

    fn pivot(&self, pivot: Pivot) -> (r: PivotedPoint) {
        PivotedPoint { point: [self.point[0], self.point[1]], pivot }
    }
}

/// Twice the place of a pivot on the unit square, so that the centre is
/// `(1, 1)` and the top right corner `(2, 2)`.
pub open spec fn pivot_halves(pivot: Pivot) -> (int, int) {
    match pivot {
        Pivot::TopLeft => (0, 2),
        Pivot::TopCenter => (1, 2),
        Pivot::TopRight => (2, 2),
        Pivot::LeftCenter => (0, 1),
        Pivot::Center => (1, 1),
        Pivot::RightCenter => (2, 1),
        Pivot::BottomLeft => (0, 0),
        Pivot::BottomCenter => (1, 0),
        Pivot::BottomRight => (2, 0),
    }
}

/// Twice the place on the unit square from which a point is measured: that of
/// its pivot, or the bottom left corner where it has none.
pub open spec fn anchor_halves<P: GridPoint>(xy: P) -> (int, int) {
    match xy.anchor() {
        Some(pivot) => pivot_halves(pivot),
        None => (0, 0),
    }
}

/// A coordinate as it counts from a pivot at `halves` halves of a side:
/// backwards from the far end of the side, forwards from anywhere else.
pub open spec fn turned(v: int, halves: int) -> int {
    if halves == 2 {
        -v
    } else {
        v
    }
}

/// `n` halves rounded to a whole number, a half going away from zero.
pub open spec fn round_halves(n: int) -> int {
    if n >= 0 {
        (n + 1) / 2
    } else {
        -((1 - n) / 2)
    }
}

/// Where on a side of `side` tiles the coordinate `v` lies that is measured
/// from a pivot at `halves` halves of the side: at the pivot's tile, which is
/// that share of the side less one, rounded, plus `v` as it counts from
/// there.
pub open spec fn pivoted_coordinate(side: int, halves: int, v: int) -> int {
    round_halves((side - 1) * halves) + turned(v, halves)
}

/// Where the point `(x, y)`, measured from `pivot`, lies on a `width` by
/// `height` grid.
pub open spec fn pivoted(pivot: Pivot, x: int, y: int, width: int, height: int) -> (int, int) {
    (
        pivoted_coordinate(width, pivot_halves(pivot).0, x),
        pivoted_coordinate(height, pivot_halves(pivot).1, y),
    )
}

/// Twice the place of `pivot` on the unit square.
pub fn halves_of(pivot: Pivot) -> (r: [u8; 2])
    ensures
        r[0] == pivot_halves(pivot).0,
        r[1] == pivot_halves(pivot).1,
        r[0] <= 2,
        r[1] <= 2,
{
    match pivot {
        Pivot::TopLeft => [0, 2],
        Pivot::TopCenter => [1, 2],
        Pivot::TopRight => [2, 2],
        Pivot::LeftCenter => [0, 1],
        Pivot::Center => [1, 1],
        Pivot::RightCenter => [2, 1],
        Pivot::BottomLeft => [0, 0],
        Pivot::BottomCenter => [1, 0],
        Pivot::BottomRight => [2, 0],
    }
}

/// Where on a side of `side` tiles the coordinate `v` lies that is measured
/// from a pivot at `halves` halves of the side, wherever that is.
pub fn pivot_coordinate_wide(side: u32, halves: u8, v: i32) -> (r: i64)
    requires
        halves <= 2,
    ensures
        r == pivoted_coordinate(side as int, halves as int, v as int),
{
    let last: i64 = side as i64 - 1;
    let cell: i64 = if halves == 0 {
        assert((side - 1) * 0 == 0);
        0
    } else if halves == 1 {
        assert((side - 1) * 1 == side - 1);
        if last >= 0 {
            (last + 1) / 2
        } else {
            -1
        }
    } else {
        assert((side - 1) * 2 == last + last);
        last
    };
    assert(cell == round_halves((side - 1) * halves));
    let offset: i64 = if halves == 2 {
        -(v as i64)
    } else {
        v as i64
    };
    cell + offset
}

/// Where on a side of `side` tiles the coordinate `v` lies that is measured
/// from a pivot at `halves` halves of the side.
pub fn pivot_coordinate(side: u32, halves: u8, v: i32) -> (r: i32)
    requires
        halves <= 2,
        i32::MIN <= pivoted_coordinate(side as int, halves as int, v as int) <= i32::MAX,
    ensures
        r == pivoted_coordinate(side as int, halves as int, v as int),
{
    pivot_coordinate_wide(side, halves, v) as i32
}

} // verus!
