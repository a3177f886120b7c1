//! Signed grid positions: arithmetic on cells, the walking distance between
//! two cells and the eight cells that surround a cell.
use vstd::prelude::*;

verus! {

/// A cell of the map, in signed grid coordinates (`x` grows to the right,
/// `y` grows downwards).
#[derive(Clone, Copy, Debug, PartialEq, Eq, Default, Hash, Structural)]
pub struct MapPosition {
    pub x: i32,
    pub y: i32,
}

/// The absolute value of an integer.
pub open spec fn abs(v: int) -> int {
    if v < 0 {
        -v
    } else {
        v
    }
}

/// The larger of two integers.
pub open spec fn max(a: int, b: int) -> int {
    if a < b {
        b
    } else {
        a
    }
}

/// Whether `v` is a value of `i32`.
pub open spec fn fits_i32(v: int) -> bool {
    i32::MIN <= v <= i32::MAX
}

/// Whether adding `b` to `a` keeps both coordinates inside `i32`.
pub open spec fn sum_fits(a: MapPosition, b: MapPosition) -> bool {
    fits_i32(a.x + b.x) && fits_i32(a.y + b.y)
}

/// Whether subtracting `b` from `a` keeps both coordinates inside `i32`.
pub open spec fn difference_fits(a: MapPosition, b: MapPosition) -> bool {
    fits_i32(a.x - b.x) && fits_i32(a.y - b.y)
}

/// The cell `a` moved by the offset `b` (meaningful where `sum_fits(a, b)`).
pub open spec fn plus(a: MapPosition, b: MapPosition) -> MapPosition {
    MapPosition { x: (a.x + b.x) as i32, y: (a.y + b.y) as i32 }
}

/// The offset that leads from `b` to `a` (meaningful where `difference_fits(a, b)`).
pub open spec fn minus(a: MapPosition, b: MapPosition) -> MapPosition {
    MapPosition { x: (a.x - b.x) as i32, y: (a.y - b.y) as i32 }
}

/// The number of orthogonal steps between two cells: `|dx| + |dy|`.
pub open spec fn manhattan(a: MapPosition, b: MapPosition) -> int {
    abs(a.x - b.x) + abs(a.y - b.y)
}

/// The number of king moves between two cells: `max(|dx|, |dy|)`.
pub open spec fn chebyshev(a: MapPosition, b: MapPosition) -> int {
    max(abs(a.x - b.x), abs(a.y - b.y))
}

/// The origin of the grid.
pub open spec fn origin() -> MapPosition {
    MapPosition { x: 0, y: 0 }
}

impl From<(i32, i32)> for MapPosition {
    /// Builds the cell `(pos.0, pos.1)`.
    fn from(pos: (i32, i32)) -> (r: MapPosition)
        ensures
            r.x == pos.0,
            r.y == pos.1,
    {
        MapPosition { x: pos.0, y: pos.1 }
    }
}

impl vstd::std_specs::convert::FromSpecImpl<(i32, i32)> for MapPosition {
    open spec fn obeys_from_spec() -> bool {
        true
    }

    open spec fn from_spec(v: (i32, i32)) -> MapPosition {
        MapPosition { x: v.0, y: v.1 }
    }
}

impl core::ops::Add for MapPosition {
    type Output = MapPosition;

    /// Moves `self` by the offset `other`, coordinate by coordinate.
    fn add(self, other: MapPosition) -> (r: MapPosition) {
        MapPosition { x: self.x + other.x, y: self.y + other.y }
    }
}

impl vstd::std_specs::ops::AddSpecImpl for MapPosition {
    open spec fn obeys_add_spec() -> bool {
        true
    }

    open spec fn add_req(self, rhs: MapPosition) -> bool {
        sum_fits(self, rhs)
    }

    open spec fn add_spec(self, rhs: MapPosition) -> MapPosition {
        plus(self, rhs)
    }
}

impl core::ops::Sub for MapPosition {
    type Output = MapPosition;

    /// The offset from `other` to `self`, coordinate by coordinate.
    fn sub(self, other: MapPosition) -> (r: MapPosition) {
        MapPosition { x: self.x - other.x, y: self.y - other.y }
    }
}

impl vstd::std_specs::ops::SubSpecImpl for MapPosition {
    open spec fn obeys_sub_spec() -> bool {
        true
    }

    open spec fn sub_req(self, rhs: MapPosition) -> bool {
        difference_fits(self, rhs)
    }

    open spec fn sub_spec(self, rhs: MapPosition) -> MapPosition {
        minus(self, rhs)
    }
}

/// The absolute value of an `i32` that is not `i32::MIN`.
fn abs_i32(v: i32) -> (r: i32)
    requires
        v > i32::MIN,
    ensures
        r == abs(v as int),
{
    if v < 0 {
        -v
    } else {
        v
    }
}

impl MapPosition {
    /// The walking distance between two cells, counted in orthogonal steps:
    /// `|dx| + |dy|`. The distance between `(0, 0)` and `(3, 4)` is 7.
    pub fn distance_to(self, other: MapPosition) -> (d: i32)
        requires
            manhattan(self, other) <= i32::MAX,
        ensures
            d == manhattan(self, other),
            d == (if self.x >= other.x {
                self.x - other.x
            } else {
                other.x - self.x
            }) + (if self.y >= other.y {
                self.y - other.y
            } else {
                other.y - self.y
            }),
    {
        abs_i32(self.x - other.x) + abs_i32(self.y - other.y)
    }
}

/// The offsets of the eight surrounding cells, clockwise from the lower
/// right one.
pub open spec fn neighbor_offsets() -> Seq<MapPosition> {
    seq![
        MapPosition { x: 1, y: 1 },
        MapPosition { x: 1, y: 0 },
        MapPosition { x: 1, y: -1i32 },
        MapPosition { x: 0, y: -1i32 },
        MapPosition { x: -1i32, y: -1i32 },
        MapPosition { x: -1i32, y: 0 },
        MapPosition { x: -1i32, y: 1 },
        MapPosition { x: 0, y: 1 },
    ]
}

/// The eight cells around `center`, in the order of `neighbor_offsets`.
pub open spec fn neighbor_cells(center: MapPosition) -> Seq<MapPosition> {
    neighbor_offsets().map_values(|o: MapPosition| plus(center, o))
}

/// Whether `center` lies strictly inside the `i32` grid, so that all its
/// neighbours exist.
pub open spec fn has_all_neighbors(center: MapPosition) -> bool {
    i32::MIN < center.x < i32::MAX && i32::MIN < center.y < i32::MAX
}

/// The table of neighbour offsets, as an array.
fn neighbor_offset_table() -> (t: [MapPosition; 8])
    ensures
        t@ == neighbor_offsets(),
{
    let t = [
        MapPosition { x: 1, y: 1 },
        MapPosition { x: 1, y: 0 },
        MapPosition { x: 1, y: -1 },
        MapPosition { x: 0, y: -1 },
        MapPosition { x: -1, y: -1 },
        MapPosition { x: -1, y: 0 },
        MapPosition { x: -1, y: 1 },
        MapPosition { x: 0, y: 1 },
    ];
    assert(t@ =~= neighbor_offsets());
    t
}

/// The eight cells around `center`: each offset of `neighbor_offsets` added
/// to `center`.
pub fn neighbors_of(center: MapPosition) -> (r: [MapPosition; 8])
    requires
        has_all_neighbors(center),
    ensures
        r@ == neighbor_cells(center),
{
    let t = neighbor_offset_table();
    let r = [
        center + t[0],
        center + t[1],
        center + t[2],
        center + t[3],
        center + t[4],
        center + t[5],
        center + t[6],
        center + t[7],
    ];
    assert(r@ =~= neighbor_cells(center));
    r
}

/// Moving a cell by an offset and then back by the same offset gives the cell
/// back: `(a + b) - b == a`.
pub proof fn lemma_add_then_sub(a: MapPosition, b: MapPosition)
    requires
        sum_fits(a, b),
    ensures
        difference_fits(plus(a, b), b),
        minus(plus(a, b), b) == a,
{
}

/// Taking the offset from `b` to `a` and moving `b` by it leads to `a`:
/// `(a - b) + b == a`.
pub proof fn lemma_sub_then_add(a: MapPosition, b: MapPosition)
    requires
        difference_fits(a, b),
    ensures
        sum_fits(minus(a, b), b),
        plus(minus(a, b), b) == a,
{
}

/// Adding positions does not depend on their order: `a + b == b + a`.
pub proof fn lemma_add_commutative(a: MapPosition, b: MapPosition)
    requires
        sum_fits(a, b),
    ensures
        sum_fits(b, a),
        plus(a, b) == plus(b, a),
{
}

/// The origin is the neutral offset, and every cell is at offset zero from
/// itself: `a + (0, 0) == a` and `a - a == (0, 0)`.
pub proof fn lemma_origin_neutral(a: MapPosition)
    ensures
        sum_fits(a, origin()),
        plus(a, origin()) == a,
        difference_fits(a, a),
        minus(a, a) == origin(),
{
}

/// The distance between two cells does not depend on their order.
pub proof fn lemma_distance_symmetric(a: MapPosition, b: MapPosition)
    ensures
        manhattan(a, b) == manhattan(b, a),
{
}

/// The distance is never negative, and it is zero exactly between a cell
/// and itself.
pub proof fn lemma_distance_zero_iff_equal(a: MapPosition, b: MapPosition)
    ensures
        manhattan(a, b) >= 0,
        manhattan(a, b) == 0 <==> a == b,
{
}

/// Going through a third cell is never shorter: the triangle inequality.
pub proof fn lemma_distance_triangle(a: MapPosition, b: MapPosition, c: MapPosition)
    ensures
        manhattan(a, c) <= manhattan(a, b) + manhattan(b, c),
{
}

/// Moving both cells by the same offset keeps their distance.
pub proof fn lemma_distance_translation(a: MapPosition, b: MapPosition, offset: MapPosition)
    requires
        sum_fits(a, offset),
        sum_fits(b, offset),
    ensures
        manhattan(plus(a, offset), plus(b, offset)) == manhattan(a, b),
{
}

/// The distance between two cells is the length of the offset between them.
pub proof fn lemma_distance_of_difference(a: MapPosition, b: MapPosition)
    requires
        difference_fits(a, b),
    ensures
        manhattan(a, b) == manhattan(minus(a, b), origin()),
{
}

/// Every neighbour of `center` touches it: it differs by at most one in each
/// coordinate and is not `center` itself, so it lies one king move away and
/// one or two orthogonal steps away.
pub proof fn lemma_neighbors_adjacent(center: MapPosition, i: int)
    requires
        has_all_neighbors(center),
        0 <= i < 8,
    ensures
        neighbor_cells(center).len() == 8,
        chebyshev(neighbor_cells(center)[i], center) == 1,
        1 <= manhattan(neighbor_cells(center)[i], center) <= 2,
        neighbor_cells(center)[i] != center,
{
}

/// The eight neighbours are eight different cells.
pub proof fn lemma_neighbors_distinct(center: MapPosition, i: int, j: int)
    requires
        has_all_neighbors(center),
        0 <= i < 8,
        0 <= j < 8,
        i != j,
    ensures
        neighbor_cells(center)[i] != neighbor_cells(center)[j],
{
}

/// Every cell one king move away from `center` is one of its neighbours.
pub proof fn lemma_neighbors_complete(center: MapPosition, p: MapPosition)
    requires
        has_all_neighbors(center),
        chebyshev(p, center) == 1,
    ensures
        neighbor_cells(center).contains(p),
{
    let cells = neighbor_cells(center);
    let dx: int = p.x - center.x;
    let dy: int = p.y - center.y;
    let i: int = if dx == 1 && dy == 1 {
        0
    } else if dx == 1 && dy == 0 {
        1
    } else if dx == 1 && dy == -1 {
        2
    } else if dx == 0 && dy == -1 {
        3
    } else if dx == -1 && dy == -1 {
        4
    } else if dx == -1 && dy == 0 {
        5
    } else if dx == -1 && dy == 1 {
        6
    } else {
        7
    };
    assert(cells[i] == p);
}

/// Building a cell from a pair keeps both numbers as they are: the cell made
/// from `(a, b)` has `x == a` and `y == b`, for every pair of `i32` values.
pub proof fn lemma_from_pair_keeps_coordinates(a: i32, b: i32)
    ensures
        <MapPosition as vstd::std_specs::convert::FromSpec<(i32, i32)>>::from_spec((a, b)).x == a,
        <MapPosition as vstd::std_specs::convert::FromSpec<(i32, i32)>>::from_spec((a, b)).y == b,
        <MapPosition as vstd::std_specs::convert::FromSpec<(i32, i32)>>::obeys_from_spec(),
{
}

/// Adding and subtracting cells works coordinate by coordinate, on the
/// integers: `(a + b).x == a.x + b.x`, `(a - b).y == a.y - b.y`, and so on.
pub proof fn lemma_arithmetic_per_coordinate(a: MapPosition, b: MapPosition)
    ensures
        sum_fits(a, b) <==> (i32::MIN <= a.x + b.x <= i32::MAX && i32::MIN <= a.y + b.y
            <= i32::MAX),
        difference_fits(a, b) <==> (i32::MIN <= a.x - b.x <= i32::MAX && i32::MIN <= a.y - b.y
            <= i32::MAX),
        sum_fits(a, b) ==> plus(a, b).x == a.x + b.x && plus(a, b).y == a.y + b.y,
        difference_fits(a, b) ==> minus(a, b).x == a.x - b.x && minus(a, b).y == a.y - b.y,
{
}

/// The distance between two cells is the number of columns between them
/// plus the number of rows between them: `|a.x - b.x| + |a.y - b.y|`. In
/// particular a cell `n` columns away on the same row is at distance `n`.
pub proof fn lemma_distance_is_columns_plus_rows(a: MapPosition, b: MapPosition)
    ensures
        manhattan(a, b) == (if a.x >= b.x {
            a.x - b.x
        } else {
            b.x - a.x
        }) + (if a.y >= b.y {
            a.y - b.y
        } else {
            b.y - a.y
        }),
        a.y == b.y && a.x >= b.x ==> manhattan(a, b) == a.x - b.x,
        a.x == b.x && a.y >= b.y ==> manhattan(a, b) == a.y - b.y,
{
}

/// The king-move distance is the larger of the column and row differences.
pub proof fn lemma_chebyshev_is_larger_difference(a: MapPosition, b: MapPosition)
    ensures
        chebyshev(a, b) >= (if a.x >= b.x { a.x - b.x } else { b.x - a.x }),
        chebyshev(a, b) >= (if a.y >= b.y { a.y - b.y } else { b.y - a.y }),
        chebyshev(a, b) == (if a.x >= b.x { a.x - b.x } else { b.x - a.x }) || chebyshev(a, b) == (
        if a.y >= b.y {
            a.y - b.y
        } else {
            b.y - a.y
        }),
{
}

/// The neighbours come in a fixed order, clockwise from the lower right one:
/// `(x+1, y+1)`, `(x+1, y)`, `(x+1, y-1)`, `(x, y-1)`, `(x-1, y-1)`,
/// `(x-1, y)`, `(x-1, y+1)`, `(x, y+1)`.
pub proof fn lemma_neighbors_order(center: MapPosition)
    requires
        has_all_neighbors(center),
    ensures
        neighbor_cells(center).len() == 8,
        neighbor_cells(center)[0].x == center.x + 1 && neighbor_cells(center)[0].y == center.y + 1,
        neighbor_cells(center)[1].x == center.x + 1 && neighbor_cells(center)[1].y == center.y,
        neighbor_cells(center)[2].x == center.x + 1 && neighbor_cells(center)[2].y == center.y - 1,
        neighbor_cells(center)[3].x == center.x && neighbor_cells(center)[3].y == center.y - 1,
        neighbor_cells(center)[4].x == center.x - 1 && neighbor_cells(center)[4].y == center.y - 1,
        neighbor_cells(center)[5].x == center.x - 1 && neighbor_cells(center)[5].y == center.y,
        neighbor_cells(center)[6].x == center.x - 1 && neighbor_cells(center)[6].y == center.y + 1,
        neighbor_cells(center)[7].x == center.x && neighbor_cells(center)[7].y == center.y + 1,
{
}

} // verus!
