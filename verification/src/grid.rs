//! The dense grid that holds a terminal's tiles. It is `sark_grids::Grid`,
//! which keeps its elements row by row in one vector, the bottom row first.
//! Everything in this file is taken on trust from that crate's source.

use sark_grids::Grid;
use vstd::prelude::*;

use crate::point::Side;
use crate::tile::Tile;

verus! {

#[verifier::external_type_specification]
#[verifier::external_body]
#[verifier::reject_recursive_types(T)]
pub struct ExGrid<T>(Grid<T>);

/// The tiles of a grid in the order in which it stores them: row by row from
/// the bottom, each row from the left.
pub uninterp spec fn grid_items(g: Grid<Tile>) -> Seq<Tile>;

/// The width and the height that a grid was made with.
pub uninterp spec fn grid_size(g: Grid<Tile>) -> (nat, nat);

/// `Grid::filled`: a grid of `size[0] * size[1]` copies of `value`. The crate
/// multiplies the two sides as `i32`, hence the bound.
#[verifier::external_body]
pub(crate) fn grid_filled(value: Tile, size: [u32; 2]) -> (g: Grid<Tile>)
    requires
        size[0] <= i32::MAX,
        size[1] <= i32::MAX,
        size[0] * size[1] <= i32::MAX,
    ensures
        grid_size(g) == (size[0] as nat, size[1] as nat),
        grid_items(g) == Seq::new((size[0] * size[1]) as nat, |i: int| value),
{
    Grid::filled(value, size)
}

/// `Grid::default`: a grid without tiles, of width and height zero.
#[verifier::external_body]
pub(crate) fn grid_empty() -> (g: Grid<Tile>)
    ensures
        grid_size(g) == (0nat, 0nat),
        grid_items(g) == Seq::<Tile>::empty(),
{
    Grid::default()
}

/// The grid's derived `Clone`, which clones its vector and copies its size.
#[verifier::external_body]
pub(crate) fn grid_clone(g: &Grid<Tile>) -> (copy: Grid<Tile>)
    ensures
        grid_size(copy) == grid_size(*g),
        grid_items(copy) == grid_items(*g),
{
    g.clone()
}

/// `Grid::transform_lti` on a point without a pivot: `y * width + x`, computed
/// in `usize` after casting both coordinates.
#[verifier::external_body]
pub(crate) fn grid_transform_lti(g: &Grid<Tile>, xy: [i32; 2]) -> (i: usize)
    requires
        0 <= xy[0],
        0 <= xy[1],
        xy[1] * grid_size(*g).0 + xy[0] <= usize::MAX,
    ensures
        i == xy[1] * grid_size(*g).0 + xy[0],
{
    g.transform_lti(xy)
}

/// `Grid::transform_itl`: the remainder and the quotient of the index by the
/// width, computed in `i32`.
#[verifier::external_body]
pub(crate) fn grid_transform_itl(g: &Grid<Tile>, i: usize) -> (xy: [i32; 2])
    requires
        0 < grid_size(*g).0 <= i32::MAX,
        i <= i32::MAX,
    ensures
        xy[0] == i as int % grid_size(*g).0 as int,
        xy[1] == i as int / grid_size(*g).0 as int,
{
    let p = g.transform_itl(i);
    [p.x, p.y]
}

/// `Grid::in_bounds` on a point without a pivot: neither coordinate is
/// negative, and each is below the side it runs along.
#[verifier::external_body]
pub(crate) fn grid_in_bounds(g: &Grid<Tile>, xy: [i32; 2]) -> (b: bool)
    requires
        grid_size(*g).0 <= i32::MAX,
        grid_size(*g).1 <= i32::MAX,
    ensures
        b == (0 <= xy[0] < grid_size(*g).0 && 0 <= xy[1] < grid_size(*g).1),
{
    g.in_bounds(xy)
}

/// `Grid::side_index`: zero for the left and the bottom side, the last column
/// for the right side and the last row for the top.
#[verifier::external_body]
pub(crate) fn grid_side_index(g: &Grid<Tile>, side: Side) -> (i: usize)
    requires
        grid_size(*g).0 >= 1,
        grid_size(*g).1 >= 1,
    ensures
        i == match side {
            Side::Left => 0,
            Side::Top => grid_size(*g).1 - 1,
            Side::Right => grid_size(*g).0 - 1,
            Side::Bottom => 0,
        },
{
    g.side_index(match side {
        Side::Left => sark_grids::grid::Side::Left,
        Side::Top => sark_grids::grid::Side::Top,
        Side::Right => sark_grids::grid::Side::Right,
        Side::Bottom => sark_grids::grid::Side::Bottom,
    })
}

/// Indexing a grid by a number: the tile at that place of its vector.
#[verifier::external_body]
pub(crate) fn grid_get(g: &Grid<Tile>, i: usize) -> (t: &Tile)
    requires
        i < grid_items(*g).len(),
    ensures
        *t == grid_items(*g)[i as int],
{
    &g[i]
}

/// Indexing a grid by a number for writing: whatever the caller leaves in the
/// tile is afterwards at that place, the rest of the grid stays.
#[verifier::external_body]
pub(crate) fn grid_get_mut(g: &mut Grid<Tile>, i: usize) -> (t: &mut Tile)
    requires
        i < grid_items(*old(g)).len(),
    ensures
        *t == grid_items(*old(g))[i as int],
        grid_items(*final(g)) == grid_items(*old(g)).update(i as int, *final(t)),
        grid_size(*final(g)) == grid_size(*old(g)),
{
    &mut g[i]
}

/// `Grid::slice`: the grid's vector as a slice.
#[verifier::external_body]
pub(crate) fn grid_slice(g: &Grid<Tile>) -> (s: &[Tile])
    ensures
        s@ == grid_items(*g),
{
    g.slice()
}

/// `Grid::slice_mut`: the grid's vector as a slice for writing. Whatever the
/// caller leaves in the slice is afterwards the grid's content.
#[verifier::external_body]
pub(crate) fn grid_slice_mut(g: &mut Grid<Tile>) -> (s: &mut [Tile])
    ensures
        s@ == grid_items(*old(g)),
        final(s)@.len() == s@.len(),
        grid_items(*final(g)) == final(s)@,
        grid_size(*final(g)) == grid_size(*old(g)),
{
    g.slice_mut()
}

/// `Grid::iter_rows_mut` on the one row `y`: that row as a slice for writing.
/// Whatever the caller leaves in the slice is afterwards row `y` of the grid,
/// and the rows below and above it stay.
#[verifier::external_body]
pub(crate) fn grid_row_mut(g: &mut Grid<Tile>, y: usize) -> (row: &mut [Tile])
    requires
        1 <= grid_size(*old(g)).0,
        (y + 1) * grid_size(*old(g)).0 <= grid_items(*old(g)).len(),
    ensures
        row@ == grid_items(*old(g)).subrange(
            y * grid_size(*old(g)).0,
            (y + 1) * grid_size(*old(g)).0,
        ),
        final(row)@.len() == row@.len(),
        grid_items(*final(g)) == grid_items(*old(g)).subrange(0, y * grid_size(*old(g)).0)
            + final(row)@ + grid_items(*old(g)).subrange(
            (y + 1) * grid_size(*old(g)).0,
            grid_items(*old(g)).len() as int,
        ),
        grid_size(*final(g)) == grid_size(*old(g)),
{
    g.iter_rows_mut(y..=y).next().unwrap()
}

/// `Grid::iter`, collected: all tiles in the order of the grid's vector.
#[verifier::external_body]
pub(crate) fn grid_tiles(g: &Grid<Tile>) -> (tiles: Vec<Tile>)
    ensures
        tiles@ == grid_items(*g),
{
    g.iter().copied().collect()
}

/// `Grid::iter_row`, collected: the tiles of row `y` from left to right.
#[verifier::external_body]
pub(crate) fn grid_row(g: &Grid<Tile>, y: usize) -> (row: Vec<Tile>)
    requires
        (y + 1) * grid_size(*g).0 <= grid_items(*g).len(),
    ensures
        row@ == grid_items(*g).subrange(y * grid_size(*g).0, (y + 1) * grid_size(*g).0),
{
    g.iter_row(y).copied().collect()
}

/// `Grid::iter_column`, collected: every `width`-th tile from place `x` on,
/// which is column `x` from the bottom to the top.
#[verifier::external_body]
pub(crate) fn grid_column(g: &Grid<Tile>, x: usize) -> (column: Vec<Tile>)
    requires
        x < grid_size(*g).0,
        1 <= grid_size(*g).1,
        grid_items(*g).len() == grid_size(*g).0 * grid_size(*g).1,
    ensures
        column@ == Seq::new(grid_size(*g).1, |j: int| grid_items(*g)[j * grid_size(*g).0 + x]),
{
    g.iter_column(x).copied().collect()
}

/// `Grid::iter_rows` on the range `start..end`, collected: the rows `start`
/// to `end - 1` from the bottom up, each from left to right.
#[verifier::external_body]
pub(crate) fn grid_rows(g: &Grid<Tile>, start: usize, end: usize) -> (rows: Vec<Vec<Tile>>)
    requires
        start < end,
        grid_size(*g).0 >= 1,
        end * grid_size(*g).0 <= grid_items(*g).len(),
    ensures
        rows@.len() == end - start,
        forall|k: int| 0 <= k < end - start ==> (#[trigger] rows@[k])@ == grid_items(*g).subrange(
            (start + k) * grid_size(*g).0,
            (start + k + 1) * grid_size(*g).0,
        ),
{
    g.iter_rows(start..end).map(|row| row.to_vec()).collect()
}

} // verus!
