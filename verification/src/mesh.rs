//! What a renderer needs of a terminal, tile by tile: where the tile lies on
//! the grid, which cell of the tile sheet shows its glyph, and its colours.
//!
//! The data are built for all tiles or not at all: a glyph that the mapping
//! does not know is an error, and what was built before stays as it was.

use bevy::color::Color;
use vstd::prelude::*;

use crate::terminal::Terminal;
use crate::tile::Tile;
use crate::uv_mapping::{cell_corners, GridUvs, MissingGlyphError, UvMapping};

verus! {

/// One entry for each tile of a terminal, in the order of its tiles.
#[derive(Debug)]
pub struct MeshData {
    /// Column and row of the tile.
    pub positions: Vec<[i32; 2]>,
    /// The corners of the cell that shows the tile's glyph.
    pub uvs: Vec<GridUvs>,
    /// The tile's foreground colour.
    pub fg_colors: Vec<Color>,
    /// The tile's background colour.
    pub bg_colors: Vec<Color>,
}

/// The place of the first tile whose glyph has no cell, or the number of
/// tiles where every glyph has one.
pub open spec fn first_missing(tiles: Seq<Tile>, cells: Map<char, (u32, u32)>) -> int
    decreases tiles.len(),
{
    if tiles.len() == 0 {
        0
    } else if first_missing(tiles.drop_last(), cells) < tiles.len() - 1 {
        first_missing(tiles.drop_last(), cells)
    } else if cells.contains_key(tiles.last().glyph) {
        tiles.len() as int
    } else {
        tiles.len() - 1
    }
}

/// `first_missing` is the least place of a glyph without a cell.
pub proof fn lemma_first_missing(tiles: Seq<Tile>, cells: Map<char, (u32, u32)>)
    ensures
        0 <= first_missing(tiles, cells) <= tiles.len(),
        forall|i: int|
            0 <= i < first_missing(tiles, cells) ==> cells.contains_key((#[trigger] tiles[i]).glyph),
        first_missing(tiles, cells) < tiles.len() ==> !cells.contains_key(
            tiles[first_missing(tiles, cells)].glyph,
        ),
    decreases tiles.len(),
{
    if tiles.len() > 0 {
        lemma_first_missing(tiles.drop_last(), cells);
        assert forall|i: int| 0 <= i < first_missing(tiles, cells) implies cells.contains_key(
            (#[trigger] tiles[i]).glyph,
        ) by {
            if i < tiles.len() - 1 {
                assert(tiles.drop_last()[i] == tiles[i]);
            }
        }
        if first_missing(tiles.drop_last(), cells) < tiles.len() - 1 {
            assert(tiles.drop_last()[first_missing(tiles.drop_last(), cells)]
                == tiles[first_missing(tiles, cells)]);
        }
    }
}

impl MeshData {
    /// The data have no entry.
    pub open spec fn is_empty(&self) -> bool {
        &&& self.positions@.len() == 0
        &&& self.uvs@.len() == 0
        &&& self.fg_colors@.len() == 0
        &&& self.bg_colors@.len() == 0
    }

    /// The data show the first `count` of the given tiles of a grid that is
    /// `width` tiles wide, with the cells of the given mapping.
    pub open spec fn shows(
        &self,
        tiles: Seq<Tile>,
        count: int,
        width: int,
        cells: Map<char, (u32, u32)>,
        tile_count: (u32, u32),
    ) -> bool {
        &&& self.positions@.len() == count
        &&& self.uvs@.len() == count
        &&& self.fg_colors@.len() == count
        &&& self.bg_colors@.len() == count
        &&& forall|i: int|
            0 <= i < count ==> {
                &&& (#[trigger] self.positions@[i])[0] == i % width
                &&& self.positions@[i][1] == i / width
            }
        &&& forall|i: int| 0 <= i < count ==> cells.contains_key((#[trigger] tiles[i]).glyph)
        &&& forall|i: int|
            0 <= i < count ==> {
                &&& (#[trigger] self.uvs@[i]).spec_corners() == cell_corners(
                    cells[tiles[i].glyph].0 as int,
                    cells[tiles[i].glyph].1 as int,
                )
                &&& (self.uvs@[i].tile_count[0], self.uvs@[i].tile_count[1]) == tile_count
            }
        &&& forall|i: int| 0 <= i < count ==> #[trigger] self.fg_colors@[i] == tiles[i].fg_color
        &&& forall|i: int| 0 <= i < count ==> #[trigger] self.bg_colors@[i] == tiles[i].bg_color
    }

    /// Data without an entry.
    pub fn new() -> (mesh: MeshData)
        ensures
            mesh.is_empty(),
    {
        MeshData {
            positions: Vec::new(),
            uvs: Vec::new(),
            fg_colors: Vec::new(),
            bg_colors: Vec::new(),
        }
    }

    /// The data of a terminal. There are none if a tile shows a glyph that
    /// the mapping has no cell for: the error names the first such glyph.
    pub fn build(term: &Terminal, mapping: &UvMapping) -> (r: Result<MeshData, MissingGlyphError>)
        requires
            term.wf(),
            mapping.wf(),
        ensures
            first_missing(term@, mapping@) == term@.len() ==> r is Ok && r->Ok_0.shows(
                term@,
                term@.len() as int,
                term.spec_width() as int,
                mapping@,
                mapping.spec_tile_count(),
            ),
            first_missing(term@, mapping@) < term@.len() ==> r == Err::<
                MeshData,
                MissingGlyphError,
            >(MissingGlyphError { glyph: term@[first_missing(term@, mapping@)].glyph }),
    {
        let mut mesh = MeshData::new();
        let total = term.width() * term.height();
        let mut i: usize = 0;
        assert(term@.take(0) =~= Seq::<Tile>::empty());
        while i < total
            invariant
                term.wf(),
                mapping.wf(),
                total == term@.len(),
                i <= total,
                first_missing(term@.take(i as int), mapping@) == i,
                mesh.shows(
                    term@,
                    i as int,
                    term.spec_width() as int,
                    mapping@,
                    mapping.spec_tile_count(),
                ),
            decreases total - i,
        {
            let tile = term.slice()[i];
            assert(term@.take(i + 1).drop_last() =~= term@.take(i as int));
            assert(term@.take(i + 1).last() == term@[i as int]);
            assert(term.spec_width() >= 1) by (nonlinear_arith)
                requires
                    term.spec_width() * term.spec_height() > 0,
            ;
            match mapping.uvs_from_glyph(tile.glyph) {
                Ok(uvs) => {
                    let ghost before = mesh;
                    let position = term.transform_itl(i);
                    mesh.positions.push(position);
                    mesh.uvs.push(uvs);
                    mesh.fg_colors.push(tile.fg_color);
                    mesh.bg_colors.push(tile.bg_color);
                    proof {
                        assert(mapping@.contains_key(tile.glyph));
                        assert forall|j: int| 0 <= j < i + 1 implies {
                            &&& (#[trigger] mesh.positions@[j])[0] == j % (term.spec_width() as int)
                            &&& mesh.positions@[j][1] == j / (term.spec_width() as int)
                        } by {
                            if j < i {
                                assert(mesh.positions@[j] == before.positions@[j]);
                            }
                        }
                        assert forall|j: int| 0 <= j < i + 1 implies {
                            &&& (#[trigger] mesh.uvs@[j]).spec_corners() == cell_corners(
                                mapping@[term@[j].glyph].0 as int,
                                mapping@[term@[j].glyph].1 as int,
                            )
                            &&& (mesh.uvs@[j].tile_count[0], mesh.uvs@[j].tile_count[1])
                                == mapping.spec_tile_count()
                        } by {
                            if j < i {
                                assert(mesh.uvs@[j] == before.uvs@[j]);
                            }
                        }
                        assert forall|j: int| 0 <= j < i + 1 implies #[trigger] mesh.fg_colors@[j]
                            == term@[j].fg_color by {
                            if j < i {
                                assert(mesh.fg_colors@[j] == before.fg_colors@[j]);
                            }
                        }
                        assert forall|j: int| 0 <= j < i + 1 implies #[trigger] mesh.bg_colors@[j]
                            == term@[j].bg_color by {
                            if j < i {
                                assert(mesh.bg_colors@[j] == before.bg_colors@[j]);
                            }
                        }
                    }
                },
                Err(missing) => {
                    proof {
                        lemma_missing_stays(term@, mapping@, i as int);
                    }
                    return Err(missing);
                },
            }
            i = i + 1;
        }
        assert(term@.take(total as int) =~= term@);
        Ok(mesh)
    }

    /// Brings the data up to date with a terminal. Where nothing has changed
    /// since they were built, they stay as they are. Where something has,
    /// they are built anew; if that fails, they stay as they are too. The
    /// result says whether they were built anew.
    pub fn rebuild(&mut self, changed: bool, term: &Terminal, mapping: &UvMapping) -> (r: Result<
        bool,
        MissingGlyphError,
    >)
        requires
            term.wf(),
            mapping.wf(),
        ensures
            !changed ==> r == Ok::<bool, MissingGlyphError>(false) && *final(self) == *old(self),
            changed && first_missing(term@, mapping@) == term@.len() ==> r == Ok::<
                bool,
                MissingGlyphError,
            >(true) && final(self).shows(
                term@,
                term@.len() as int,
                term.spec_width() as int,
                mapping@,
                mapping.spec_tile_count(),
            ),
            changed && first_missing(term@, mapping@) < term@.len() ==> r == Err::<
                bool,
                MissingGlyphError,
            >(MissingGlyphError { glyph: term@[first_missing(term@, mapping@)].glyph })
                && *final(self) == *old(self),
    {
        if !changed {
            return Ok(false);
        }
        match MeshData::build(term, mapping) {
            Ok(mesh) => {
                *self = mesh;
                Ok(true)
            },
            Err(missing) => Err(missing),
        }
    }
}

/// Once a glyph without a cell was found at place `at`, and none before it,
/// it is the first of all the tiles.
pub proof fn lemma_missing_stays(tiles: Seq<Tile>, cells: Map<char, (u32, u32)>, at: int)
    requires
        0 <= at < tiles.len(),
        first_missing(tiles.take(at), cells) == at,
        !cells.contains_key(tiles[at].glyph),
    ensures
        first_missing(tiles, cells) == at,
    decreases tiles.len() - at,
{
    if tiles.len() == at + 1 {
        assert(tiles.drop_last() =~= tiles.take(at));
    } else {
        assert(tiles.drop_last().take(at) =~= tiles.take(at));
        lemma_missing_stays(tiles.drop_last(), cells, at);
    }
}

} // verus!
