//! The choices that keep a terminal's place in the world up to date: which
//! camera it is seen through, and which part of the screen that camera draws
//! to. The host measures; these functions decide.

use vstd::prelude::*;

verus! {

/// How the size of a tile in the world is found.
#[derive(Clone, Copy, Debug, PartialEq, Eq)]
pub enum TileScaling {
    /// Every tile is one world unit wide and high.
    World,
    /// Every tile is as large as its cell of the tile sheet has pixels.
    Pixels,
}

/// The camera that a terminal is seen through: the one it is bound to, else
/// the first that the host lists, if it lists any.
pub fn choose_camera(bound: Option<u64>, cameras: &[u64]) -> (chosen: Option<u64>)
    ensures
        bound is Some ==> chosen == bound,
        bound is None && cameras@.len() > 0 ==> chosen == Some(cameras@[0]),
        bound is None && cameras@.len() == 0 ==> chosen is None,
{
    match bound {
        Some(camera) => Some(camera),
        None => if cameras.len() > 0 {
            Some(cameras[0])
        } else {
            None
        },
    }
}

/// The part of the screen that a camera draws to, as its origin and its size.
/// A camera with a viewport of its own draws to that. One without draws from
/// `zero`, the screen's origin, over the whole of its target, whose size is
/// known only once the host has resolved the target.
pub fn resolve_viewport<T>(viewport: Option<(T, T)>, zero: T, target_size: Option<T>) -> (r: (
    T,
    Option<T>,
))
    ensures
        viewport matches Some(v) ==> r == (v.0, Some(v.1)),
        viewport is None ==> r == (zero, target_size),
{
    match viewport {
        Some((origin, size)) => (origin, Some(size)),
        None => (zero, target_size),
    }
}

/// The size of a tile in the world: one unit each way, or the pixels of its
/// cell.
pub fn world_unit(scaling: TileScaling, pixels_per_tile: [u32; 2]) -> (unit: [u32; 2])
    ensures
        unit@ == match scaling {
            TileScaling::World => seq![1u32, 1u32],
            TileScaling::Pixels => pixels_per_tile@,
        },
{
    match scaling {
        TileScaling::World => {
            let unit: [u32; 2] = [1, 1];
            assert(unit@ =~= seq![1u32, 1u32]);
            unit
        },
        TileScaling::Pixels => pixels_per_tile,
    }
}

} // verus!
