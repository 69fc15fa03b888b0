//! What a host does with a terminal between two frames.

use vstd::prelude::*;

use crate::terminal::Terminal;
use crate::tile::Tile;

verus! {

/// Marks a terminal that is to be cleared after every frame in which it was
/// drawn.
#[derive(Clone, Copy, Debug, Default, PartialEq, Eq)]
pub struct ClearAfterRender;

/// Clears a terminal after a frame if it carries the mark and was changed
/// since the frame before; leaves it as it is otherwise.
pub fn clear_after_render(term: &mut Terminal, changed: bool, mark: Option<ClearAfterRender>)
    requires
        old(term).wf(),
    ensures
        final(term).wf(),
        final(term).same_frame(old(term)),
        changed && mark is Some ==> final(term)@ == Seq::new(
            old(term)@.len(),
            |i: int| old(term).spec_clear_tile(),
        ),
        !(changed && mark is Some) ==> final(term)@ == old(term)@,
{
    if changed && mark.is_some() {
        term.clear();
    }
}

} // verus!
