//! What the outside world can ask of the viewer.

use vstd::prelude::*;
use crate::geometry::Vector;

verus! {

/// One request to the viewer. `M` is the kind of a pointer coordinate.
#[derive(Clone, Copy, Debug, PartialEq, Eq)]
pub enum Event<M> {
    /// Move the cursor one tile to the right.
    Right,
    /// Move the cursor one tile to the left.
    Left,
    /// Move the cursor one tile up.
    Up,
    /// Move the cursor one tile down.
    Down,
    /// Show one tile less along an axis.
    ZoomIn,
    /// Show one tile more along an axis.
    ZoomOut,
    /// The pointer is now at this place of the drawing surface.
    MouseMove(Vector<M>),
}

} // verus!
