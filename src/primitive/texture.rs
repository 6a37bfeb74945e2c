//! A texture drawn on a rectangle.
use crate::properties::{default_orientation, default_position, no_dimensions, Dimensions, Orientation, Position};
use vstd::prelude::*;

verus! {

/// A texture drawn on a rectangle. The texture itself lives with the GPU
/// backend; `view` is the backend's handle on it.
#[derive(Clone, Copy, Debug, PartialEq, Eq, Structural)]
pub struct Texture {
    pub view: u64,
    pub dimensions: Dimensions,
    pub position: Position,
    pub orientation: Orientation,
}

impl Texture {
    /// The texture with the given handle, at the origin, at its own size.
    pub fn new(view: u64) -> (r: Texture)
        ensures
            r == (Texture {
                view,
                dimensions: no_dimensions(),
                position: default_position(),
                orientation: default_orientation(),
            }),
    {
        Texture { view, dimensions: Dimensions::new(), position: Position::new(), orientation: Orientation::new() }
    }
}

} // verus!
