//! Polygons: started without points, then given points, which are kept with
//! their colors in the session's scratch buffer.
use crate::primitive::Span;
use crate::properties::{default_polygon, PolygonOptions};
use vstd::prelude::*;

verus! {

/// A polygon whose points are yet to be given.
#[derive(Clone, Copy, Debug, PartialEq, Eq, Structural)]
pub struct PolygonInit {
    pub opts: PolygonOptions,
}

/// A polygon with its points: the entries `points` of the colored point buffer.
#[derive(Clone, Copy, Debug, PartialEq, Eq, Structural)]
pub struct Polygon {
    pub opts: PolygonOptions,
    pub points: Span,
}

impl PolygonInit {
    pub fn new() -> (r: PolygonInit)
        ensures
            r == (PolygonInit { opts: default_polygon() }),
    {
        PolygonInit { opts: PolygonOptions::new() }
    }
}

} // verus!
