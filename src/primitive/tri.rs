//! A triangle given by its three corners.
use crate::geom::{Point2, Scalar};
use crate::properties::{default_polygon, no_dimensions, Dimensions, PolygonOptions, Srgba};
use vstd::prelude::*;

verus! {

/// The three corners of a triangle.
#[derive(Clone, Copy, Debug, PartialEq, Eq, Structural)]
pub struct TriCorners {
    pub a: Point2,
    pub b: Point2,
    pub c: Point2,
}

/// Properties related to drawing a triangle.
#[derive(Clone, Copy, Debug, PartialEq, Eq, Structural)]
pub struct Tri {
    pub tri: TriCorners,
    pub polygon: PolygonOptions,
    pub dimensions: Dimensions,
}

/// The corners of the triangle drawn when none are given: one pointing
/// along the x axis, one hundred units wide.
pub open spec fn default_tri_corners() -> TriCorners {
    TriCorners {
        a: Point2 { x: Scalar { raw: -50_000_000i64 }, y: Scalar { raw: 33_000_000 } },
        b: Point2 { x: Scalar { raw: 50_000_000 }, y: Scalar { raw: 0 } },
        c: Point2 { x: Scalar { raw: -50_000_000i64 }, y: Scalar { raw: -33_000_000i64 } },
    }
}

pub open spec fn default_tri() -> Tri {
    Tri { tri: default_tri_corners(), polygon: default_polygon(), dimensions: no_dimensions() }
}

impl Tri {
    pub fn new() -> (r: Tri)
        ensures
            r == default_tri(),
    {
        let tri = TriCorners {
            a: Point2 { x: Scalar { raw: -50_000_000i64 }, y: Scalar { raw: 33_000_000i64 } },
            b: Point2 { x: Scalar { raw: 50_000_000i64 }, y: Scalar { raw: 0i64 } },
            c: Point2 { x: Scalar { raw: -50_000_000i64 }, y: Scalar { raw: -33_000_000i64 } },
        };
        Tri { tri, polygon: PolygonOptions::new(), dimensions: Dimensions::new() }
    }

    /// Use the given points as the corners of the triangle.
    pub fn points(self, a: Point2, b: Point2, c: Point2) -> (r: Tri)
        ensures
            r == (Tri { tri: TriCorners { a, b, c }, ..self }),
    {
        Tri { tri: TriCorners { a, b, c }, ..self }
    }

    /// Stroke the outline with the given color.
    pub fn stroke(self, color: Srgba) -> (r: Tri)
        ensures
            r == (Tri { polygon: self.polygon.stroke_color_spec(color), ..self }),
    {
        Tri { polygon: self.polygon.stroke_color(color), ..self }
    }

    /// Fill with the given color.
    pub fn color(self, color: Srgba) -> (r: Tri)
        ensures
            r == (Tri { polygon: self.polygon.color_spec(color), ..self }),
    {
        Tri { polygon: self.polygon.color(color), ..self }
    }

    /// Move the triangle to the given point of the plane, keeping its depth.
    pub fn x_y(self, x: Scalar, y: Scalar) -> (r: Tri)
        ensures
            r == (Tri { polygon: self.polygon.x_y_spec(x, y), ..self }),
    {
        Tri { polygon: self.polygon.x_y(x, y), ..self }
    }

    /// Set the width of the outline.
    pub fn stroke_weight(self, weight: Scalar) -> (r: Tri)
        ensures
            r == (Tri { polygon: self.polygon.stroke_weight_spec(weight), ..self }),
    {
        Tri { polygon: self.polygon.stroke_weight(weight), ..self }
    }
}

} // verus!
