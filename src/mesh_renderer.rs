//! What each shape contributes to a triangle mesh, before tessellation: the
//! outline to fill or the segment to stroke, in the shape's own frame, or
//! nothing at all.
use crate::geom::{Point2, Scalar};
use crate::primitive::ellipse::Ellipse;
use crate::primitive::quad::Corners;
use crate::primitive::tri::TriCorners;
use crate::primitive::path::PathMode;
use crate::primitive::{Primitive, RenderError, Span};
use vstd::prelude::*;

verus! {

/// The geometry a shape hands to the tessellator.
#[derive(Clone, Copy, Debug, PartialEq, Eq, Structural)]
pub enum MeshGeometry {
    /// An ellipse centred on the origin, flattened within the stroke tolerance.
    Ellipse { w: Scalar, h: Scalar },
    /// An ellipse centred on the origin, as a polygon of `sides` sides.
    EllipsePolygon { w: Scalar, h: Scalar, sides: usize },
    /// A rectangle centred on the origin.
    Rect { w: Scalar, h: Scalar },
    /// A filled quad.
    Quad(Corners),
    /// A filled triangle.
    Tri(TriCorners),
    /// A stroked segment.
    Segment { from: Point2, to: Point2 },
    /// A stroked segment with a head at its end.
    Arrow { from: Point2, to: Point2 },
    /// A path made of the given events of the path event buffer.
    Path { mode: PathMode, events: Span },
    /// A filled polygon through the given entries of the colored point buffer.
    Polygon(Span),
    /// Triangles of the scratch mesh: the given vertices and indices.
    Mesh { vertices: Span, indices: Span },
    /// The given characters of the text buffer.
    Text(Span),
    /// The texture with the given handle.
    Texture(u64),
}

/// What an ellipse contributes: nothing where both its sides are zero,
/// whatever its resolution.
pub open spec fn ellipse_geometry(e: Ellipse) -> Option<MeshGeometry> {
    let (w, h) = e.size_spec();
    if w.val() == 0 && h.val() == 0 {
        None
    } else {
        match e.resolution {
            None => Some(MeshGeometry::Ellipse { w, h }),
            Some(sides) => Some(MeshGeometry::EllipsePolygon { w, h, sides }),
        }
    }
}

/// What a shape contributes to a mesh: `None` where it contributes nothing
/// (an ellipse of zero size, a line without length, a path, polygon or mesh
/// not yet given its points), an error where a flat shape was given a depth.
pub open spec fn geometry_spec(p: Primitive) -> Result<Option<MeshGeometry>, RenderError> {
    match p {
        Primitive::Ellipse(e) => if e.dimensions.z is Some {
            Err(RenderError::UnsupportedConfiguration)
        } else {
            Ok(ellipse_geometry(e))
        },
        Primitive::Rect(r) => if r.dimensions.z is Some {
            Err(RenderError::UnsupportedConfiguration)
        } else {
            Ok(Some(MeshGeometry::Rect { w: r.size_spec().0, h: r.size_spec().1 }))
        },
        Primitive::Quad(q) => Ok(Some(MeshGeometry::Quad(q.vertices_spec()))),
        Primitive::Tri(t) => Ok(Some(MeshGeometry::Tri(t.tri))),
        Primitive::Line(l) => Ok(
            match l.segment_spec() {
                Some((from, to)) => Some(MeshGeometry::Segment { from, to }),
                None => None,
            },
        ),
        Primitive::Path(p) => Ok(Some(MeshGeometry::Path { mode: p.mode, events: p.events })),
        Primitive::Polygon(p) => Ok(Some(MeshGeometry::Polygon(p.points))),
        Primitive::Mesh(m) => Ok(Some(MeshGeometry::Mesh { vertices: m.vertices, indices: m.indices })),
        Primitive::Text(t) => Ok(Some(MeshGeometry::Text(t.text))),
        Primitive::Texture(t) => Ok(Some(MeshGeometry::Texture(t.view))),
        Primitive::PathInit(_) => Ok(None),
        Primitive::PathFill(_) => Ok(None),
        Primitive::PathStroke(_) => Ok(None),
        Primitive::PolygonInit(_) => Ok(None),
        Primitive::MeshVertexless(_) => Ok(None),
        Primitive::Arrow(a) => Ok(
            match a.line.segment_spec() {
                Some((from, to)) => Some(MeshGeometry::Arrow { from, to }),
                None => None,
            },
        ),
    }
}

/// What a shape contributes to a mesh, or `None` where it contributes nothing.
pub fn mesh_geometry(p: &Primitive) -> (r: Result<Option<MeshGeometry>, RenderError>)
    ensures
        r == geometry_spec(*p),
{
    match p {
        Primitive::Ellipse(e) => match e.size() {
            Err(err) => Err(err),
            Ok((w, h)) => {
                if w.raw == 0 && h.raw == 0 {
                    Ok(None)
                } else {
                    match e.resolution {
                        None => Ok(Some(MeshGeometry::Ellipse { w, h })),
                        Some(sides) => Ok(Some(MeshGeometry::EllipsePolygon { w, h, sides })),
                    }
                }
            },
        },
        Primitive::Rect(r) => match r.size() {
            Err(err) => Err(err),
            Ok((w, h)) => Ok(Some(MeshGeometry::Rect { w, h })),
        },
        Primitive::Quad(q) => Ok(Some(MeshGeometry::Quad(q.vertices()))),
        Primitive::Tri(t) => Ok(Some(MeshGeometry::Tri(t.tri))),
        Primitive::Line(l) => Ok(
            match l.segment() {
                Some((from, to)) => Some(MeshGeometry::Segment { from, to }),
                None => None,
            },
        ),
        Primitive::Path(p) => Ok(Some(MeshGeometry::Path { mode: p.mode, events: p.events })),
        Primitive::Polygon(p) => Ok(Some(MeshGeometry::Polygon(p.points))),
        Primitive::Mesh(m) => Ok(Some(MeshGeometry::Mesh { vertices: m.vertices, indices: m.indices })),
        Primitive::Text(t) => Ok(Some(MeshGeometry::Text(t.text))),
        Primitive::Texture(t) => Ok(Some(MeshGeometry::Texture(t.view))),
        Primitive::PathInit(_) => Ok(None),
        Primitive::PathFill(_) => Ok(None),
        Primitive::PathStroke(_) => Ok(None),
        Primitive::PolygonInit(_) => Ok(None),
        Primitive::MeshVertexless(_) => Ok(None),
        Primitive::Arrow(a) => Ok(
            match a.line.segment() {
                Some((from, to)) => Some(MeshGeometry::Arrow { from, to }),
                None => None,
            },
        ),
    }
}

} // verus!
