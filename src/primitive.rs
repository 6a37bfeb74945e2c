//! The shapes that can be drawn, and the closed set of them that the command
//! buffer holds.
pub mod arrow;
pub mod ellipse;
pub mod line;
pub mod mesh;
pub mod path;
pub mod polygon;
pub mod quad;
pub mod rect;
pub mod text;
pub mod texture;
pub mod tri;

use self::arrow::Arrow;
use self::ellipse::Ellipse;
use self::line::Line;
use self::mesh::{MeshPrimitive, MeshVertexless};
use self::path::{Path, PathFill, PathInit};
use self::polygon::{Polygon, PolygonInit};
use self::quad::Quad;
use self::rect::Rect;
use self::text::Text;
use self::texture::Texture;
use self::tri::Tri;
use crate::properties::PathStroke;
use vstd::prelude::*;

verus! {

/// One configurable shape.
#[derive(Clone, Copy, Debug, PartialEq, Eq, Structural)]
pub enum Primitive {
    Arrow(Arrow),
    Ellipse(Ellipse),
    Line(Line),
    /// A mesh whose vertices are yet to be given.
    MeshVertexless(MeshVertexless),
    Mesh(MeshPrimitive),
    /// A path not yet told whether it is filled or stroked.
    PathInit(PathInit),
    /// A filled path whose points are yet to be given.
    PathFill(PathFill),
    /// A stroked path whose points are yet to be given.
    PathStroke(PathStroke),
    Path(Path),
    /// A polygon whose points are yet to be given.
    PolygonInit(PolygonInit),
    Polygon(Polygon),
    Quad(Quad),
    Rect(Rect),
    Text(Text),
    Texture(Texture),
    Tri(Tri),
}

/// A range `start..end` of one of the session's scratch buffers.
#[derive(Clone, Copy, Debug, PartialEq, Eq, Structural)]
pub struct Span {
    pub start: usize,
    pub end: usize,
}

/// Why a shape cannot be rendered as configured.
#[derive(Clone, Copy, Debug, PartialEq, Eq, Structural)]
pub enum RenderError {
    /// The shape was given a size along the z axis, which flat shapes do not support.
    UnsupportedConfiguration,
}

} // verus!
