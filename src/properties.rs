//! Properties shared by the primitives: color, stroke, position, orientation
//! and dimensions.
use crate::geom::{Point3, Scalar};
use vstd::prelude::*;

verus! {

/// A color in the sRGB space with straight alpha, eight bits per channel.
#[derive(Clone, Copy, Debug, PartialEq, Eq, Structural)]
pub struct Srgba {
    pub red: u8,
    pub green: u8,
    pub blue: u8,
    pub alpha: u8,
}

impl Srgba {
    pub fn new(red: u8, green: u8, blue: u8, alpha: u8) -> (r: Srgba)
        ensures
            r == (Srgba { red, green, blue, alpha }),
    {
        Srgba { red, green, blue, alpha }
    }

    /// An opaque color.
    pub fn rgb(red: u8, green: u8, blue: u8) -> (r: Srgba)
        ensures
            r == (Srgba { red, green, blue, alpha: 255 }),
    {
        Srgba { red, green, blue, alpha: 255 }
    }
}

/// The shape drawn at the open ends of a stroke.
#[derive(Clone, Copy, Debug, PartialEq, Eq, Structural)]
pub enum LineCap {
    Butt,
    Square,
    Round,
}

/// The shape drawn where two stroked segments meet.
#[derive(Clone, Copy, Debug, PartialEq, Eq, Structural)]
pub enum LineJoin {
    Miter,
    MiterClip,
    Round,
    Bevel,
}

/// How an outline is stroked.
#[derive(Clone, Copy, Debug, PartialEq, Eq, Structural)]
pub struct StrokeOptions {
    pub start_cap: LineCap,
    pub end_cap: LineCap,
    pub line_join: LineJoin,
    pub line_width: Scalar,
    pub miter_limit: Scalar,
    pub tolerance: Scalar,
}

/// The stroke used when none is configured: one unit wide, butt caps,
/// mitered joins limited at four, a tolerance of a tenth of a unit.
pub open spec fn default_stroke() -> StrokeOptions {
    StrokeOptions {
        start_cap: LineCap::Butt,
        end_cap: LineCap::Butt,
        line_join: LineJoin::Miter,
        line_width: Scalar { raw: 1_000_000 },
        miter_limit: Scalar { raw: 4_000_000 },
        tolerance: Scalar { raw: 100_000 },
    }
}

impl StrokeOptions {
    pub fn new() -> (r: StrokeOptions)
        ensures
            r == default_stroke(),
    {
        StrokeOptions {
            start_cap: LineCap::Butt,
            end_cap: LineCap::Butt,
            line_join: LineJoin::Miter,
            line_width: Scalar { raw: 1_000_000i64 },
            miter_limit: Scalar { raw: 4_000_000i64 },
            tolerance: Scalar { raw: 100_000i64 },
        }
    }
}

/// Where a primitive is placed, relative to the context's transform.
#[derive(Clone, Copy, Debug, PartialEq, Eq, Structural)]
pub struct Position {
    pub point: Point3,
}

/// How a primitive is turned, relative to the context's transform.
#[derive(Clone, Copy, Debug, PartialEq, Eq, Structural)]
pub enum Orientation {
    /// Angles in radians about the x, y and z axes.
    Axes(Point3),
    /// Turned to face the given point.
    LookAt(Point3),
}

/// The size of a primitive along each axis, where one was given.
#[derive(Clone, Copy, Debug, PartialEq, Eq, Structural)]
pub struct Dimensions {
    pub x: Option<Scalar>,
    pub y: Option<Scalar>,
    pub z: Option<Scalar>,
}

pub open spec fn origin() -> Point3 {
    Point3 { x: Scalar { raw: 0 }, y: Scalar { raw: 0 }, z: Scalar { raw: 0 } }
}

pub open spec fn default_position() -> Position {
    Position { point: origin() }
}

pub open spec fn default_orientation() -> Orientation {
    Orientation::Axes(origin())
}

pub open spec fn no_dimensions() -> Dimensions {
    Dimensions { x: None, y: None, z: None }
}

pub fn origin_exec() -> (r: Point3)
    ensures
        r == origin(),
{
    Point3 { x: Scalar { raw: 0 }, y: Scalar { raw: 0 }, z: Scalar { raw: 0 } }
}

impl Position {
    pub fn new() -> (r: Position)
        ensures
            r == default_position(),
    {
        Position { point: origin_exec() }
    }
}

impl Orientation {
    pub fn new() -> (r: Orientation)
        ensures
            r == default_orientation(),
    {
        Orientation::Axes(origin_exec())
    }

    /// The angles about each axis: those given, or none where the orientation
    /// faces a point.
    pub open spec fn axes(self) -> Point3 {
        match self {
            Orientation::Axes(v) => v,
            Orientation::LookAt(_) => origin(),
        }
    }

    /// The orientation turned to `z` radians about the z axis, keeping the
    /// other angles.
    pub open spec fn z_radians_spec(self, z: Scalar) -> Orientation {
        Orientation::Axes(Point3 { z, ..self.axes() })
    }

    pub fn z_radians(self, z: Scalar) -> (r: Orientation)
        ensures
            r == self.z_radians_spec(z),
    {
        match self {
            Orientation::Axes(v) => Orientation::Axes(Point3 { z, ..v }),
            Orientation::LookAt(_) => Orientation::Axes(Point3 { z, ..origin_exec() }),
        }
    }
}

impl Dimensions {
    pub fn new() -> (r: Dimensions)
        ensures
            r == no_dimensions(),
    {
        Dimensions { x: None, y: None, z: None }
    }
}

/// Fill, stroke and placement of a polygon-like primitive.
#[derive(Clone, Copy, Debug, PartialEq, Eq, Structural)]
pub struct PolygonOptions {
    pub position: Position,
    pub orientation: Orientation,
    pub no_fill: bool,
    pub stroke_color: Option<Srgba>,
    pub color: Option<Srgba>,
    pub stroke: Option<StrokeOptions>,
}

pub open spec fn default_polygon() -> PolygonOptions {
    PolygonOptions {
        position: default_position(),
        orientation: default_orientation(),
        no_fill: false,
        stroke_color: None,
        color: None,
        stroke: None,
    }
}

impl PolygonOptions {
    pub fn new() -> (r: PolygonOptions)
        ensures
            r == default_polygon(),
    {
        PolygonOptions {
            position: Position::new(),
            orientation: Orientation::new(),
            no_fill: false,
            stroke_color: None,
            color: None,
            stroke: None,
        }
    }

    /// The stroke as configured, or the default stroke.
    pub open spec fn stroke_or_default(self) -> StrokeOptions {
        match self.stroke {
            Some(s) => s,
            None => default_stroke(),
        }
    }

    pub open spec fn stroke_weight_spec(self, weight: Scalar) -> PolygonOptions {
        PolygonOptions {
            stroke: Some(StrokeOptions { line_width: weight, ..self.stroke_or_default() }),
            ..self
        }
    }

    pub open spec fn color_spec(self, color: Srgba) -> PolygonOptions {
        PolygonOptions { color: Some(color), ..self }
    }

    pub open spec fn stroke_color_spec(self, color: Srgba) -> PolygonOptions {
        PolygonOptions { stroke_color: Some(color), ..self }
    }

    pub open spec fn x_y_spec(self, x: Scalar, y: Scalar) -> PolygonOptions {
        PolygonOptions { position: Position { point: Point3 { x, y, ..self.position.point } }, ..self }
    }

    pub open spec fn z_radians_spec(self, z: Scalar) -> PolygonOptions {
        PolygonOptions { orientation: self.orientation.z_radians_spec(z), ..self }
    }

    /// Fill with the given color.
    pub fn color(self, color: Srgba) -> (r: PolygonOptions)
        ensures
            r == self.color_spec(color),
    {
        PolygonOptions { color: Some(color), ..self }
    }

    /// Stroke the outline with the given color.
    pub fn stroke_color(self, color: Srgba) -> (r: PolygonOptions)
        ensures
            r == self.stroke_color_spec(color),
    {
        PolygonOptions { stroke_color: Some(color), ..self }
    }

    /// Move to the given point of the plane, keeping the depth.
    pub fn x_y(self, x: Scalar, y: Scalar) -> (r: PolygonOptions)
        ensures
            r == self.x_y_spec(x, y),
    {
        PolygonOptions { position: Position { point: Point3 { x, y, ..self.position.point } }, ..self }
    }

    /// Turn to `z` radians about the z axis.
    pub fn z_radians(self, z: Scalar) -> (r: PolygonOptions)
        ensures
            r == self.z_radians_spec(z),
    {
        PolygonOptions { orientation: self.orientation.z_radians(z), ..self }
    }

    /// Set the width of the stroke, starting from the default stroke where none was set.
    pub fn stroke_weight(self, weight: Scalar) -> (r: PolygonOptions)
        ensures
            r == self.stroke_weight_spec(weight),
    {
        let base = match self.stroke {
            Some(s) => s,
            None => StrokeOptions::new(),
        };
        PolygonOptions { stroke: Some(StrokeOptions { line_width: weight, ..base }), ..self }
    }
}

/// A stroked path's color, placement and stroke.
#[derive(Clone, Copy, Debug, PartialEq, Eq, Structural)]
pub struct PathStroke {
    pub opts: StrokeOptions,
    pub color: Option<Srgba>,
    pub position: Position,
    pub orientation: Orientation,
}

pub open spec fn default_path_stroke() -> PathStroke {
    PathStroke {
        opts: default_stroke(),
        color: None,
        position: default_position(),
        orientation: default_orientation(),
    }
}

impl PathStroke {
    pub fn new() -> (r: PathStroke)
        ensures
            r == default_path_stroke(),
    {
        PathStroke {
            opts: StrokeOptions::new(),
            color: None,
            position: Position::new(),
            orientation: Orientation::new(),
        }
    }
}

} // verus!
