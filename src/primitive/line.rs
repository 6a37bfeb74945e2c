//! A straight line between a start and an end point.
use crate::geom::{Point2, Point3, Scalar};
use crate::properties::{default_path_stroke, PathStroke, Position, Srgba, StrokeOptions, LineCap};
use vstd::prelude::*;

verus! {

/// A path of only two points, a start and an end.
#[derive(Clone, Copy, Debug, PartialEq, Eq, Structural)]
pub struct Line {
    pub path: PathStroke,
    pub start: Option<Point2>,
    pub end: Option<Point2>,
}

pub open spec fn default_line() -> Line {
    Line { path: default_path_stroke(), start: None, end: None }
}

pub open spec fn origin2() -> Point2 {
    Point2 { x: Scalar { raw: 0 }, y: Scalar { raw: 0 } }
}

impl Line {
    pub fn new() -> (r: Line)
        ensures
            r == default_line(),
    {
        Line { path: PathStroke::new(), start: None, end: None }
    }

    /// The line with the given stroke options.
    pub open spec fn with_opts(self, opts: StrokeOptions) -> Line {
        Line { path: PathStroke { opts, ..self.path }, ..self }
    }

    /// Set the stroke width.
    pub fn weight(self, weight: Scalar) -> (r: Line)
        ensures
            r == self.with_opts(StrokeOptions { line_width: weight, ..self.path.opts }),
    {
        self.map_path(StrokeOptions { line_width: weight, ..self.path.opts })
    }

    /// Set the largest distance allowed between the curve and its tessellation.
    pub fn tolerance(self, tolerance: Scalar) -> (r: Line)
        ensures
            r == self.with_opts(StrokeOptions { tolerance, ..self.path.opts }),
    {
        self.map_path(StrokeOptions { tolerance, ..self.path.opts })
    }

    /// Round both ends of the line.
    pub fn caps_round(self) -> (r: Line)
        ensures
            r == self.with_opts(StrokeOptions { start_cap: LineCap::Round, end_cap: LineCap::Round, ..self.path.opts }),
    {
        self.map_path(StrokeOptions { start_cap: LineCap::Round, end_cap: LineCap::Round, ..self.path.opts })
    }

    /// Specify the start point of the line.
    pub fn start(self, start: Point2) -> (r: Line)
        ensures
            r == (Line { start: Some(start), ..self }),
    {
        Line { start: Some(start), ..self }
    }

    /// Specify the end point of the line.
    pub fn end(self, end: Point2) -> (r: Line)
        ensures
            r == (Line { end: Some(end), ..self }),
    {
        Line { end: Some(end), ..self }
    }

    /// Specify the start and end points of the line.
    pub fn points(self, start: Point2, end: Point2) -> (r: Line)
        ensures
            r == (Line { start: Some(start), end: Some(end), ..self }),
    {
        self.start(start).end(end)
    }

    /// Stroke the line with the given color.
    pub fn color(self, color: Srgba) -> (r: Line)
        ensures
            r == (Line { path: PathStroke { color: Some(color), ..self.path }, ..self }),
    {
        Line { path: PathStroke { color: Some(color), ..self.path }, ..self }
    }

    /// Place the line's origin at the given point of the plane, keeping its depth.
    pub fn x_y(self, x: Scalar, y: Scalar) -> (r: Line)
        ensures
            r == (Line { path: PathStroke { position: Position { point: Point3 { x, y, ..self.path.position.point } }, ..self.path }, ..self }),
    {
        let point = Point3 { x, y, ..self.path.position.point };
        Line { path: PathStroke { position: Position { point }, ..self.path }, ..self }
    }

    /// Replace the stroke options of the inner path.
    fn map_path(self, opts: StrokeOptions) -> (r: Line)
        ensures
            r == self.with_opts(opts),
    {
        let Line { path, start, end } = self;
        let path = PathStroke { opts, ..path };
        Line { path, start, end }
    }

    /// The segment to stroke: the two ends, each the origin where unset, or
    /// nothing where they meet.
    pub open spec fn segment_spec(self) -> Option<(Point2, Point2)> {
        let a = match self.start { Some(p) => p, None => origin2() };
        let b = match self.end { Some(p) => p, None => origin2() };
        if a == b {
            None
        } else {
            Some((a, b))
        }
    }

    /// The segment to stroke, or `None` where the line has no length and so
    /// contributes no geometry.
    pub fn segment(&self) -> (r: Option<(Point2, Point2)>)
        ensures
            r == self.segment_spec(),
    {
        let zero = Point2 { x: Scalar { raw: 0 }, y: Scalar { raw: 0 } };
        let a = match self.start {
            Some(p) => p,
            None => zero,
        };
        let b = match self.end {
            Some(p) => p,
            None => zero,
        };
        if a == b {
            None
        } else {
            Some((a, b))
        }
    }
}

} // verus!
