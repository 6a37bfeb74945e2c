//! A line with a triangular head at its end.
use crate::geom::{Point2, Scalar};
use crate::primitive::line::{default_line, Line};
use crate::properties::Srgba;
use vstd::prelude::*;

verus! {

/// A line whose end carries a head; the head's size follows from the line's
/// weight where none is given.
#[derive(Clone, Copy, Debug, PartialEq, Eq, Structural)]
pub struct Arrow {
    pub line: Line,
    pub head_length: Option<Scalar>,
    pub head_width: Option<Scalar>,
}

pub open spec fn default_arrow() -> Arrow {
    Arrow { line: default_line(), head_length: None, head_width: None }
}

impl Arrow {
    pub fn new() -> (r: Arrow)
        ensures
            r == default_arrow(),
    {
        Arrow { line: Line::new(), head_length: None, head_width: None }
    }

    /// Set the stroke width of the shaft.
    pub fn weight(self, weight: Scalar) -> (r: Arrow)
        ensures
            r == (Arrow { line: self.line.with_opts(crate::properties::StrokeOptions { line_width: weight, ..self.line.path.opts }), ..self }),
    {
        Arrow { line: self.line.weight(weight), ..self }
    }

    /// Specify the start and end points; the head sits at the end.
    pub fn points(self, start: Point2, end: Point2) -> (r: Arrow)
        ensures
            r == (Arrow { line: Line { start: Some(start), end: Some(end), ..self.line }, ..self }),
    {
        Arrow { line: self.line.points(start, end), ..self }
    }

    /// Color the arrow.
    pub fn color(self, color: Srgba) -> (r: Arrow)
        ensures
            r == (Arrow { line: Line { path: crate::properties::PathStroke { color: Some(color), ..self.line.path }, ..self.line }, ..self }),
    {
        Arrow { line: self.line.color(color), ..self }
    }

    /// The length of the head, along the line.
    pub fn head_length(self, length: Scalar) -> (r: Arrow)
        ensures
            r == (Arrow { head_length: Some(length), ..self }),
    {
        Arrow { head_length: Some(length), ..self }
    }

    /// The width of the head, across the line.
    pub fn head_width(self, width: Scalar) -> (r: Arrow)
        ensures
            r == (Arrow { head_width: Some(width), ..self }),
    {
        Arrow { head_width: Some(width), ..self }
    }
}

} // verus!
