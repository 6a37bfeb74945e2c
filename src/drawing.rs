//! Handles on shapes in progress: each is bound to the slot reserved for its
//! shape, and each of its methods changes the pending shape in that slot.
use crate::geom::{fits_i64, Point2, Point3, Scalar};
use crate::primitive::arrow::Arrow;
use crate::primitive::ellipse::Ellipse;
use crate::primitive::line::Line;
use crate::primitive::mesh::MeshPrimitive;
use crate::primitive::path::{stroked_with_events, stroked_with_events_exec};
use crate::primitive::polygon::Polygon;
use crate::primitive::quad::{Corners, Quad};
use crate::primitive::rect::Rect as RectShape;
use crate::primitive::tri::{Tri, TriCorners};
use crate::primitive::{Primitive, Span};
use crate::svg_renderer::fill_spec;
use crate::properties::{Dimensions, LineCap, PathStroke, Position, Srgba, StrokeOptions};
use crate::state::State;
use vstd::prelude::*;

verus! {

/// A handle on the shape in progress in one slot, whatever its kind.
#[derive(Clone, Copy, Debug, PartialEq, Eq, Structural)]
pub struct Drawing {
    index: usize,
}

impl Drawing {
    /// The slot reserved for the shape.
    pub closed spec fn index(&self) -> usize {
        self.index
    }

    pub(crate) fn new(index: usize) -> (r: Drawing)
        ensures
            r.index() == index,
    {
        Drawing { index }
    }

    /// The slot reserved for the shape.
    pub fn slot(&self) -> (r: usize)
        ensures
            r == self.index(),
    {
        self.index
    }

    /// Finish the shape: it is recorded in its slot and can no longer change.
    pub fn finish(self, state: &mut State)
        requires
            old(state).wf(),
        ensures
            final(state).wf(),
            final(state)@ == old(state)@.finish_one(self.index()),
    {
        state.finish_drawing(self.index);
    }
}

/// A handle on an ellipse in progress.
#[derive(Clone, Copy, Debug, PartialEq, Eq, Structural)]
pub struct DrawingEllipse {
    index: usize,
}

impl DrawingEllipse {
    /// The slot reserved for the shape.
    pub closed spec fn index(&self) -> usize {
        self.index
    }

    pub(crate) fn new(index: usize) -> (r: DrawingEllipse)
        ensures
            r.index() == index,
    {
        DrawingEllipse { index }
    }

    /// The slot reserved for the shape.
    pub fn slot(&self) -> (r: usize)
        ensures
            r == self.index(),
    {
        self.index
    }

    /// Finish the shape: it is recorded in its slot and can no longer change.
    pub fn finish(self, state: &mut State)
        requires
            old(state).wf(),
        ensures
            final(state).wf(),
            final(state)@ == old(state)@.finish_one(self.index()),
    {
        state.finish_drawing(self.index);
    }

    /// Stroke the outline with the given color.
    pub fn stroke(self, state: &mut State, color: Srgba) -> (r: DrawingEllipse)
        requires
            old(state).wf(),
        ensures
            final(state).wf(),
            r == self,
            final(state)@ == old(state)@.map_pending(
                self.index(),
                |p: Primitive|
                    match p {
                        Primitive::Ellipse(e) => Primitive::Ellipse(Ellipse { polygon: e.polygon.stroke_color_spec(color), ..e }),
                        _ => p,
                    },
            ),
    {
        if let Some(p) = state.pending_primitive(self.index) {
            let q = match p {
                Primitive::Ellipse(e) => Primitive::Ellipse(e.stroke(color)),
                _ => p,
            };
            state.edit_pending(self.index, q);
        }
        self
    }

    /// Specify the width and height through a radius.
    pub fn radius(self, state: &mut State, radius: Scalar) -> (r: DrawingEllipse)
        requires
            old(state).wf(),
            fits_i64(2 * radius.val()),
        ensures
            final(state).wf(),
            r == self,
            final(state)@ == old(state)@.map_pending(
                self.index(),
                |p: Primitive|
                    match p {
                        Primitive::Ellipse(e) => Primitive::Ellipse(e.w_h_spec(Scalar { raw: (2 * radius.val()) as i64 }, Scalar { raw: (2 * radius.val()) as i64 })),
                        _ => p,
                    },
            ),
    {
        if let Some(p) = state.pending_primitive(self.index) {
            let q = match p {
                Primitive::Ellipse(e) => Primitive::Ellipse(e.radius(radius)),
                _ => p,
            };
            state.edit_pending(self.index, q);
        }
        self
    }

    /// The number of sides used to draw the ellipse.
    pub fn resolution(self, state: &mut State, resolution: usize) -> (r: DrawingEllipse)
        requires
            old(state).wf(),
        ensures
            final(state).wf(),
            r == self,
            final(state)@ == old(state)@.map_pending(
                self.index(),
                |p: Primitive|
                    match p {
                        Primitive::Ellipse(e) => Primitive::Ellipse(Ellipse { resolution: Some(resolution), ..e }),
                        _ => p,
                    },
            ),
    {
        if let Some(p) = state.pending_primitive(self.index) {
            let q = match p {
                Primitive::Ellipse(e) => Primitive::Ellipse(e.resolution(resolution)),
                _ => p,
            };
            state.edit_pending(self.index, q);
        }
        self
    }

    /// Specify the width and height.
    pub fn w_h(self, state: &mut State, w: Scalar, h: Scalar) -> (r: DrawingEllipse)
        requires
            old(state).wf(),
        ensures
            final(state).wf(),
            r == self,
            final(state)@ == old(state)@.map_pending(
                self.index(),
                |p: Primitive|
                    match p {
                        Primitive::Ellipse(e) => Primitive::Ellipse(e.w_h_spec(w, h)),
                        _ => p,
                    },
            ),
    {
        if let Some(p) = state.pending_primitive(self.index) {
            let q = match p {
                Primitive::Ellipse(e) => Primitive::Ellipse(e.w_h(w, h)),
                _ => p,
            };
            state.edit_pending(self.index, q);
        }
        self
    }

    /// Fill with the given color.
    pub fn color(self, state: &mut State, color: Srgba) -> (r: DrawingEllipse)
        requires
            old(state).wf(),
        ensures
            final(state).wf(),
            r == self,
            final(state)@ == old(state)@.map_pending(
                self.index(),
                |p: Primitive|
                    match p {
                        Primitive::Ellipse(e) => Primitive::Ellipse(Ellipse { polygon: e.polygon.color_spec(color), ..e }),
                        _ => p,
                    },
            ),
    {
        if let Some(p) = state.pending_primitive(self.index) {
            let q = match p {
                Primitive::Ellipse(e) => Primitive::Ellipse(e.color(color)),
                _ => p,
            };
            state.edit_pending(self.index, q);
        }
        self
    }

    /// Center on the given point of the plane.
    pub fn x_y(self, state: &mut State, x: Scalar, y: Scalar) -> (r: DrawingEllipse)
        requires
            old(state).wf(),
        ensures
            final(state).wf(),
            r == self,
            final(state)@ == old(state)@.map_pending(
                self.index(),
                |p: Primitive|
                    match p {
                        Primitive::Ellipse(e) => Primitive::Ellipse(Ellipse { polygon: e.polygon.x_y_spec(x, y), ..e }),
                        _ => p,
                    },
            ),
    {
        if let Some(p) = state.pending_primitive(self.index) {
            let q = match p {
                Primitive::Ellipse(e) => Primitive::Ellipse(e.x_y(x, y)),
                _ => p,
            };
            state.edit_pending(self.index, q);
        }
        self
    }

    /// Set the width of the outline.
    pub fn stroke_weight(self, state: &mut State, weight: Scalar) -> (r: DrawingEllipse)
        requires
            old(state).wf(),
        ensures
            final(state).wf(),
            r == self,
            final(state)@ == old(state)@.map_pending(
                self.index(),
                |p: Primitive|
                    match p {
                        Primitive::Ellipse(e) => Primitive::Ellipse(Ellipse { polygon: e.polygon.stroke_weight_spec(weight), ..e }),
                        _ => p,
                    },
            ),
    {
        if let Some(p) = state.pending_primitive(self.index) {
            let q = match p {
                Primitive::Ellipse(e) => Primitive::Ellipse(e.stroke_weight(weight)),
                _ => p,
            };
            state.edit_pending(self.index, q);
        }
        self
    }
}

/// A handle on a line in progress.
#[derive(Clone, Copy, Debug, PartialEq, Eq, Structural)]
pub struct DrawingLine {
    index: usize,
}

impl DrawingLine {
    /// The slot reserved for the shape.
    pub closed spec fn index(&self) -> usize {
        self.index
    }

    pub(crate) fn new(index: usize) -> (r: DrawingLine)
        ensures
            r.index() == index,
    {
        DrawingLine { index }
    }

    /// The slot reserved for the shape.
    pub fn slot(&self) -> (r: usize)
        ensures
            r == self.index(),
    {
        self.index
    }

    /// Finish the shape: it is recorded in its slot and can no longer change.
    pub fn finish(self, state: &mut State)
        requires
            old(state).wf(),
        ensures
            final(state).wf(),
            final(state)@ == old(state)@.finish_one(self.index()),
    {
        state.finish_drawing(self.index);
    }

    /// Set the stroke width.
    pub fn weight(self, state: &mut State, weight: Scalar) -> (r: DrawingLine)
        requires
            old(state).wf(),
        ensures
            final(state).wf(),
            r == self,
            final(state)@ == old(state)@.map_pending(
                self.index(),
                |p: Primitive|
                    match p {
                        Primitive::Line(e) => Primitive::Line(e.with_opts(StrokeOptions { line_width: weight, ..e.path.opts })),
                        _ => p,
                    },
            ),
    {
        if let Some(p) = state.pending_primitive(self.index) {
            let q = match p {
                Primitive::Line(e) => Primitive::Line(e.weight(weight)),
                _ => p,
            };
            state.edit_pending(self.index, q);
        }
        self
    }

    /// Set the largest distance allowed between the line and its tessellation.
    pub fn tolerance(self, state: &mut State, tolerance: Scalar) -> (r: DrawingLine)
        requires
            old(state).wf(),
        ensures
            final(state).wf(),
            r == self,
            final(state)@ == old(state)@.map_pending(
                self.index(),
                |p: Primitive|
                    match p {
                        Primitive::Line(e) => Primitive::Line(e.with_opts(StrokeOptions { tolerance, ..e.path.opts })),
                        _ => p,
                    },
            ),
    {
        if let Some(p) = state.pending_primitive(self.index) {
            let q = match p {
                Primitive::Line(e) => Primitive::Line(e.tolerance(tolerance)),
                _ => p,
            };
            state.edit_pending(self.index, q);
        }
        self
    }

    /// Round both ends of the line.
    pub fn caps_round(self, state: &mut State) -> (r: DrawingLine)
        requires
            old(state).wf(),
        ensures
            final(state).wf(),
            r == self,
            final(state)@ == old(state)@.map_pending(
                self.index(),
                |p: Primitive|
                    match p {
                        Primitive::Line(e) => Primitive::Line(e.with_opts(StrokeOptions { start_cap: LineCap::Round, end_cap: LineCap::Round, ..e.path.opts })),
                        _ => p,
                    },
            ),
    {
        if let Some(p) = state.pending_primitive(self.index) {
            let q = match p {
                Primitive::Line(e) => Primitive::Line(e.caps_round()),
                _ => p,
            };
            state.edit_pending(self.index, q);
        }
        self
    }

    /// Specify the start point of the line.
    pub fn start(self, state: &mut State, start: Point2) -> (r: DrawingLine)
        requires
            old(state).wf(),
        ensures
            final(state).wf(),
            r == self,
            final(state)@ == old(state)@.map_pending(
                self.index(),
                |p: Primitive|
                    match p {
                        Primitive::Line(e) => Primitive::Line(Line { start: Some(start), ..e }),
                        _ => p,
                    },
            ),
    {
        if let Some(p) = state.pending_primitive(self.index) {
            let q = match p {
                Primitive::Line(e) => Primitive::Line(e.start(start)),
                _ => p,
            };
            state.edit_pending(self.index, q);
        }
        self
    }

    /// Specify the end point of the line.
    pub fn end(self, state: &mut State, end: Point2) -> (r: DrawingLine)
        requires
            old(state).wf(),
        ensures
            final(state).wf(),
            r == self,
            final(state)@ == old(state)@.map_pending(
                self.index(),
                |p: Primitive|
                    match p {
                        Primitive::Line(e) => Primitive::Line(Line { end: Some(end), ..e }),
                        _ => p,
                    },
            ),
    {
        if let Some(p) = state.pending_primitive(self.index) {
            let q = match p {
                Primitive::Line(e) => Primitive::Line(e.end(end)),
                _ => p,
            };
            state.edit_pending(self.index, q);
        }
        self
    }

    /// Specify the start and end points of the line.
    pub fn points(self, state: &mut State, start: Point2, end: Point2) -> (r: DrawingLine)
        requires
            old(state).wf(),
        ensures
            final(state).wf(),
            r == self,
            final(state)@ == old(state)@.map_pending(
                self.index(),
                |p: Primitive|
                    match p {
                        Primitive::Line(e) => Primitive::Line(Line { start: Some(start), end: Some(end), ..e }),
                        _ => p,
                    },
            ),
    {
        if let Some(p) = state.pending_primitive(self.index) {
            let q = match p {
                Primitive::Line(e) => Primitive::Line(e.points(start, end)),
                _ => p,
            };
            state.edit_pending(self.index, q);
        }
        self
    }

    /// Stroke with the given color.
    pub fn color(self, state: &mut State, color: Srgba) -> (r: DrawingLine)
        requires
            old(state).wf(),
        ensures
            final(state).wf(),
            r == self,
            final(state)@ == old(state)@.map_pending(
                self.index(),
                |p: Primitive|
                    match p {
                        Primitive::Line(e) => Primitive::Line(Line { path: PathStroke { color: Some(color), ..e.path }, ..e }),
                        _ => p,
                    },
            ),
    {
        if let Some(p) = state.pending_primitive(self.index) {
            let q = match p {
                Primitive::Line(e) => Primitive::Line(e.color(color)),
                _ => p,
            };
            state.edit_pending(self.index, q);
        }
        self
    }

    /// Place the line's origin at the given point of the plane.
    pub fn x_y(self, state: &mut State, x: Scalar, y: Scalar) -> (r: DrawingLine)
        requires
            old(state).wf(),
        ensures
            final(state).wf(),
            r == self,
            final(state)@ == old(state)@.map_pending(
                self.index(),
                |p: Primitive|
                    match p {
                        Primitive::Line(e) => Primitive::Line(Line { path: PathStroke { position: Position { point: Point3 { x, y, ..e.path.position.point } }, ..e.path }, ..e }),
                        _ => p,
                    },
            ),
    {
        if let Some(p) = state.pending_primitive(self.index) {
            let q = match p {
                Primitive::Line(e) => Primitive::Line(e.x_y(x, y)),
                _ => p,
            };
            state.edit_pending(self.index, q);
        }
        self
    }
}

/// A handle on a quad in progress.
#[derive(Clone, Copy, Debug, PartialEq, Eq, Structural)]
pub struct DrawingQuad {
    index: usize,
}

impl DrawingQuad {
    /// The slot reserved for the shape.
    pub closed spec fn index(&self) -> usize {
        self.index
    }

    pub(crate) fn new(index: usize) -> (r: DrawingQuad)
        ensures
            r.index() == index,
    {
        DrawingQuad { index }
    }

    /// The slot reserved for the shape.
    pub fn slot(&self) -> (r: usize)
        ensures
            r == self.index(),
    {
        self.index
    }

    /// Finish the shape: it is recorded in its slot and can no longer change.
    pub fn finish(self, state: &mut State)
        requires
            old(state).wf(),
        ensures
            final(state).wf(),
            final(state)@ == old(state)@.finish_one(self.index()),
    {
        state.finish_drawing(self.index);
    }

    /// Stretch the corners to the given width and height when drawn.
    pub fn w_h(self, state: &mut State, w: Scalar, h: Scalar) -> (r: DrawingQuad)
        requires
            old(state).wf(),
        ensures
            final(state).wf(),
            r == self,
            final(state)@ == old(state)@.map_pending(
                self.index(),
                |p: Primitive|
                    match p {
                        Primitive::Quad(e) => Primitive::Quad(Quad { dimensions: Dimensions { x: Some(w), y: Some(h), ..e.dimensions }, ..e }),
                        _ => p,
                    },
            ),
    {
        if let Some(p) = state.pending_primitive(self.index) {
            let q = match p {
                Primitive::Quad(e) => Primitive::Quad(e.w_h(w, h)),
                _ => p,
            };
            state.edit_pending(self.index, q);
        }
        self
    }

    /// Use the given points as the corners of the quad.
    pub fn points(self, state: &mut State, a: Point2, b: Point2, c: Point2, d: Point2) -> (r: DrawingQuad)
        requires
            old(state).wf(),
        ensures
            final(state).wf(),
            r == self,
            final(state)@ == old(state)@.map_pending(
                self.index(),
                |p: Primitive|
                    match p {
                        Primitive::Quad(e) => Primitive::Quad(Quad { quad: Corners { a, b, c, d }, ..e }),
                        _ => p,
                    },
            ),
    {
        if let Some(p) = state.pending_primitive(self.index) {
            let q = match p {
                Primitive::Quad(e) => Primitive::Quad(e.points(a, b, c, d)),
                _ => p,
            };
            state.edit_pending(self.index, q);
        }
        self
    }

    /// Stroke the outline with the given color.
    pub fn stroke(self, state: &mut State, color: Srgba) -> (r: DrawingQuad)
        requires
            old(state).wf(),
        ensures
            final(state).wf(),
            r == self,
            final(state)@ == old(state)@.map_pending(
                self.index(),
                |p: Primitive|
                    match p {
                        Primitive::Quad(e) => Primitive::Quad(Quad { polygon: e.polygon.stroke_color_spec(color), ..e }),
                        _ => p,
                    },
            ),
    {
        if let Some(p) = state.pending_primitive(self.index) {
            let q = match p {
                Primitive::Quad(e) => Primitive::Quad(e.stroke(color)),
                _ => p,
            };
            state.edit_pending(self.index, q);
        }
        self
    }

    /// Fill with the given color.
    pub fn color(self, state: &mut State, color: Srgba) -> (r: DrawingQuad)
        requires
            old(state).wf(),
        ensures
            final(state).wf(),
            r == self,
            final(state)@ == old(state)@.map_pending(
                self.index(),
                |p: Primitive|
                    match p {
                        Primitive::Quad(e) => Primitive::Quad(Quad { polygon: e.polygon.color_spec(color), ..e }),
                        _ => p,
                    },
            ),
    {
        if let Some(p) = state.pending_primitive(self.index) {
            let q = match p {
                Primitive::Quad(e) => Primitive::Quad(e.color(color)),
                _ => p,
            };
            state.edit_pending(self.index, q);
        }
        self
    }

    /// Move to the given point of the plane.
    pub fn x_y(self, state: &mut State, x: Scalar, y: Scalar) -> (r: DrawingQuad)
        requires
            old(state).wf(),
        ensures
            final(state).wf(),
            r == self,
            final(state)@ == old(state)@.map_pending(
                self.index(),
                |p: Primitive|
                    match p {
                        Primitive::Quad(e) => Primitive::Quad(Quad { polygon: e.polygon.x_y_spec(x, y), ..e }),
                        _ => p,
                    },
            ),
    {
        if let Some(p) = state.pending_primitive(self.index) {
            let q = match p {
                Primitive::Quad(e) => Primitive::Quad(e.x_y(x, y)),
                _ => p,
            };
            state.edit_pending(self.index, q);
        }
        self
    }

    /// Set the width of the outline.
    pub fn stroke_weight(self, state: &mut State, weight: Scalar) -> (r: DrawingQuad)
        requires
            old(state).wf(),
        ensures
            final(state).wf(),
            r == self,
            final(state)@ == old(state)@.map_pending(
                self.index(),
                |p: Primitive|
                    match p {
                        Primitive::Quad(e) => Primitive::Quad(Quad { polygon: e.polygon.stroke_weight_spec(weight), ..e }),
                        _ => p,
                    },
            ),
    {
        if let Some(p) = state.pending_primitive(self.index) {
            let q = match p {
                Primitive::Quad(e) => Primitive::Quad(e.stroke_weight(weight)),
                _ => p,
            };
            state.edit_pending(self.index, q);
        }
        self
    }

    /// Turn to the given radians about the z axis.
    pub fn rotate(self, state: &mut State, radians: Scalar) -> (r: DrawingQuad)
        requires
            old(state).wf(),
        ensures
            final(state).wf(),
            r == self,
            final(state)@ == old(state)@.map_pending(
                self.index(),
                |p: Primitive|
                    match p {
                        Primitive::Quad(e) => Primitive::Quad(Quad { polygon: e.polygon.z_radians_spec(radians), ..e }),
                        _ => p,
                    },
            ),
    {
        if let Some(p) = state.pending_primitive(self.index) {
            let q = match p {
                Primitive::Quad(e) => Primitive::Quad(e.rotate(radians)),
                _ => p,
            };
            state.edit_pending(self.index, q);
        }
        self
    }
}

/// A handle on a rectangle in progress.
#[derive(Clone, Copy, Debug, PartialEq, Eq, Structural)]
pub struct DrawingRect {
    index: usize,
}

impl DrawingRect {
    /// The slot reserved for the shape.
    pub closed spec fn index(&self) -> usize {
        self.index
    }

    pub(crate) fn new(index: usize) -> (r: DrawingRect)
        ensures
            r.index() == index,
    {
        DrawingRect { index }
    }

    /// The slot reserved for the shape.
    pub fn slot(&self) -> (r: usize)
        ensures
            r == self.index(),
    {
        self.index
    }

    /// Finish the shape: it is recorded in its slot and can no longer change.
    pub fn finish(self, state: &mut State)
        requires
            old(state).wf(),
        ensures
            final(state).wf(),
            final(state)@ == old(state)@.finish_one(self.index()),
    {
        state.finish_drawing(self.index);
    }

    /// Stroke the outline with the given color.
    pub fn stroke(self, state: &mut State, color: Srgba) -> (r: DrawingRect)
        requires
            old(state).wf(),
        ensures
            final(state).wf(),
            r == self,
            final(state)@ == old(state)@.map_pending(
                self.index(),
                |p: Primitive|
                    match p {
                        Primitive::Rect(e) => Primitive::Rect(RectShape { polygon: e.polygon.stroke_color_spec(color), ..e }),
                        _ => p,
                    },
            ),
    {
        if let Some(p) = state.pending_primitive(self.index) {
            let q = match p {
                Primitive::Rect(e) => Primitive::Rect(e.stroke(color)),
                _ => p,
            };
            state.edit_pending(self.index, q);
        }
        self
    }

    /// Specify the width and height.
    pub fn w_h(self, state: &mut State, w: Scalar, h: Scalar) -> (r: DrawingRect)
        requires
            old(state).wf(),
        ensures
            final(state).wf(),
            r == self,
            final(state)@ == old(state)@.map_pending(
                self.index(),
                |p: Primitive|
                    match p {
                        Primitive::Rect(e) => Primitive::Rect(RectShape { dimensions: Dimensions { x: Some(w), y: Some(h), ..e.dimensions }, ..e }),
                        _ => p,
                    },
            ),
    {
        if let Some(p) = state.pending_primitive(self.index) {
            let q = match p {
                Primitive::Rect(e) => Primitive::Rect(e.w_h(w, h)),
                _ => p,
            };
            state.edit_pending(self.index, q);
        }
        self
    }

    /// Fill with the given color.
    pub fn color(self, state: &mut State, color: Srgba) -> (r: DrawingRect)
        requires
            old(state).wf(),
        ensures
            final(state).wf(),
            r == self,
            final(state)@ == old(state)@.map_pending(
                self.index(),
                |p: Primitive|
                    match p {
                        Primitive::Rect(e) => Primitive::Rect(RectShape { polygon: e.polygon.color_spec(color), ..e }),
                        _ => p,
                    },
            ),
    {
        if let Some(p) = state.pending_primitive(self.index) {
            let q = match p {
                Primitive::Rect(e) => Primitive::Rect(e.color(color)),
                _ => p,
            };
            state.edit_pending(self.index, q);
        }
        self
    }

    /// Center on the given point of the plane.
    pub fn x_y(self, state: &mut State, x: Scalar, y: Scalar) -> (r: DrawingRect)
        requires
            old(state).wf(),
        ensures
            final(state).wf(),
            r == self,
            final(state)@ == old(state)@.map_pending(
                self.index(),
                |p: Primitive|
                    match p {
                        Primitive::Rect(e) => Primitive::Rect(RectShape { polygon: e.polygon.x_y_spec(x, y), ..e }),
                        _ => p,
                    },
            ),
    {
        if let Some(p) = state.pending_primitive(self.index) {
            let q = match p {
                Primitive::Rect(e) => Primitive::Rect(e.x_y(x, y)),
                _ => p,
            };
            state.edit_pending(self.index, q);
        }
        self
    }

    /// Set the width of the outline.
    pub fn stroke_weight(self, state: &mut State, weight: Scalar) -> (r: DrawingRect)
        requires
            old(state).wf(),
        ensures
            final(state).wf(),
            r == self,
            final(state)@ == old(state)@.map_pending(
                self.index(),
                |p: Primitive|
                    match p {
                        Primitive::Rect(e) => Primitive::Rect(RectShape { polygon: e.polygon.stroke_weight_spec(weight), ..e }),
                        _ => p,
                    },
            ),
    {
        if let Some(p) = state.pending_primitive(self.index) {
            let q = match p {
                Primitive::Rect(e) => Primitive::Rect(e.stroke_weight(weight)),
                _ => p,
            };
            state.edit_pending(self.index, q);
        }
        self
    }

    /// Turn to the given radians about the z axis.
    pub fn rotate(self, state: &mut State, radians: Scalar) -> (r: DrawingRect)
        requires
            old(state).wf(),
        ensures
            final(state).wf(),
            r == self,
            final(state)@ == old(state)@.map_pending(
                self.index(),
                |p: Primitive|
                    match p {
                        Primitive::Rect(e) => Primitive::Rect(RectShape { polygon: e.polygon.z_radians_spec(radians), ..e }),
                        _ => p,
                    },
            ),
    {
        if let Some(p) = state.pending_primitive(self.index) {
            let q = match p {
                Primitive::Rect(e) => Primitive::Rect(e.rotate(radians)),
                _ => p,
            };
            state.edit_pending(self.index, q);
        }
        self
    }
}

/// A handle on a triangle in progress.
#[derive(Clone, Copy, Debug, PartialEq, Eq, Structural)]
pub struct DrawingTri {
    index: usize,
}

impl DrawingTri {
    /// The slot reserved for the shape.
    pub closed spec fn index(&self) -> usize {
        self.index
    }

    pub(crate) fn new(index: usize) -> (r: DrawingTri)
        ensures
            r.index() == index,
    {
        DrawingTri { index }
    }

    /// The slot reserved for the shape.
    pub fn slot(&self) -> (r: usize)
        ensures
            r == self.index(),
    {
        self.index
    }

    /// Finish the shape: it is recorded in its slot and can no longer change.
    pub fn finish(self, state: &mut State)
        requires
            old(state).wf(),
        ensures
            final(state).wf(),
            final(state)@ == old(state)@.finish_one(self.index()),
    {
        state.finish_drawing(self.index);
    }

    /// Use the given points as the corners of the triangle.
    pub fn points(self, state: &mut State, a: Point2, b: Point2, c: Point2) -> (r: DrawingTri)
        requires
            old(state).wf(),
        ensures
            final(state).wf(),
            r == self,
            final(state)@ == old(state)@.map_pending(
                self.index(),
                |p: Primitive|
                    match p {
                        Primitive::Tri(e) => Primitive::Tri(Tri { tri: TriCorners { a, b, c }, ..e }),
                        _ => p,
                    },
            ),
    {
        if let Some(p) = state.pending_primitive(self.index) {
            let q = match p {
                Primitive::Tri(e) => Primitive::Tri(e.points(a, b, c)),
                _ => p,
            };
            state.edit_pending(self.index, q);
        }
        self
    }

    /// Stroke the outline with the given color.
    pub fn stroke(self, state: &mut State, color: Srgba) -> (r: DrawingTri)
        requires
            old(state).wf(),
        ensures
            final(state).wf(),
            r == self,
            final(state)@ == old(state)@.map_pending(
                self.index(),
                |p: Primitive|
                    match p {
                        Primitive::Tri(e) => Primitive::Tri(Tri { polygon: e.polygon.stroke_color_spec(color), ..e }),
                        _ => p,
                    },
            ),
    {
        if let Some(p) = state.pending_primitive(self.index) {
            let q = match p {
                Primitive::Tri(e) => Primitive::Tri(e.stroke(color)),
                _ => p,
            };
            state.edit_pending(self.index, q);
        }
        self
    }

    /// Fill with the given color.
    pub fn color(self, state: &mut State, color: Srgba) -> (r: DrawingTri)
        requires
            old(state).wf(),
        ensures
            final(state).wf(),
            r == self,
            final(state)@ == old(state)@.map_pending(
                self.index(),
                |p: Primitive|
                    match p {
                        Primitive::Tri(e) => Primitive::Tri(Tri { polygon: e.polygon.color_spec(color), ..e }),
                        _ => p,
                    },
            ),
    {
        if let Some(p) = state.pending_primitive(self.index) {
            let q = match p {
                Primitive::Tri(e) => Primitive::Tri(e.color(color)),
                _ => p,
            };
            state.edit_pending(self.index, q);
        }
        self
    }

    /// Move to the given point of the plane.
    pub fn x_y(self, state: &mut State, x: Scalar, y: Scalar) -> (r: DrawingTri)
        requires
            old(state).wf(),
        ensures
            final(state).wf(),
            r == self,
            final(state)@ == old(state)@.map_pending(
                self.index(),
                |p: Primitive|
                    match p {
                        Primitive::Tri(e) => Primitive::Tri(Tri { polygon: e.polygon.x_y_spec(x, y), ..e }),
                        _ => p,
                    },
            ),
    {
        if let Some(p) = state.pending_primitive(self.index) {
            let q = match p {
                Primitive::Tri(e) => Primitive::Tri(e.x_y(x, y)),
                _ => p,
            };
            state.edit_pending(self.index, q);
        }
        self
    }

    /// Set the width of the outline.
    pub fn stroke_weight(self, state: &mut State, weight: Scalar) -> (r: DrawingTri)
        requires
            old(state).wf(),
        ensures
            final(state).wf(),
            r == self,
            final(state)@ == old(state)@.map_pending(
                self.index(),
                |p: Primitive|
                    match p {
                        Primitive::Tri(e) => Primitive::Tri(Tri { polygon: e.polygon.stroke_weight_spec(weight), ..e }),
                        _ => p,
                    },
            ),
    {
        if let Some(p) = state.pending_primitive(self.index) {
            let q = match p {
                Primitive::Tri(e) => Primitive::Tri(e.stroke_weight(weight)),
                _ => p,
            };
            state.edit_pending(self.index, q);
        }
        self
    }
}

/// A handle on an arrow in progress.
#[derive(Clone, Copy, Debug, PartialEq, Eq, Structural)]
pub struct DrawingArrow {
    index: usize,
}

impl DrawingArrow {
    /// The slot reserved for the shape.
    pub closed spec fn index(&self) -> usize {
        self.index
    }

    pub(crate) fn new(index: usize) -> (r: DrawingArrow)
        ensures
            r.index() == index,
    {
        DrawingArrow { index }
    }

    /// The slot reserved for the shape.
    pub fn slot(&self) -> (r: usize)
        ensures
            r == self.index(),
    {
        self.index
    }

    /// Finish the shape: it is recorded in its slot and can no longer change.
    pub fn finish(self, state: &mut State)
        requires
            old(state).wf(),
        ensures
            final(state).wf(),
            final(state)@ == old(state)@.finish_one(self.index()),
    {
        state.finish_drawing(self.index);
    }

    /// Set the stroke width of the shaft.
    pub fn weight(self, state: &mut State, weight: Scalar) -> (r: DrawingArrow)
        requires
            old(state).wf(),
        ensures
            final(state).wf(),
            r == self,
            final(state)@ == old(state)@.map_pending(
                self.index(),
                |p: Primitive|
                    match p {
                        Primitive::Arrow(e) => Primitive::Arrow(Arrow { line: e.line.with_opts(StrokeOptions { line_width: weight, ..e.line.path.opts }), ..e }),
                        _ => p,
                    },
            ),
    {
        if let Some(p) = state.pending_primitive(self.index) {
            let q = match p {
                Primitive::Arrow(e) => Primitive::Arrow(e.weight(weight)),
                _ => p,
            };
            state.edit_pending(self.index, q);
        }
        self
    }

    /// Specify the start and end points; the head sits at the end.
    pub fn points(self, state: &mut State, start: Point2, end: Point2) -> (r: DrawingArrow)
        requires
            old(state).wf(),
        ensures
            final(state).wf(),
            r == self,
            final(state)@ == old(state)@.map_pending(
                self.index(),
                |p: Primitive|
                    match p {
                        Primitive::Arrow(e) => Primitive::Arrow(Arrow { line: Line { start: Some(start), end: Some(end), ..e.line }, ..e }),
                        _ => p,
                    },
            ),
    {
        if let Some(p) = state.pending_primitive(self.index) {
            let q = match p {
                Primitive::Arrow(e) => Primitive::Arrow(e.points(start, end)),
                _ => p,
            };
            state.edit_pending(self.index, q);
        }
        self
    }

    /// Color the arrow.
    pub fn color(self, state: &mut State, color: Srgba) -> (r: DrawingArrow)
        requires
            old(state).wf(),
        ensures
            final(state).wf(),
            r == self,
            final(state)@ == old(state)@.map_pending(
                self.index(),
                |p: Primitive|
                    match p {
                        Primitive::Arrow(e) => Primitive::Arrow(Arrow { line: Line { path: PathStroke { color: Some(color), ..e.line.path }, ..e.line }, ..e }),
                        _ => p,
                    },
            ),
    {
        if let Some(p) = state.pending_primitive(self.index) {
            let q = match p {
                Primitive::Arrow(e) => Primitive::Arrow(e.color(color)),
                _ => p,
            };
            state.edit_pending(self.index, q);
        }
        self
    }

    /// The length of the head, along the line.
    pub fn head_length(self, state: &mut State, length: Scalar) -> (r: DrawingArrow)
        requires
            old(state).wf(),
        ensures
            final(state).wf(),
            r == self,
            final(state)@ == old(state)@.map_pending(
                self.index(),
                |p: Primitive|
                    match p {
                        Primitive::Arrow(e) => Primitive::Arrow(Arrow { head_length: Some(length), ..e }),
                        _ => p,
                    },
            ),
    {
        if let Some(p) = state.pending_primitive(self.index) {
            let q = match p {
                Primitive::Arrow(e) => Primitive::Arrow(e.head_length(length)),
                _ => p,
            };
            state.edit_pending(self.index, q);
        }
        self
    }

    /// The width of the head, across the line.
    pub fn head_width(self, state: &mut State, width: Scalar) -> (r: DrawingArrow)
        requires
            old(state).wf(),
        ensures
            final(state).wf(),
            r == self,
            final(state)@ == old(state)@.map_pending(
                self.index(),
                |p: Primitive|
                    match p {
                        Primitive::Arrow(e) => Primitive::Arrow(Arrow { head_width: Some(width), ..e }),
                        _ => p,
                    },
            ),
    {
        if let Some(p) = state.pending_primitive(self.index) {
            let q = match p {
                Primitive::Arrow(e) => Primitive::Arrow(e.head_width(width)),
                _ => p,
            };
            state.edit_pending(self.index, q);
        }
        self
    }
}

/// A handle on a path not yet told whether it is filled or stroked.
#[derive(Clone, Copy, Debug, PartialEq, Eq, Structural)]
pub struct DrawingPathInit {
    index: usize,
}

impl DrawingPathInit {
    /// The slot reserved for the shape.
    pub closed spec fn index(&self) -> usize {
        self.index
    }

    pub(crate) fn new(index: usize) -> (r: DrawingPathInit)
        ensures
            r.index() == index,
    {
        DrawingPathInit { index }
    }

    /// The slot reserved for the shape.
    pub fn slot(&self) -> (r: usize)
        ensures
            r == self.index(),
    {
        self.index
    }

    /// Finish the shape: it is recorded in its slot and can no longer change.
    pub fn finish(self, state: &mut State)
        requires
            old(state).wf(),
        ensures
            final(state).wf(),
            final(state)@ == old(state)@.finish_one(self.index()),
    {
        state.finish_drawing(self.index);
    }

    /// Fill the path.
    pub fn fill(self, state: &mut State) -> (r: DrawingPathFill)
        requires
            old(state).wf(),
        ensures
            final(state).wf(),
            r.index() == self.index(),
            final(state)@ == old(state)@.map_pending(
                self.index(),
                |p: Primitive|
                    match p {
                        Primitive::PathInit(i) => Primitive::PathFill(i.fill_spec()),
                        _ => p,
                    },
            ),
    {
        if let Some(p) = state.pending_primitive(self.index) {
            let q = match p {
                Primitive::PathInit(i) => Primitive::PathFill(i.fill()),
                _ => p,
            };
            state.edit_pending(self.index, q);
        }
        DrawingPathFill::new(self.index)
    }

    /// Stroke the path with the default stroke.
    pub fn stroke(self, state: &mut State) -> (r: DrawingPathStroke)
        requires
            old(state).wf(),
        ensures
            final(state).wf(),
            r.index() == self.index(),
            final(state)@ == old(state)@.map_pending(
                self.index(),
                |p: Primitive|
                    match p {
                        Primitive::PathInit(i) => Primitive::PathStroke(i.stroke_spec()),
                        _ => p,
                    },
            ),
    {
        if let Some(p) = state.pending_primitive(self.index) {
            let q = match p {
                Primitive::PathInit(i) => Primitive::PathStroke(i.stroke()),
                _ => p,
            };
            state.edit_pending(self.index, q);
        }
        DrawingPathStroke::new(self.index)
    }
}

/// A handle on a filled path whose points are yet to be given.
#[derive(Clone, Copy, Debug, PartialEq, Eq, Structural)]
pub struct DrawingPathFill {
    index: usize,
}

impl DrawingPathFill {
    /// The slot reserved for the shape.
    pub closed spec fn index(&self) -> usize {
        self.index
    }

    pub(crate) fn new(index: usize) -> (r: DrawingPathFill)
        ensures
            r.index() == index,
    {
        DrawingPathFill { index }
    }

    /// The slot reserved for the shape.
    pub fn slot(&self) -> (r: usize)
        ensures
            r == self.index(),
    {
        self.index
    }

    /// Finish the shape: it is recorded in its slot and can no longer change.
    pub fn finish(self, state: &mut State)
        requires
            old(state).wf(),
        ensures
            final(state).wf(),
            final(state)@ == old(state)@.finish_one(self.index()),
    {
        state.finish_drawing(self.index);
    }

    /// Give the path its points: an open polyline through `pts`, added to the
    /// path event buffer. Nothing happens where the slot holds no such path.
    pub fn points(self, state: &mut State, pts: &Vec<Point2>) -> (r: DrawingPath)
        requires
            old(state).wf(),
        ensures
            final(state).wf(),
            r.index() == self.index(),
            (old(state)@.pending.contains_key(self.index()) && old(state)@.pending[self.index()] is PathFill) ==> {
                let p = old(state)@.pending[self.index()]->PathFill_0;
                let v = old(state)@.with_path_events(pts@);
                let span = Span {
                    start: old(state)@.scratch.path_events.len() as usize,
                    end: v.scratch.path_events.len() as usize,
                };
                final(state)@ == v.edit(self.index(), Primitive::Path(p.with_events(span)))
            },
            !(old(state)@.pending.contains_key(self.index()) && old(state)@.pending[self.index()] is PathFill) ==> final(state)@ == old(state)@,
    {
        if let Some(Primitive::PathFill(p)) = state.pending_primitive(self.index) {
            let span = state.push_path_events(pts);
            state.edit_pending(self.index, Primitive::Path(p.with_events_exec(span)));
        }
        DrawingPath::new(self.index)
    }
}

/// A handle on a stroked path whose points are yet to be given.
#[derive(Clone, Copy, Debug, PartialEq, Eq, Structural)]
pub struct DrawingPathStroke {
    index: usize,
}

impl DrawingPathStroke {
    /// The slot reserved for the shape.
    pub closed spec fn index(&self) -> usize {
        self.index
    }

    pub(crate) fn new(index: usize) -> (r: DrawingPathStroke)
        ensures
            r.index() == index,
    {
        DrawingPathStroke { index }
    }

    /// The slot reserved for the shape.
    pub fn slot(&self) -> (r: usize)
        ensures
            r == self.index(),
    {
        self.index
    }

    /// Finish the shape: it is recorded in its slot and can no longer change.
    pub fn finish(self, state: &mut State)
        requires
            old(state).wf(),
        ensures
            final(state).wf(),
            final(state)@ == old(state)@.finish_one(self.index()),
    {
        state.finish_drawing(self.index);
    }

    /// Give the path its points: an open polyline through `pts`, added to the
    /// path event buffer. Nothing happens where the slot holds no such path.
    pub fn points(self, state: &mut State, pts: &Vec<Point2>) -> (r: DrawingPath)
        requires
            old(state).wf(),
        ensures
            final(state).wf(),
            r.index() == self.index(),
            (old(state)@.pending.contains_key(self.index()) && old(state)@.pending[self.index()] is PathStroke) ==> {
                let p = old(state)@.pending[self.index()]->PathStroke_0;
                let v = old(state)@.with_path_events(pts@);
                let span = Span {
                    start: old(state)@.scratch.path_events.len() as usize,
                    end: v.scratch.path_events.len() as usize,
                };
                final(state)@ == v.edit(self.index(), Primitive::Path(stroked_with_events(p, span)))
            },
            !(old(state)@.pending.contains_key(self.index()) && old(state)@.pending[self.index()] is PathStroke) ==> final(state)@ == old(state)@,
    {
        if let Some(Primitive::PathStroke(p)) = state.pending_primitive(self.index) {
            let span = state.push_path_events(pts);
            state.edit_pending(self.index, Primitive::Path(stroked_with_events_exec(p, span)));
        }
        DrawingPath::new(self.index)
    }
}

/// A handle on a path with its points.
#[derive(Clone, Copy, Debug, PartialEq, Eq, Structural)]
pub struct DrawingPath {
    index: usize,
}

impl DrawingPath {
    /// The slot reserved for the shape.
    pub closed spec fn index(&self) -> usize {
        self.index
    }

    pub(crate) fn new(index: usize) -> (r: DrawingPath)
        ensures
            r.index() == index,
    {
        DrawingPath { index }
    }

    /// The slot reserved for the shape.
    pub fn slot(&self) -> (r: usize)
        ensures
            r == self.index(),
    {
        self.index
    }

    /// Finish the shape: it is recorded in its slot and can no longer change.
    pub fn finish(self, state: &mut State)
        requires
            old(state).wf(),
        ensures
            final(state).wf(),
            final(state)@ == old(state)@.finish_one(self.index()),
    {
        state.finish_drawing(self.index);
    }
}

/// A handle on a polygon whose points are yet to be given.
#[derive(Clone, Copy, Debug, PartialEq, Eq, Structural)]
pub struct DrawingPolygonInit {
    index: usize,
}

impl DrawingPolygonInit {
    /// The slot reserved for the shape.
    pub closed spec fn index(&self) -> usize {
        self.index
    }

    pub(crate) fn new(index: usize) -> (r: DrawingPolygonInit)
        ensures
            r.index() == index,
    {
        DrawingPolygonInit { index }
    }

    /// The slot reserved for the shape.
    pub fn slot(&self) -> (r: usize)
        ensures
            r == self.index(),
    {
        self.index
    }

    /// Finish the shape: it is recorded in its slot and can no longer change.
    pub fn finish(self, state: &mut State)
        requires
            old(state).wf(),
        ensures
            final(state).wf(),
            final(state)@ == old(state)@.finish_one(self.index()),
    {
        state.finish_drawing(self.index);
    }

    /// Give the polygon its points, each colored with the polygon's color (or
    /// black), added to the colored point buffer. Nothing happens where the
    /// slot holds no such polygon.
    pub fn points(self, state: &mut State, pts: &Vec<Point2>) -> (r: DrawingPolygon)
        requires
            old(state).wf(),
        ensures
            final(state).wf(),
            r.index() == self.index(),
            (old(state)@.pending.contains_key(self.index()) && old(state)@.pending[self.index()] is PolygonInit) ==> {
                let p = old(state)@.pending[self.index()]->PolygonInit_0;
                let v = old(state)@.with_colored(pts@, fill_spec(p.opts));
                let span = Span {
                    start: old(state)@.scratch.colored_points.len() as usize,
                    end: v.scratch.colored_points.len() as usize,
                };
                final(state)@ == v.edit(self.index(), Primitive::Polygon(Polygon { opts: p.opts, points: span }))
            },
            !(old(state)@.pending.contains_key(self.index()) && old(state)@.pending[self.index()] is PolygonInit) ==> final(state)@ == old(state)@,
    {
        if let Some(Primitive::PolygonInit(p)) = state.pending_primitive(self.index) {
            let color = match p.opts.color {
                Some(c) => c,
                None => Srgba { red: 0, green: 0, blue: 0, alpha: 255 },
            };
            let span = state.push_colored_points(pts, color);
            state.edit_pending(self.index, Primitive::Polygon(Polygon { opts: p.opts, points: span }));
        }
        DrawingPolygon::new(self.index)
    }
}

/// A handle on a polygon with its points.
#[derive(Clone, Copy, Debug, PartialEq, Eq, Structural)]
pub struct DrawingPolygon {
    index: usize,
}

impl DrawingPolygon {
    /// The slot reserved for the shape.
    pub closed spec fn index(&self) -> usize {
        self.index
    }

    pub(crate) fn new(index: usize) -> (r: DrawingPolygon)
        ensures
            r.index() == index,
    {
        DrawingPolygon { index }
    }

    /// The slot reserved for the shape.
    pub fn slot(&self) -> (r: usize)
        ensures
            r == self.index(),
    {
        self.index
    }

    /// Finish the shape: it is recorded in its slot and can no longer change.
    pub fn finish(self, state: &mut State)
        requires
            old(state).wf(),
        ensures
            final(state).wf(),
            final(state)@ == old(state)@.finish_one(self.index()),
    {
        state.finish_drawing(self.index);
    }
}

/// A handle on a mesh whose vertices are yet to be given.
#[derive(Clone, Copy, Debug, PartialEq, Eq, Structural)]
pub struct DrawingMeshVertexless {
    index: usize,
}

impl DrawingMeshVertexless {
    /// The slot reserved for the shape.
    pub closed spec fn index(&self) -> usize {
        self.index
    }

    pub(crate) fn new(index: usize) -> (r: DrawingMeshVertexless)
        ensures
            r.index() == index,
    {
        DrawingMeshVertexless { index }
    }

    /// The slot reserved for the shape.
    pub fn slot(&self) -> (r: usize)
        ensures
            r == self.index(),
    {
        self.index
    }

    /// Finish the shape: it is recorded in its slot and can no longer change.
    pub fn finish(self, state: &mut State)
        requires
            old(state).wf(),
        ensures
            final(state).wf(),
            final(state)@ == old(state)@.finish_one(self.index()),
    {
        state.finish_drawing(self.index);
    }

    /// Give the mesh its triangles: each three of `pts` in turn make one,
    /// added to the scratch mesh with an index each. Nothing happens where
    /// the slot holds no such mesh.
    pub fn tris(self, state: &mut State, pts: &Vec<Point3>) -> (r: DrawingMesh)
        requires
            old(state).wf(),
        ensures
            final(state).wf(),
            r.index() == self.index(),
            (old(state)@.pending.contains_key(self.index()) && old(state)@.pending[self.index()] is MeshVertexless) ==> {
                let m = old(state)@.pending[self.index()]->MeshVertexless_0;
                let v = old(state)@.with_triangles(pts@);
                let vertices = Span {
                    start: old(state)@.scratch.mesh_points.len() as usize,
                    end: v.scratch.mesh_points.len() as usize,
                };
                let indices = Span {
                    start: old(state)@.scratch.mesh_indices.len() as usize,
                    end: v.scratch.mesh_indices.len() as usize,
                };
                final(state)@ == v.edit(
                    self.index(),
                    Primitive::Mesh(MeshPrimitive { position: m.position, orientation: m.orientation, vertices, indices }),
                )
            },
            !(old(state)@.pending.contains_key(self.index()) && old(state)@.pending[self.index()] is MeshVertexless) ==> final(state)@ == old(state)@,
    {
        if let Some(Primitive::MeshVertexless(m)) = state.pending_primitive(self.index) {
            let (vertices, indices) = state.push_triangles(pts);
            state.edit_pending(
                self.index,
                Primitive::Mesh(MeshPrimitive { position: m.position, orientation: m.orientation, vertices, indices }),
            );
        }
        DrawingMesh::new(self.index)
    }
}

/// A handle on a mesh with its vertices.
#[derive(Clone, Copy, Debug, PartialEq, Eq, Structural)]
pub struct DrawingMesh {
    index: usize,
}

impl DrawingMesh {
    /// The slot reserved for the shape.
    pub closed spec fn index(&self) -> usize {
        self.index
    }

    pub(crate) fn new(index: usize) -> (r: DrawingMesh)
        ensures
            r.index() == index,
    {
        DrawingMesh { index }
    }

    /// The slot reserved for the shape.
    pub fn slot(&self) -> (r: usize)
        ensures
            r == self.index(),
    {
        self.index
    }

    /// Finish the shape: it is recorded in its slot and can no longer change.
    pub fn finish(self, state: &mut State)
        requires
            old(state).wf(),
        ensures
            final(state).wf(),
            final(state)@ == old(state)@.finish_one(self.index()),
    {
        state.finish_drawing(self.index);
    }
}

/// A handle on text.
#[derive(Clone, Copy, Debug, PartialEq, Eq, Structural)]
pub struct DrawingText {
    index: usize,
}

impl DrawingText {
    /// The slot reserved for the shape.
    pub closed spec fn index(&self) -> usize {
        self.index
    }

    pub(crate) fn new(index: usize) -> (r: DrawingText)
        ensures
            r.index() == index,
    {
        DrawingText { index }
    }

    /// The slot reserved for the shape.
    pub fn slot(&self) -> (r: usize)
        ensures
            r == self.index(),
    {
        self.index
    }

    /// Finish the shape: it is recorded in its slot and can no longer change.
    pub fn finish(self, state: &mut State)
        requires
            old(state).wf(),
        ensures
            final(state).wf(),
            final(state)@ == old(state)@.finish_one(self.index()),
    {
        state.finish_drawing(self.index);
    }
}

/// A handle on a texture.
#[derive(Clone, Copy, Debug, PartialEq, Eq, Structural)]
pub struct DrawingTexture {
    index: usize,
}

impl DrawingTexture {
    /// The slot reserved for the shape.
    pub closed spec fn index(&self) -> usize {
        self.index
    }

    pub(crate) fn new(index: usize) -> (r: DrawingTexture)
        ensures
            r.index() == index,
    {
        DrawingTexture { index }
    }

    /// The slot reserved for the shape.
    pub fn slot(&self) -> (r: usize)
        ensures
            r == self.index(),
    {
        self.index
    }

    /// Finish the shape: it is recorded in its slot and can no longer change.
    pub fn finish(self, state: &mut State)
        requires
            old(state).wf(),
        ensures
            final(state).wf(),
            final(state)@ == old(state)@.finish_one(self.index()),
    {
        state.finish_drawing(self.index);
    }
}

} // verus!
