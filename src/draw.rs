//! The drawing handle: a context of its own over a state shared with every
//! handle of the same session.
use crate::context::{
    step_is_identity, BlendDescriptor, Context, Euler, Matrix4, PrimitiveTopology, Quaternion, SamplerDescriptor,
    TransformStep,
};
use crate::drawing::{
    Drawing, DrawingArrow, DrawingEllipse, DrawingLine, DrawingMeshVertexless, DrawingPathInit,
    DrawingPathStroke, DrawingPolygonInit, DrawingQuad, DrawingRect, DrawingText, DrawingTexture,
    DrawingTri,
};
use crate::geom::{
    deg_to_rad, deg_to_rad_spec, fits_i64, turns_to_rad, turns_to_rad_spec, Point2, Point3, Rect,
    Scalar,
};
use crate::primitive::arrow::{default_arrow, Arrow};
use crate::primitive::ellipse::{default_ellipse, Ellipse};
use crate::primitive::line::{default_line, Line};
use crate::primitive::quad::{default_quad, Quad};
use crate::primitive::rect::{default_rect, Rect as RectShape};
use crate::primitive::tri::{default_tri, Tri};
use crate::primitive::mesh::MeshVertexless;
use crate::primitive::path::{default_path_init, PathInit};
use crate::primitive::polygon::PolygonInit;
use crate::primitive::text::Text;
use crate::primitive::texture::Texture;
use crate::primitive::{Primitive, Span};
use crate::properties::{
    default_orientation, default_path_stroke, default_polygon, default_position, no_dimensions, PathStroke,
};
use crate::properties::Srgba;
use crate::state::{DrawCommand, State, StateView};
use vstd::prelude::*;

verus! {

/// A handle for drawing 2D and 3D shapes.
///
/// Every method that changes the context returns a new handle and leaves this
/// one as it was. Handles share the session's [`State`], which each call that
/// records something takes explicitly.
#[derive(Debug)]
pub struct Draw {
    /// The context this handle draws with.
    pub context: Context,
}

/// Sets the color the target is cleared with.
pub struct Background {}

impl Background {
    /// Clear the target with `color`, replacing any color given before.
    pub fn color(self, state: &mut State, color: Srgba)
        requires
            old(state).wf(),
        ensures
            final(state).wf(),
            final(state)@ == (StateView { background: Some(color), ..old(state)@ }),
    {
        state.set_background_color(color);
    }
}

impl Draw {
    /// The context this handle draws with.
    pub open spec fn ctx(&self) -> Context {
        self.context
    }

    /// The handle with the given context.
    pub open spec fn with_context(c: Context) -> Draw {
        Draw { context: c }
    }

    /// The handle whose transform is followed by `step`.
    pub open spec fn stepped(&self, step: TransformStep) -> Draw {
        Draw { context: Context { transform: self.context.transform.and_step(step), ..self.context } }
    }

    /// The handle after `step`: this same handle where the step leaves every
    /// point where it is, else one whose transform is followed by it.
    pub open spec fn applied(&self, step: TransformStep) -> Draw {
        if step_is_identity(step) {
            *self
        } else {
            self.stepped(step)
        }
    }

    /// The handle rotated by the given angles in radians.
    pub open spec fn radians_spec(&self, x: Scalar, y: Scalar, z: Scalar) -> Draw {
        self.applied(TransformStep::Rotate(Euler { x, y, z }))
    }

    /// A handle with the default context.
    pub fn new() -> (r: Draw)
        ensures
            r.ctx() == crate::context::default_context(),
    {
        Draw { context: Context::new() }
    }

    /// The context this handle draws with.
    pub fn context(&self) -> (r: &Context)
        ensures
            *r == self.ctx(),
    {
        &self.context
    }

    /// Clear everything the session recorded.
    pub fn reset(&self, state: &mut State)
        ensures
            final(state).wf(),
            final(state)@ == StateView::fresh(),
    {
        state.reset();
    }

    fn with_step(&self, step: TransformStep) -> (r: Draw)
        ensures
            r == self.applied(step),
    {
        if step.is_identity() {
            return Draw { context: self.context.copy() };
        }
        let mut context = self.context.copy();
        context.transform = crate::context::Transform::Compose(Box::new(self.context.transform.copy()), step);
        Draw { context }
    }

    /// A new handle whose transform is this one's followed by `matrix`.
    pub fn transform(&self, matrix: Matrix4) -> (r: Draw)
        ensures
            step_is_identity(TransformStep::Matrix(matrix)) ==> r == *self,
            !step_is_identity(TransformStep::Matrix(matrix)) ==> r == self.stepped(TransformStep::Matrix(matrix)),
    {
        self.with_step(TransformStep::Matrix(matrix))
    }

    /// Translate the origin by the given vector.
    pub fn translate(&self, v: Point3) -> (r: Draw)
        ensures
            step_is_identity(TransformStep::Translate(v)) ==> r == *self,
            !step_is_identity(TransformStep::Translate(v)) ==> r == self.stepped(TransformStep::Translate(v)),
    {
        self.with_step(TransformStep::Translate(v))
    }

    /// Translate the origin by the given vector; short for `translate`.
    pub fn xyz(&self, v: Point3) -> (r: Draw)
        ensures
            r == self.applied(TransformStep::Translate(v)),
    {
        self.translate(v)
    }

    /// Translate the origin across the plane.
    pub fn xy(&self, v: Point2) -> (r: Draw)
        ensures
            r == self.applied(TransformStep::Translate(Point3 { x: v.x, y: v.y, z: Scalar { raw: 0 } })),
    {
        self.xyz(Point3 { x: v.x, y: v.y, z: Scalar::zero() })
    }

    /// Translate the origin by the given amount along each axis.
    pub fn x_y_z(&self, x: Scalar, y: Scalar, z: Scalar) -> (r: Draw)
        ensures
            r == self.applied(TransformStep::Translate(Point3 { x, y, z })),
    {
        self.xyz(Point3 { x, y, z })
    }

    /// Translate the origin by the given amount along the x and y axes.
    pub fn x_y(&self, x: Scalar, y: Scalar) -> (r: Draw)
        ensures
            r == self.applied(TransformStep::Translate(Point3 { x, y, z: Scalar { raw: 0 } })),
    {
        self.xy(Point2 { x, y })
    }

    /// Translate the origin along the x axis.
    pub fn x(&self, x: Scalar) -> (r: Draw)
        ensures
            r == self.applied(TransformStep::Translate(Point3 { x, y: Scalar { raw: 0 }, z: Scalar { raw: 0 } })),
    {
        self.x_y(x, Scalar::zero())
    }

    /// Translate the origin along the y axis.
    pub fn y(&self, y: Scalar) -> (r: Draw)
        ensures
            r == self.applied(TransformStep::Translate(Point3 { x: Scalar { raw: 0 }, y, z: Scalar { raw: 0 } })),
    {
        self.x_y(Scalar::zero(), y)
    }

    /// Translate the origin along the z axis.
    pub fn z(&self, z: Scalar) -> (r: Draw)
        ensures
            r == self.applied(TransformStep::Translate(Point3 { x: Scalar { raw: 0 }, y: Scalar { raw: 0 }, z })),
    {
        self.x_y_z(Scalar::zero(), Scalar::zero(), z)
    }

    /// Scale the contents uniformly.
    pub fn scale(&self, s: Scalar) -> (r: Draw)
        ensures
            r == self.applied(TransformStep::Scale(Point3 { x: s, y: s, z: s })),
    {
        self.scale_axes(Point3 { x: s, y: s, z: s })
    }

    /// Scale the contents by the given amount along each axis.
    pub fn scale_axes(&self, v: Point3) -> (r: Draw)
        ensures
            step_is_identity(TransformStep::Scale(v)) ==> r == *self,
            !step_is_identity(TransformStep::Scale(v)) ==> r == self.stepped(TransformStep::Scale(v)),
    {
        self.with_step(TransformStep::Scale(v))
    }

    /// Scale by `s` along the x axis and by zero along the others.
    pub fn scale_x(&self, s: Scalar) -> (r: Draw)
        ensures
            r == self.applied(TransformStep::Scale(Point3 { x: s, y: Scalar { raw: 0 }, z: Scalar { raw: 0 } })),
    {
        self.scale_axes(Point3 { x: s, y: Scalar::zero(), z: Scalar::zero() })
    }

    /// Scale by `s` along the y axis and by zero along the others.
    pub fn scale_y(&self, s: Scalar) -> (r: Draw)
        ensures
            r == self.applied(TransformStep::Scale(Point3 { x: Scalar { raw: 0 }, y: s, z: Scalar { raw: 0 } })),
    {
        self.scale_axes(Point3 { x: Scalar::zero(), y: s, z: Scalar::zero() })
    }

    /// Scale by `s` along the z axis and by zero along the others.
    pub fn scale_z(&self, s: Scalar) -> (r: Draw)
        ensures
            r == self.applied(TransformStep::Scale(Point3 { x: Scalar { raw: 0 }, y: Scalar { raw: 0 }, z: s })),
    {
        self.scale_axes(Point3 { x: Scalar::zero(), y: Scalar::zero(), z: s })
    }

    /// Rotate by the given angles in radians about each axis.
    pub fn euler(&self, euler: Euler) -> (r: Draw)
        ensures
            step_is_identity(TransformStep::Rotate(euler)) ==> r == *self,
            !step_is_identity(TransformStep::Rotate(euler)) ==> r == self.stepped(TransformStep::Rotate(euler)),
    {
        self.with_step(TransformStep::Rotate(euler))
    }

    /// Rotate by the given quaternion.
    pub fn quaternion(&self, q: Quaternion) -> (r: Draw)
        ensures
            step_is_identity(TransformStep::Orient(q)) ==> r == *self,
            !step_is_identity(TransformStep::Orient(q)) ==> r == self.stepped(TransformStep::Orient(q)),
    {
        self.with_step(TransformStep::Orient(q))
    }

    /// Rotate by the given vector of radians; the same as `euler`.
    pub fn radians(&self, v: Point3) -> (r: Draw)
        ensures
            r == self.radians_spec(v.x, v.y, v.z),
    {
        self.euler(Euler { x: v.x, y: v.y, z: v.z })
    }

    /// Rotate about the x axis, in radians.
    pub fn x_radians(&self, x: Scalar) -> (r: Draw)
        ensures
            r == self.radians_spec(x, Scalar { raw: 0 }, Scalar { raw: 0 }),
    {
        self.radians(Point3 { x, y: Scalar::zero(), z: Scalar::zero() })
    }

    /// Rotate about the y axis, in radians.
    pub fn y_radians(&self, y: Scalar) -> (r: Draw)
        ensures
            r == self.radians_spec(Scalar { raw: 0 }, y, Scalar { raw: 0 }),
    {
        self.radians(Point3 { x: Scalar::zero(), y, z: Scalar::zero() })
    }

    /// Rotate about the z axis, in radians.
    pub fn z_radians(&self, z: Scalar) -> (r: Draw)
        ensures
            r == self.radians_spec(Scalar { raw: 0 }, Scalar { raw: 0 }, z),
    {
        self.radians(Point3 { x: Scalar::zero(), y: Scalar::zero(), z })
    }

    /// Rotate by the given vector of degrees, converted to radians.
    pub fn degrees(&self, v: Point3) -> (r: Draw)
        ensures
            r == self.radians_spec(
                Scalar { raw: deg_to_rad_spec(v.x) as i64 },
                Scalar { raw: deg_to_rad_spec(v.y) as i64 },
                Scalar { raw: deg_to_rad_spec(v.z) as i64 },
            ),
    {
        self.radians(Point3 { x: deg_to_rad(v.x), y: deg_to_rad(v.y), z: deg_to_rad(v.z) })
    }

    /// Rotate about the x axis, in degrees.
    pub fn x_degrees(&self, x: Scalar) -> (r: Draw)
        ensures
            r == self.radians_spec(Scalar { raw: deg_to_rad_spec(x) as i64 }, Scalar { raw: 0 }, Scalar { raw: 0 }),
    {
        self.x_radians(deg_to_rad(x))
    }

    /// Rotate about the y axis, in degrees.
    pub fn y_degrees(&self, y: Scalar) -> (r: Draw)
        ensures
            r == self.radians_spec(Scalar { raw: 0 }, Scalar { raw: deg_to_rad_spec(y) as i64 }, Scalar { raw: 0 }),
    {
        self.y_radians(deg_to_rad(y))
    }

    /// Rotate about the z axis, in degrees.
    pub fn z_degrees(&self, z: Scalar) -> (r: Draw)
        ensures
            r == self.radians_spec(Scalar { raw: 0 }, Scalar { raw: 0 }, Scalar { raw: deg_to_rad_spec(z) as i64 }),
    {
        self.z_radians(deg_to_rad(z))
    }

    /// Rotate by the given vector of turns, converted to radians.
    pub fn turns(&self, v: Point3) -> (r: Draw)
        requires
            fits_i64(turns_to_rad_spec(v.x)),
            fits_i64(turns_to_rad_spec(v.y)),
            fits_i64(turns_to_rad_spec(v.z)),
        ensures
            r == self.radians_spec(
                Scalar { raw: turns_to_rad_spec(v.x) as i64 },
                Scalar { raw: turns_to_rad_spec(v.y) as i64 },
                Scalar { raw: turns_to_rad_spec(v.z) as i64 },
            ),
    {
        self.radians(Point3 { x: turns_to_rad(v.x), y: turns_to_rad(v.y), z: turns_to_rad(v.z) })
    }

    /// Rotate about the x axis, in turns.
    pub fn x_turns(&self, x: Scalar) -> (r: Draw)
        requires
            fits_i64(turns_to_rad_spec(x)),
        ensures
            r == self.radians_spec(Scalar { raw: turns_to_rad_spec(x) as i64 }, Scalar { raw: 0 }, Scalar { raw: 0 }),
    {
        self.x_radians(turns_to_rad(x))
    }

    /// Rotate about the y axis, in turns.
    pub fn y_turns(&self, y: Scalar) -> (r: Draw)
        requires
            fits_i64(turns_to_rad_spec(y)),
        ensures
            r == self.radians_spec(Scalar { raw: 0 }, Scalar { raw: turns_to_rad_spec(y) as i64 }, Scalar { raw: 0 }),
    {
        self.y_radians(turns_to_rad(y))
    }

    /// Rotate about the z axis, in turns.
    pub fn z_turns(&self, z: Scalar) -> (r: Draw)
        requires
            fits_i64(turns_to_rad_spec(z)),
        ensures
            r == self.radians_spec(Scalar { raw: 0 }, Scalar { raw: 0 }, Scalar { raw: turns_to_rad_spec(z) as i64 }),
    {
        self.z_radians(turns_to_rad(z))
    }

    /// The pitch in radians; the same as `x_radians`.
    pub fn pitch(&self, pitch: Scalar) -> (r: Draw)
        ensures
            r == self.radians_spec(pitch, Scalar { raw: 0 }, Scalar { raw: 0 }),
    {
        self.x_radians(pitch)
    }

    /// The yaw in radians; the same as `y_radians`.
    pub fn yaw(&self, yaw: Scalar) -> (r: Draw)
        ensures
            r == self.radians_spec(Scalar { raw: 0 }, yaw, Scalar { raw: 0 }),
    {
        self.y_radians(yaw)
    }

    /// The roll in radians; the same as `z_radians`.
    pub fn roll(&self, roll: Scalar) -> (r: Draw)
        ensures
            r == self.radians_spec(Scalar { raw: 0 }, Scalar { raw: 0 }, roll),
    {
        self.z_radians(roll)
    }

    /// Rotate about the z axis, in radians: clockwise when looking at the plane.
    pub fn rotate(&self, radians: Scalar) -> (r: Draw)
        ensures
            r == self.radians_spec(Scalar { raw: 0 }, Scalar { raw: 0 }, radians),
    {
        self.z_radians(radians)
    }

    /// A new handle that blends alpha with the given descriptor.
    pub fn alpha_blend(&self, blend_descriptor: BlendDescriptor) -> (r: Draw)
        ensures
            r == Draw::with_context(Context { alpha_blend: blend_descriptor, ..self.ctx() }),
    {
        let mut context = self.context.copy();
        context.alpha_blend = blend_descriptor;
        Draw { context }
    }

    /// A new handle that blends color with the given descriptor.
    pub fn color_blend(&self, blend_descriptor: BlendDescriptor) -> (r: Draw)
        ensures
            r == Draw::with_context(Context { color_blend: blend_descriptor, ..self.ctx() }),
    {
        let mut context = self.context.copy();
        context.color_blend = blend_descriptor;
        Draw { context }
    }

    /// Short for `color_blend`.
    pub fn blend(&self, blend_descriptor: BlendDescriptor) -> (r: Draw)
        ensures
            r == Draw::with_context(Context { color_blend: blend_descriptor, ..self.ctx() }),
    {
        self.color_blend(blend_descriptor)
    }

    /// A new handle cropped to `scissor`, within any scissor this one has.
    pub fn scissor(&self, scissor: Rect) -> (r: Draw)
        ensures
            r == Draw::with_context(Context { scissor: self.ctx().scissor.narrow_spec(scissor), ..self.ctx() }),
    {
        let mut context = self.context.copy();
        context.scissor = self.context.scissor.narrow(scissor);
        Draw { context }
    }

    /// A new handle that draws lines between vertices.
    pub fn line_mode(&self) -> (r: Draw)
        ensures
            r == Draw::with_context(Context { topology: PrimitiveTopology::LineList, ..self.ctx() }),
    {
        self.primitive_topology(PrimitiveTopology::LineList)
    }

    /// A new handle that draws a point at each vertex.
    pub fn point_mode(&self) -> (r: Draw)
        ensures
            r == Draw::with_context(Context { topology: PrimitiveTopology::PointList, ..self.ctx() }),
    {
        self.primitive_topology(PrimitiveTopology::PointList)
    }

    /// A new handle that fills triangles, the default.
    pub fn triangle_mode(&self) -> (r: Draw)
        ensures
            r == Draw::with_context(Context { topology: PrimitiveTopology::TriangleList, ..self.ctx() }),
    {
        self.primitive_topology(PrimitiveTopology::TriangleList)
    }

    /// A new handle that samples textures with the given sampler.
    pub fn sampler(&self, desc: SamplerDescriptor) -> (r: Draw)
        ensures
            r == Draw::with_context(Context { sampler: desc, ..self.ctx() }),
    {
        let mut context = self.context.copy();
        context.sampler = desc;
        Draw { context }
    }

    fn primitive_topology(&self, topology: PrimitiveTopology) -> (r: Draw)
        ensures
            r == Draw::with_context(Context { topology, ..self.ctx() }),
    {
        let mut context = self.context.copy();
        context.topology = topology;
        Draw { context }
    }

    /// Set the color the target is cleared with.
    pub fn background(&self) -> (r: Background) {
        Background {}
    }

    /// Start drawing the given shape with this handle's context.
    pub fn a(&self, state: &mut State, prim: Primitive) -> (r: Drawing)
        requires
            old(state).wf(),
            old(state)@.commands.len() + 2 <= usize::MAX,
        ensures
            final(state).wf(),
            (final(state)@, r.index()) == old(state)@.start(self.ctx(), prim),
    {
        let index = state.start(&self.context, prim);
        Drawing::new(index)
    }

    /// Start drawing an ellipse.
    pub fn ellipse(&self, state: &mut State) -> (r: DrawingEllipse)
        requires
            old(state).wf(),
            old(state)@.commands.len() + 2 <= usize::MAX,
        ensures
            final(state).wf(),
            (final(state)@, r.index()) == old(state)@.start(self.ctx(), Primitive::Ellipse(default_ellipse())),
    {
        let index = state.start(&self.context, Primitive::Ellipse(Ellipse::new()));
        DrawingEllipse::new(index)
    }

    /// Start drawing a line.
    pub fn line(&self, state: &mut State) -> (r: DrawingLine)
        requires
            old(state).wf(),
            old(state)@.commands.len() + 2 <= usize::MAX,
        ensures
            final(state).wf(),
            (final(state)@, r.index()) == old(state)@.start(self.ctx(), Primitive::Line(default_line())),
    {
        let index = state.start(&self.context, Primitive::Line(Line::new()));
        DrawingLine::new(index)
    }

    /// Start drawing an arrow.
    pub fn arrow(&self, state: &mut State) -> (r: DrawingArrow)
        requires
            old(state).wf(),
            old(state)@.commands.len() + 2 <= usize::MAX,
        ensures
            final(state).wf(),
            (final(state)@, r.index()) == old(state)@.start(self.ctx(), Primitive::Arrow(default_arrow())),
    {
        let index = state.start(&self.context, Primitive::Arrow(Arrow::new()));
        DrawingArrow::new(index)
    }

    /// Start drawing a path.
    pub fn path(&self, state: &mut State) -> (r: DrawingPathInit)
        requires
            old(state).wf(),
            old(state)@.commands.len() + 2 <= usize::MAX,
        ensures
            final(state).wf(),
            (final(state)@, r.index()) == old(state)@.start(self.ctx(), Primitive::PathInit(default_path_init())),
    {
        let index = state.start(&self.context, Primitive::PathInit(PathInit::new()));
        DrawingPathInit::new(index)
    }

    /// Start drawing a polygon.
    pub fn polygon(&self, state: &mut State) -> (r: DrawingPolygonInit)
        requires
            old(state).wf(),
            old(state)@.commands.len() + 2 <= usize::MAX,
        ensures
            final(state).wf(),
            (final(state)@, r.index()) == old(state)@.start(self.ctx(), Primitive::PolygonInit(PolygonInit { opts: default_polygon() })),
    {
        let index = state.start(&self.context, Primitive::PolygonInit(PolygonInit::new()));
        DrawingPolygonInit::new(index)
    }

    /// Start drawing a mesh.
    pub fn mesh(&self, state: &mut State) -> (r: DrawingMeshVertexless)
        requires
            old(state).wf(),
            old(state)@.commands.len() + 2 <= usize::MAX,
        ensures
            final(state).wf(),
            (final(state)@, r.index()) == old(state)@.start(self.ctx(), Primitive::MeshVertexless(MeshVertexless { position: default_position(), orientation: default_orientation() })),
    {
        let index = state.start(&self.context, Primitive::MeshVertexless(MeshVertexless::new()));
        DrawingMeshVertexless::new(index)
    }

    /// Start drawing a stroked path: short for a path that is then stroked.
    pub fn polyline(&self, state: &mut State) -> (r: DrawingPathStroke)
        requires
            old(state).wf(),
            old(state)@.commands.len() + 2 <= usize::MAX,
        ensures
            final(state).wf(),
            (final(state)@, r.index()) == old(state)@.start(self.ctx(), Primitive::PathStroke(default_path_stroke())),
    {
        let index = state.start(&self.context, Primitive::PathStroke(PathStroke::new()));
        DrawingPathStroke::new(index)
    }

    /// Start drawing a texture, given the backend's handle on it.
    pub fn texture(&self, state: &mut State, view: u64) -> (r: DrawingTexture)
        requires
            old(state).wf(),
            old(state)@.commands.len() + 2 <= usize::MAX,
        ensures
            final(state).wf(),
            (final(state)@, r.index()) == old(state)@.start(
                self.ctx(),
                Primitive::Texture(Texture {
                    view,
                    dimensions: no_dimensions(),
                    position: default_position(),
                    orientation: default_orientation(),
                }),
            ),
    {
        let index = state.start(&self.context, Primitive::Texture(Texture::new(view)));
        DrawingTexture::new(index)
    }

    /// Start drawing text: the text is added to the text buffer, and the
    /// shape holds the characters it took there.
    pub fn text(&self, state: &mut State, s: &str) -> (r: DrawingText)
        requires
            old(state).wf(),
            old(state)@.commands.len() + 2 <= usize::MAX,
        ensures
            final(state).wf(),
            ({
                let v = old(state)@.with_text(s@);
                let span = Span {
                    start: old(state)@.scratch.text.len() as usize,
                    end: v.scratch.text.len() as usize,
                };
                (final(state)@, r.index()) == v.start(
                    self.ctx(),
                    Primitive::Text(Text {
                        text: span,
                        color: None,
                        position: default_position(),
                        dimensions: no_dimensions(),
                    }),
                )
            }),
    {
        let span = state.push_text(s);
        let index = state.start(&self.context, Primitive::Text(Text::new(span)));
        DrawingText::new(index)
    }

    /// Start drawing a quad.
    pub fn quad(&self, state: &mut State) -> (r: DrawingQuad)
        requires
            old(state).wf(),
            old(state)@.commands.len() + 2 <= usize::MAX,
        ensures
            final(state).wf(),
            (final(state)@, r.index()) == old(state)@.start(self.ctx(), Primitive::Quad(default_quad())),
    {
        let index = state.start(&self.context, Primitive::Quad(Quad::new()));
        DrawingQuad::new(index)
    }

    /// Start drawing a rectangle.
    pub fn rect(&self, state: &mut State) -> (r: DrawingRect)
        requires
            old(state).wf(),
            old(state)@.commands.len() + 2 <= usize::MAX,
        ensures
            final(state).wf(),
            (final(state)@, r.index()) == old(state)@.start(self.ctx(), Primitive::Rect(default_rect())),
    {
        let index = state.start(&self.context, Primitive::Rect(RectShape::new()));
        DrawingRect::new(index)
    }

    /// Start drawing a triangle.
    pub fn tri(&self, state: &mut State) -> (r: DrawingTri)
        requires
            old(state).wf(),
            old(state)@.commands.len() + 2 <= usize::MAX,
        ensures
            final(state).wf(),
            (final(state)@, r.index()) == old(state)@.start(self.ctx(), Primitive::Tri(default_tri())),
    {
        let index = state.start(&self.context, Primitive::Tri(Tri::new()));
        DrawingTri::new(index)
    }

    /// Finish every shape in progress, then hand over all recorded commands in order.
    pub fn drain_commands(&self, state: &mut State) -> (r: Vec<DrawCommand>)
        requires
            old(state).wf(),
        ensures
            final(state).wf(),
            final(state)@ == old(state)@.drained(),
            r@ == old(state)@.finalized(),
            crate::state::changes_not_redundant(crate::state::as_slots(r@)),
    {
        state.drain_commands()
    }

    /// Finish every shape in progress, each into the slot reserved for it.
    pub fn finish_remaining_drawings(&self, state: &mut State)
        requires
            old(state).wf(),
        ensures
            final(state).wf(),
            final(state)@ == old(state)@.finish_all(),
    {
        state.finish_remaining_drawings()
    }
}

impl Clone for Draw {
    fn clone(&self) -> (r: Self)
        ensures
            r == *self,
    {
        Draw { context: self.context.copy() }
    }
}

impl Default for Draw {
    fn default() -> (r: Self)
        ensures
            r.ctx() == crate::context::default_context(),
    {
        Draw::new()
    }
}

} // verus!
