//! What each shape becomes in a vector document: its outline in the shape's
//! own frame, with the y axis pointing down as vector documents have it, and
//! the translation, rotation, fill and stroke that place and paint it. The
//! context's transform is applied on top by whoever writes the document.
use crate::geom::{clamp_i64, div_trunc, half, rad_to_deg_sat, rad_to_deg_spec, Point2, Point3, Scalar};
use crate::primitive::ellipse::{Ellipse, DEFAULT_SIDE};
use crate::primitive::line::Line;
use crate::primitive::quad::{Corners, Quad};
use crate::primitive::rect::Rect;
use crate::primitive::tri::{Tri, TriCorners};
use crate::primitive::{Primitive, RenderError, Span};
use crate::properties::{LineCap, Orientation, PolygonOptions, Srgba};
use vstd::prelude::*;

verus! {

/// The outline of an element, in its own frame with y pointing down.
#[derive(Clone, Copy, Debug, PartialEq, Eq, Structural)]
pub enum SvgShape {
    /// An ellipse centred on the origin.
    Ellipse { rx: Scalar, ry: Scalar },
    /// A straight segment.
    Line { from: Point2, to: Point2, cap: LineCap },
    /// A closed path through four corners.
    Quad(Corners),
    /// A closed path through three corners.
    Tri(TriCorners),
    /// A closed path through the given entries of the colored point buffer,
    /// whose y coordinates point up.
    Polygon(Span),
    /// A rectangle given by its top-left corner and size.
    Rect { x: Scalar, y: Scalar, width: Scalar, height: Scalar },
}

/// One element of a vector document.
#[derive(Clone, Copy, Debug, PartialEq, Eq, Structural)]
pub struct SvgElement {
    pub shape: SvgShape,
    /// Where the element's origin goes, y pointing down.
    pub translate: Point2,
    /// The rotation about the element's origin, in degrees, clockwise.
    pub rotate: Scalar,
    pub fill: Option<Srgba>,
    pub stroke: Option<Srgba>,
    pub stroke_width: Option<Scalar>,
}

/// The color used where a shape that must be painted was given none.
pub open spec fn black() -> Srgba {
    Srgba { red: 0, green: 0, blue: 0, alpha: 255 }
}

/// A point of the plane with y pointing down.
pub open spec fn flip_spec(p: Point2) -> Point2 {
    Point2 { x: p.x, y: Scalar { raw: clamp_i64(-p.y.val()) as i64 } }
}

/// Where a shape positioned at `p` goes, y pointing down.
pub open spec fn translate_spec(p: Point3) -> Point2 {
    flip_spec(Point2 { x: p.x, y: p.y })
}

/// The clockwise rotation in degrees of an orientation about the z axis.
pub open spec fn rotate_spec(o: Orientation) -> Scalar {
    Scalar { raw: clamp_i64(-clamp_i64(rad_to_deg_spec(o.axes().z))) as i64 }
}

/// The fill color, or black where none was given.
pub open spec fn fill_spec(o: PolygonOptions) -> Srgba {
    match o.color {
        Some(c) => c,
        None => black(),
    }
}

/// The element a polygon-like shape becomes, given its outline.
pub open spec fn polygon_element(shape: SvgShape, o: PolygonOptions) -> SvgElement {
    SvgElement {
        shape,
        translate: translate_spec(o.position.point),
        rotate: rotate_spec(o.orientation),
        fill: Some(fill_spec(o)),
        stroke: o.stroke_color,
        stroke_width: match o.stroke {
            Some(s) => Some(s.line_width),
            None => None,
        },
    }
}

pub open spec fn side_spec(side: Option<Scalar>) -> Scalar {
    match side {
        Some(s) => s,
        None => Scalar { raw: DEFAULT_SIDE },
    }
}

pub open spec fn half_spec(s: Scalar) -> Scalar {
    Scalar { raw: div_trunc(s.val(), 2) as i64 }
}

/// The element an ellipse becomes: radii half the width and height, one
/// hundred units where unset.
pub open spec fn ellipse_element(e: Ellipse) -> SvgElement {
    polygon_element(
        SvgShape::Ellipse {
            rx: half_spec(side_spec(e.dimensions.x)),
            ry: half_spec(side_spec(e.dimensions.y)),
        },
        e.polygon,
    )
}

/// The element a rectangle becomes: centred on its origin, one hundred
/// units wide and high where unset.
pub open spec fn rect_element(r: Rect) -> SvgElement {
    let w = side_spec(r.dimensions.x);
    let h = side_spec(r.dimensions.y);
    polygon_element(
        SvgShape::Rect {
            x: Scalar { raw: clamp_i64(-half_spec(w).val()) as i64 },
            y: Scalar { raw: clamp_i64(-half_spec(h).val()) as i64 },
            width: w,
            height: h,
        },
        r.polygon,
    )
}

/// The element a quad becomes: its corners, stretched to its dimensions.
pub open spec fn quad_element(q: Quad) -> SvgElement {
    let v = q.vertices_spec();
    polygon_element(
        SvgShape::Quad(
            Corners { a: flip_spec(v.a), b: flip_spec(v.b), c: flip_spec(v.c), d: flip_spec(v.d) },
        ),
        q.polygon,
    )
}

/// The element a triangle becomes.
pub open spec fn tri_element(t: Tri) -> SvgElement {
    polygon_element(
        SvgShape::Tri(TriCorners { a: flip_spec(t.tri.a), b: flip_spec(t.tri.b), c: flip_spec(t.tri.c) }),
        t.polygon,
    )
}

/// The element a line becomes, or none where it has no length.
pub open spec fn line_element(l: Line) -> Option<SvgElement> {
    match l.segment_spec() {
        None => None,
        Some((a, b)) => Some(
            SvgElement {
                shape: SvgShape::Line { from: flip_spec(a), to: flip_spec(b), cap: l.path.opts.start_cap },
                translate: translate_spec(l.path.position.point),
                rotate: rotate_spec(l.path.orientation),
                fill: None,
                stroke: Some(
                    match l.path.color {
                        Some(c) => c,
                        None => black(),
                    },
                ),
                stroke_width: Some(l.path.opts.line_width),
            },
        ),
    }
}

/// The element a shape becomes: none where it contributes nothing (an
/// ellipse of zero width and height, a line without length) or where vector
/// documents do not draw the shape (arrows, paths, meshes, text, textures,
/// shapes not yet given their points); an error where a flat shape was given
/// a depth.
pub open spec fn element_spec(p: Primitive) -> Result<Option<SvgElement>, RenderError> {
    match p {
        Primitive::Ellipse(e) => if e.dimensions.z is Some {
            Err(RenderError::UnsupportedConfiguration)
        } else if side_spec(e.dimensions.x).val() == 0 && side_spec(e.dimensions.y).val() == 0 {
            Ok(None)
        } else {
            Ok(Some(ellipse_element(e)))
        },
        Primitive::Rect(r) => if r.dimensions.z is Some {
            Err(RenderError::UnsupportedConfiguration)
        } else {
            Ok(Some(rect_element(r)))
        },
        Primitive::Quad(q) => Ok(Some(quad_element(q))),
        Primitive::Tri(t) => Ok(Some(tri_element(t))),
        Primitive::Line(l) => Ok(line_element(l)),
        Primitive::Arrow(_) => Ok(None),
        Primitive::Polygon(p) => Ok(Some(polygon_element(SvgShape::Polygon(p.points), p.opts))),
        Primitive::PathInit(_) => Ok(None),
        Primitive::PathFill(_) => Ok(None),
        Primitive::PathStroke(_) => Ok(None),
        Primitive::Path(_) => Ok(None),
        Primitive::PolygonInit(_) => Ok(None),
        Primitive::MeshVertexless(_) => Ok(None),
        Primitive::Mesh(_) => Ok(None),
        Primitive::Text(_) => Ok(None),
        Primitive::Texture(_) => Ok(None),
    }
}

fn flip(p: Point2) -> (r: Point2)
    ensures
        r == flip_spec(p),
{
    Point2 { x: p.x, y: p.y.neg_sat() }
}

fn rotate_of(o: Orientation) -> (r: Scalar)
    ensures
        r == rotate_spec(o),
{
    let z = match o {
        Orientation::Axes(v) => v.z,
        Orientation::LookAt(_) => Scalar::zero(),
    };
    rad_to_deg_sat(z).neg_sat()
}

fn polygon_element_exec(shape: SvgShape, o: PolygonOptions) -> (r: SvgElement)
    ensures
        r == polygon_element(shape, o),
{
    let fill = match o.color {
        Some(c) => c,
        None => Srgba { red: 0, green: 0, blue: 0, alpha: 255 },
    };
    let stroke_width = match o.stroke {
        Some(s) => Some(s.line_width),
        None => None,
    };
    SvgElement {
        shape,
        translate: flip(Point2 { x: o.position.point.x, y: o.position.point.y }),
        rotate: rotate_of(o.orientation),
        fill: Some(fill),
        stroke: o.stroke_color,
        stroke_width,
    }
}

fn side(s: Option<Scalar>) -> (r: Scalar)
    ensures
        r == side_spec(s),
{
    match s {
        Some(s) => s,
        None => Scalar { raw: DEFAULT_SIDE },
    }
}

/// The element a shape becomes in a vector document, or `None` where it
/// contributes nothing.
pub fn svg_element(p: &Primitive) -> (r: Result<Option<SvgElement>, RenderError>)
    ensures
        r == element_spec(*p),
{
    match p {
        Primitive::Ellipse(e) => {
            if e.dimensions.z.is_some() {
                return Err(RenderError::UnsupportedConfiguration);
            }
            let (w, h) = (side(e.dimensions.x), side(e.dimensions.y));
            if w.raw == 0 && h.raw == 0 {
                return Ok(None);
            }
            let shape = SvgShape::Ellipse { rx: half(w), ry: half(h) };
            Ok(Some(polygon_element_exec(shape, e.polygon)))
        },
        Primitive::Rect(r) => {
            if r.dimensions.z.is_some() {
                return Err(RenderError::UnsupportedConfiguration);
            }
            let w = side(r.dimensions.x);
            let h = side(r.dimensions.y);
            let shape = SvgShape::Rect { x: half(w).neg_sat(), y: half(h).neg_sat(), width: w, height: h };
            Ok(Some(polygon_element_exec(shape, r.polygon)))
        },
        Primitive::Quad(q) => {
            let v = q.vertices();
            let shape = SvgShape::Quad(Corners { a: flip(v.a), b: flip(v.b), c: flip(v.c), d: flip(v.d) });
            Ok(Some(polygon_element_exec(shape, q.polygon)))
        },
        Primitive::Tri(t) => {
            let shape = SvgShape::Tri(TriCorners { a: flip(t.tri.a), b: flip(t.tri.b), c: flip(t.tri.c) });
            Ok(Some(polygon_element_exec(shape, t.polygon)))
        },
        Primitive::Line(l) => match l.segment() {
            None => Ok(None),
            Some((a, b)) => {
                let stroke = match l.path.color {
                    Some(c) => c,
                    None => Srgba { red: 0, green: 0, blue: 0, alpha: 255 },
                };
                Ok(
                    Some(
                        SvgElement {
                            shape: SvgShape::Line { from: flip(a), to: flip(b), cap: l.path.opts.start_cap },
                            translate: flip(Point2 { x: l.path.position.point.x, y: l.path.position.point.y }),
                            rotate: rotate_of(l.path.orientation),
                            fill: None,
                            stroke: Some(stroke),
                            stroke_width: Some(l.path.opts.line_width),
                        },
                    ),
                )
            },
        },
        Primitive::Arrow(_) => Ok(None),
        Primitive::Polygon(p) => Ok(Some(polygon_element_exec(SvgShape::Polygon(p.points), p.opts))),
        Primitive::PathInit(_) => Ok(None),
        Primitive::PathFill(_) => Ok(None),
        Primitive::PathStroke(_) => Ok(None),
        Primitive::Path(_) => Ok(None),
        Primitive::PolygonInit(_) => Ok(None),
        Primitive::MeshVertexless(_) => Ok(None),
        Primitive::Mesh(_) => Ok(None),
        Primitive::Text(_) => Ok(None),
        Primitive::Texture(_) => Ok(None),
    }
}

} // verus!
