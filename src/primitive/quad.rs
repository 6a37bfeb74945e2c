//! A four-sided polygon given by its corners.
use crate::geom::{div_trunc, max_int, min_int, stretch, stretch_spec, Point2, Scalar};
use crate::properties::{default_polygon, no_dimensions, Dimensions, PolygonOptions, Srgba};
use vstd::prelude::*;

verus! {

/// The four corners of a quad, in drawing order.
#[derive(Clone, Copy, Debug, PartialEq, Eq, Structural)]
pub struct Corners {
    pub a: Point2,
    pub b: Point2,
    pub c: Point2,
    pub d: Point2,
}

/// Properties related to drawing a quad.
#[derive(Clone, Copy, Debug, PartialEq, Eq, Structural)]
pub struct Quad {
    pub quad: Corners,
    pub polygon: PolygonOptions,
    pub dimensions: Dimensions,
}

/// The corners of the quad drawn when none are given: a square of one
/// hundred units centred on the origin.
pub open spec fn default_corners() -> Corners {
    let lo = Scalar { raw: -50_000_000i64 };
    let hi = Scalar { raw: 50_000_000 };
    Corners {
        a: Point2 { x: lo, y: lo },
        b: Point2 { x: lo, y: hi },
        c: Point2 { x: hi, y: hi },
        d: Point2 { x: hi, y: lo },
    }
}

pub open spec fn default_quad() -> Quad {
    Quad { quad: default_corners(), polygon: default_polygon(), dimensions: no_dimensions() }
}

/// The least of four values.
pub open spec fn min4(a: int, b: int, c: int, d: int) -> int {
    min_int(min_int(a, b), min_int(c, d))
}

/// The greatest of four values.
pub open spec fn max4(a: int, b: int, c: int, d: int) -> int {
    max_int(max_int(a, b), max_int(c, d))
}

/// A coordinate stretched about `c` from a span of `extent` to the target
/// size, where one was given.
pub open spec fn stretch_axis(v: Scalar, c: int, target: Option<Scalar>, extent: int) -> Scalar {
    match target {
        Some(t) => Scalar { raw: stretch_spec(v.val(), c, t.val(), extent) as i64 },
        None => v,
    }
}

impl Corners {
    /// The mean of the x coordinates, rounded toward zero.
    pub open spec fn centroid_x(self) -> int {
        div_trunc(self.a.x.val() + self.b.x.val() + self.c.x.val() + self.d.x.val(), 4)
    }

    /// The mean of the y coordinates, rounded toward zero.
    pub open spec fn centroid_y(self) -> int {
        div_trunc(self.a.y.val() + self.b.y.val() + self.c.y.val() + self.d.y.val(), 4)
    }

    /// The width of the bounding box.
    pub open spec fn extent_x(self) -> int {
        max4(self.a.x.val(), self.b.x.val(), self.c.x.val(), self.d.x.val())
            - min4(self.a.x.val(), self.b.x.val(), self.c.x.val(), self.d.x.val())
    }

    /// The height of the bounding box.
    pub open spec fn extent_y(self) -> int {
        max4(self.a.y.val(), self.b.y.val(), self.c.y.val(), self.d.y.val())
            - min4(self.a.y.val(), self.b.y.val(), self.c.y.val(), self.d.y.val())
    }

    /// A corner stretched about the centroid to the given width and height.
    pub open spec fn stretch_point(self, p: Point2, w: Option<Scalar>, h: Option<Scalar>) -> Point2 {
        Point2 {
            x: stretch_axis(p.x, self.centroid_x(), w, self.extent_x()),
            y: stretch_axis(p.y, self.centroid_y(), h, self.extent_y()),
        }
    }
}

fn min4_exec(a: i64, b: i64, c: i64, d: i64) -> (r: i64)
    ensures
        r == min4(a as int, b as int, c as int, d as int),
{
    let ab = if a <= b { a } else { b };
    let cd = if c <= d { c } else { d };
    if ab <= cd { ab } else { cd }
}

fn max4_exec(a: i64, b: i64, c: i64, d: i64) -> (r: i64)
    ensures
        r == max4(a as int, b as int, c as int, d as int),
{
    let ab = if a >= b { a } else { b };
    let cd = if c >= d { c } else { d };
    if ab >= cd { ab } else { cd }
}

fn mean4_exec(a: i64, b: i64, c: i64, d: i64) -> (r: i64)
    ensures
        r == div_trunc(a + b + c + d, 4),
{
    let sum: i128 = a as i128 + b as i128 + c as i128 + d as i128;
    let q: i128 = sum / 4;
    q as i64
}

fn stretch_axis_exec(v: Scalar, c: i64, target: Option<Scalar>, lo: i64, hi: i64) -> (r: Scalar)
    requires
        lo <= hi,
    ensures
        r == stretch_axis(v, c as int, target, hi - lo),
{
    match target {
        Some(t) => Scalar { raw: stretch(v.raw, c, t.raw, (hi as i128 - lo as i128) as u64) },
        None => v,
    }
}

impl Quad {
    pub fn new() -> (r: Quad)
        ensures
            r == default_quad(),
    {
        let lo = Scalar { raw: -50_000_000i64 };
        let hi = Scalar { raw: 50_000_000i64 };
        let quad = Corners {
            a: Point2 { x: lo, y: lo },
            b: Point2 { x: lo, y: hi },
            c: Point2 { x: hi, y: hi },
            d: Point2 { x: hi, y: lo },
        };
        Quad { quad, polygon: PolygonOptions::new(), dimensions: Dimensions::new() }
    }

    /// A quad with the given corners.
    pub fn from_corners(quad: Corners) -> (r: Quad)
        ensures
            r == (Quad { quad, polygon: default_polygon(), dimensions: no_dimensions() }),
    {
        Quad { quad, polygon: PolygonOptions::new(), dimensions: Dimensions::new() }
    }

    /// Stretch the corners to the given width and height when drawn.
    pub fn w_h(self, w: Scalar, h: Scalar) -> (r: Quad)
        ensures
            r == (Quad { dimensions: Dimensions { x: Some(w), y: Some(h), ..self.dimensions }, ..self }),
    {
        Quad { dimensions: Dimensions { x: Some(w), y: Some(h), ..self.dimensions }, ..self }
    }

    /// Stroke the outline with the given color.
    pub fn stroke(self, color: Srgba) -> (r: Quad)
        ensures
            r == (Quad { polygon: self.polygon.stroke_color_spec(color), ..self }),
    {
        Quad { polygon: self.polygon.stroke_color(color), ..self }
    }

    /// Use the given four points as the corners of the quad.
    pub fn points(self, a: Point2, b: Point2, c: Point2, d: Point2) -> (r: Quad)
        ensures
            r == (Quad { quad: Corners { a, b, c, d }, ..self }),
    {
        Quad { quad: Corners { a, b, c, d }, ..self }
    }

    /// Fill with the given color.
    pub fn color(self, color: Srgba) -> (r: Quad)
        ensures
            r == (Quad { polygon: self.polygon.color_spec(color), ..self }),
    {
        Quad { polygon: self.polygon.color(color), ..self }
    }

    /// Move the quad to the given point of the plane, keeping its depth.
    pub fn x_y(self, x: Scalar, y: Scalar) -> (r: Quad)
        ensures
            r == (Quad { polygon: self.polygon.x_y_spec(x, y), ..self }),
    {
        Quad { polygon: self.polygon.x_y(x, y), ..self }
    }

    /// Set the width of the outline.
    pub fn stroke_weight(self, weight: Scalar) -> (r: Quad)
        ensures
            r == (Quad { polygon: self.polygon.stroke_weight_spec(weight), ..self }),
    {
        Quad { polygon: self.polygon.stroke_weight(weight), ..self }
    }

    /// Turn the quad to `radians` about the z axis.
    pub fn rotate(self, radians: Scalar) -> (r: Quad)
        ensures
            r == (Quad { polygon: self.polygon.z_radians_spec(radians), ..self }),
    {
        Quad { polygon: self.polygon.z_radians(radians), ..self }
    }
    /// The corners to draw: as given where no size was set; else stretched
    /// about their centroid so that the bounding box takes the size given on
    /// each axis that has one. An axis along which the corners have no extent
    /// is left as it is.
    pub open spec fn vertices_spec(self) -> Corners {
        let (w, h) = (self.dimensions.x, self.dimensions.y);
        if w is None && h is None {
            self.quad
        } else {
            let q = self.quad;
            Corners {
                a: q.stretch_point(q.a, w, h),
                b: q.stretch_point(q.b, w, h),
                c: q.stretch_point(q.c, w, h),
                d: q.stretch_point(q.d, w, h),
            }
        }
    }

    /// The corners to draw, stretched to the dimensions where any were set.
    pub fn vertices(&self) -> (r: Corners)
        ensures
            r == self.vertices_spec(),
    {
        let w = self.dimensions.x;
        let h = self.dimensions.y;
        if w.is_none() && h.is_none() {
            return self.quad;
        }
        let q = self.quad;
        let cx = mean4_exec(q.a.x.raw, q.b.x.raw, q.c.x.raw, q.d.x.raw);
        let cy = mean4_exec(q.a.y.raw, q.b.y.raw, q.c.y.raw, q.d.y.raw);
        let lx = min4_exec(q.a.x.raw, q.b.x.raw, q.c.x.raw, q.d.x.raw);
        let hx = max4_exec(q.a.x.raw, q.b.x.raw, q.c.x.raw, q.d.x.raw);
        let ly = min4_exec(q.a.y.raw, q.b.y.raw, q.c.y.raw, q.d.y.raw);
        let hy = max4_exec(q.a.y.raw, q.b.y.raw, q.c.y.raw, q.d.y.raw);
        Corners {
            a: Point2 { x: stretch_axis_exec(q.a.x, cx, w, lx, hx), y: stretch_axis_exec(q.a.y, cy, h, ly, hy) },
            b: Point2 { x: stretch_axis_exec(q.b.x, cx, w, lx, hx), y: stretch_axis_exec(q.b.y, cy, h, ly, hy) },
            c: Point2 { x: stretch_axis_exec(q.c.x, cx, w, lx, hx), y: stretch_axis_exec(q.c.y, cy, h, ly, hy) },
            d: Point2 { x: stretch_axis_exec(q.d.x, cx, w, lx, hx), y: stretch_axis_exec(q.d.y, cy, h, ly, hy) },
        }
    }
}

} // verus!
