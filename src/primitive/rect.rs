//! An axis-aligned rectangle, sized by width and height.
use crate::geom::{clamp_i64, div_trunc, Point3, Range, Scalar};
use crate::primitive::ellipse::DEFAULT_SIDE;
use crate::primitive::RenderError;
use crate::properties::{default_polygon, no_dimensions, Dimensions, PolygonOptions, Srgba};
use vstd::prelude::*;

verus! {

/// Properties related to drawing a rectangle.
#[derive(Clone, Copy, Debug, PartialEq, Eq, Structural)]
pub struct Rect {
    pub dimensions: Dimensions,
    pub polygon: PolygonOptions,
}

pub open spec fn default_rect() -> Rect {
    Rect { dimensions: no_dimensions(), polygon: default_polygon() }
}

impl Rect {
    pub fn new() -> (r: Rect)
        ensures
            r == default_rect(),
    {
        Rect { dimensions: Dimensions::new(), polygon: PolygonOptions::new() }
    }

    /// The centre of a range, rounded toward zero.
    pub open spec fn middle_spec(r: Range) -> Scalar {
        Scalar { raw: div_trunc(r.start.val() + r.end.val(), 2) as i64 }
    }

    /// The length of a range, saturating at the bounds.
    pub open spec fn len_spec(r: Range) -> Scalar {
        Scalar { raw: clamp_i64(r.hi() - r.lo()) as i64 }
    }

    /// A rectangle drawn over the given region: centred on its middle, as wide
    /// and high as it is.
    pub fn from_region(region: crate::geom::Rect) -> (r: Rect)
        ensures
            r.polygon == (PolygonOptions {
                position: crate::properties::Position {
                    point: Point3 {
                        x: Rect::middle_spec(region.x),
                        y: Rect::middle_spec(region.y),
                        z: Scalar { raw: 0 },
                    },
                },
                ..default_polygon()
            }),
            r.dimensions == (Dimensions {
                x: Some(Rect::len_spec(region.x)),
                y: Some(Rect::len_spec(region.y)),
                z: None,
            }),
    {
        let x = middle(region.x);
        let y = middle(region.y);
        let w = region.x.absolute();
        let h = region.y.absolute();
        Rect::new().x_y(x, y).w_h(w.end.sub_sat(w.start), h.end.sub_sat(h.start))
    }

    /// Stroke the outline with the given color.
    pub fn stroke(self, color: Srgba) -> (r: Rect)
        ensures
            r == (Rect { polygon: self.polygon.stroke_color_spec(color), ..self }),
    {
        Rect { polygon: self.polygon.stroke_color(color), ..self }
    }

    /// Specify the width and height.
    pub fn w_h(self, w: Scalar, h: Scalar) -> (r: Rect)
        ensures
            r == (Rect { dimensions: Dimensions { x: Some(w), y: Some(h), ..self.dimensions }, ..self }),
    {
        Rect { dimensions: Dimensions { x: Some(w), y: Some(h), ..self.dimensions }, ..self }
    }

    /// Fill with the given color.
    pub fn color(self, color: Srgba) -> (r: Rect)
        ensures
            r == (Rect { polygon: self.polygon.color_spec(color), ..self }),
    {
        Rect { polygon: self.polygon.color(color), ..self }
    }

    /// Center the rectangle on the given point of the plane, keeping its depth.
    pub fn x_y(self, x: Scalar, y: Scalar) -> (r: Rect)
        ensures
            r == (Rect { polygon: self.polygon.x_y_spec(x, y), ..self }),
    {
        Rect { polygon: self.polygon.x_y(x, y), ..self }
    }

    /// Set the width of the outline.
    pub fn stroke_weight(self, weight: Scalar) -> (r: Rect)
        ensures
            r == (Rect { polygon: self.polygon.stroke_weight_spec(weight), ..self }),
    {
        Rect { polygon: self.polygon.stroke_weight(weight), ..self }
    }

    /// Turn the rectangle to `radians` about the z axis.
    pub fn rotate(self, radians: Scalar) -> (r: Rect)
        ensures
            r == (Rect { polygon: self.polygon.z_radians_spec(radians), ..self }),
    {
        Rect { polygon: self.polygon.z_radians(radians), ..self }
    }

    /// The width and height to draw: those given, else one hundred units each.
    pub open spec fn size_spec(self) -> (Scalar, Scalar) {
        (
            match self.dimensions.x { Some(w) => w, None => Scalar { raw: DEFAULT_SIDE } },
            match self.dimensions.y { Some(h) => h, None => Scalar { raw: DEFAULT_SIDE } },
        )
    }

    /// The width and height to draw, or an error where a depth was given.
    pub fn size(&self) -> (r: Result<(Scalar, Scalar), RenderError>)
        ensures
            self.dimensions.z is Some ==> r == Err::<(Scalar, Scalar), RenderError>(RenderError::UnsupportedConfiguration),
            self.dimensions.z is None ==> r == Ok::<(Scalar, Scalar), RenderError>(self.size_spec()),
    {
        if self.dimensions.z.is_some() {
            return Err(RenderError::UnsupportedConfiguration);
        }
        let w = match self.dimensions.x {
            Some(w) => w,
            None => Scalar { raw: DEFAULT_SIDE },
        };
        let h = match self.dimensions.y {
            Some(h) => h,
            None => Scalar { raw: DEFAULT_SIDE },
        };
        Ok((w, h))
    }
}

fn middle(r: Range) -> (m: Scalar)
    ensures
        m == Rect::middle_spec(r),
{
    let sum: i128 = r.start.raw as i128 + r.end.raw as i128;
    Scalar { raw: (sum / 2) as i64 }
}

} // verus!
