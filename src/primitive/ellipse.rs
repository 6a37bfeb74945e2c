//! An ellipse, sized by width and height or by a radius.
use crate::geom::{fits_i64, Scalar};
use crate::primitive::RenderError;
use crate::properties::{
    default_polygon, no_dimensions, Dimensions, PolygonOptions, Srgba,
};
use vstd::prelude::*;

verus! {

/// The width or height used where none was given: one hundred units.
pub const DEFAULT_SIDE: i64 = 100_000_000;

/// Properties related to drawing an ellipse.
#[derive(Clone, Copy, Debug, PartialEq, Eq, Structural)]
pub struct Ellipse {
    pub dimensions: Dimensions,
    pub resolution: Option<usize>,
    pub polygon: PolygonOptions,
}

pub open spec fn default_ellipse() -> Ellipse {
    Ellipse { dimensions: no_dimensions(), resolution: None, polygon: default_polygon() }
}

impl Ellipse {
    pub fn new() -> (r: Ellipse)
        ensures
            r == default_ellipse(),
    {
        Ellipse { dimensions: Dimensions::new(), resolution: None, polygon: PolygonOptions::new() }
    }

    /// Stroke the outline with the given color.
    pub fn stroke(self, color: Srgba) -> (r: Ellipse)
        ensures
            r == (Ellipse { polygon: self.polygon.stroke_color_spec(color), ..self }),
    {
        Ellipse { polygon: self.polygon.stroke_color(color), ..self }
    }

    /// The ellipse with the given width and height.
    pub open spec fn w_h_spec(self, w: Scalar, h: Scalar) -> Ellipse {
        Ellipse { dimensions: Dimensions { x: Some(w), y: Some(h), ..self.dimensions }, ..self }
    }

    /// Specify the width and height.
    pub fn w_h(self, w: Scalar, h: Scalar) -> (r: Ellipse)
        ensures
            r == self.w_h_spec(w, h),
    {
        Ellipse { dimensions: Dimensions { x: Some(w), y: Some(h), ..self.dimensions }, ..self }
    }

    /// Specify the width and height through a radius: both become twice the radius.
    pub fn radius(self, radius: Scalar) -> (r: Ellipse)
        requires
            fits_i64(2 * radius.val()),
        ensures
            r == self.w_h_spec(Scalar { raw: (2 * radius.val()) as i64 }, Scalar { raw: (2 * radius.val()) as i64 }),
    {
        let side = Scalar { raw: radius.raw * 2 };
        self.w_h(side, side)
    }

    /// The number of sides used to draw the ellipse.
    ///
    /// Without one, the number of vertices follows from the stroke tolerance.
    pub fn resolution(self, resolution: usize) -> (r: Ellipse)
        ensures
            r == (Ellipse { resolution: Some(resolution), ..self }),
    {
        Ellipse { resolution: Some(resolution), ..self }
    }

    /// Fill with the given color.
    pub fn color(self, color: Srgba) -> (r: Ellipse)
        ensures
            r == (Ellipse { polygon: self.polygon.color_spec(color), ..self }),
    {
        Ellipse { polygon: self.polygon.color(color), ..self }
    }

    /// Center the ellipse on the given point of the plane, keeping its depth.
    pub fn x_y(self, x: Scalar, y: Scalar) -> (r: Ellipse)
        ensures
            r == (Ellipse { polygon: self.polygon.x_y_spec(x, y), ..self }),
    {
        Ellipse { polygon: self.polygon.x_y(x, y), ..self }
    }

    /// Set the width of the outline.
    pub fn stroke_weight(self, weight: Scalar) -> (r: Ellipse)
        ensures
            r == (Ellipse { polygon: self.polygon.stroke_weight_spec(weight), ..self }),
    {
        Ellipse { polygon: self.polygon.stroke_weight(weight), ..self }
    }

    /// The width and height to draw: the magnitudes of those given (saturating
    /// at the largest value), else one hundred units each.
    pub open spec fn size_spec(self) -> (Scalar, Scalar) {
        (side_or_default(self.dimensions.x), side_or_default(self.dimensions.y))
    }

    /// The width and height to draw, or an error where a depth was given.
    pub fn size(&self) -> (r: Result<(Scalar, Scalar), RenderError>)
        ensures
            self.dimensions.z is Some ==> r == Err::<(Scalar, Scalar), RenderError>(RenderError::UnsupportedConfiguration),
            self.dimensions.z is None ==> r == Ok::<(Scalar, Scalar), RenderError>(self.size_spec()),
    {
        if self.dimensions.z.is_some() {
            return Err(RenderError::UnsupportedConfiguration);
        }
        Ok((side_or_default_exec(self.dimensions.x), side_or_default_exec(self.dimensions.y)))
    }
}

pub open spec fn side_or_default(side: Option<Scalar>) -> Scalar {
    match side {
        Some(s) => Scalar { raw: crate::geom::clamp_i64(crate::geom::abs_int(s.val())) as i64 },
        None => Scalar { raw: DEFAULT_SIDE },
    }
}

fn side_or_default_exec(side: Option<Scalar>) -> (r: Scalar)
    ensures
        r == side_or_default(side),
{
    match side {
        Some(s) => if s.raw == i64::MIN {
            Scalar { raw: i64::MAX }
        } else {
            s.abs()
        },
        None => Scalar { raw: DEFAULT_SIDE },
    }
}

} // verus!
