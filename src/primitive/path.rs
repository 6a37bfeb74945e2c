//! Paths: started without a mode, then filled or stroked, then given points,
//! which are kept as events in the session's scratch buffer.
use crate::primitive::Span;
use crate::properties::{
    default_orientation, default_position, Orientation, PathStroke, Position, Srgba, StrokeOptions,
};
use crate::geom::Scalar;
use vstd::prelude::*;

verus! {

/// How a path is filled.
#[derive(Clone, Copy, Debug, PartialEq, Eq, Structural)]
pub struct FillOptions {
    /// The largest distance allowed between the curve and its tessellation.
    pub tolerance: Scalar,
}

/// A path not yet told whether it is filled or stroked.
#[derive(Clone, Copy, Debug, PartialEq, Eq, Structural)]
pub struct PathInit {
    pub color: Option<Srgba>,
    pub position: Position,
    pub orientation: Orientation,
}

/// A filled path whose points are yet to be given.
#[derive(Clone, Copy, Debug, PartialEq, Eq, Structural)]
pub struct PathFill {
    pub opts: FillOptions,
    pub color: Option<Srgba>,
    pub position: Position,
    pub orientation: Orientation,
}

/// Whether a path is filled or stroked, and how.
#[derive(Clone, Copy, Debug, PartialEq, Eq, Structural)]
pub enum PathMode {
    Fill(FillOptions),
    Stroke(StrokeOptions),
}

/// A path with its points: the events `events` of the path event buffer.
#[derive(Clone, Copy, Debug, PartialEq, Eq, Structural)]
pub struct Path {
    pub mode: PathMode,
    pub color: Option<Srgba>,
    pub position: Position,
    pub orientation: Orientation,
    pub events: Span,
}

/// Fill within a tenth of a unit unless told otherwise.
pub open spec fn default_fill() -> FillOptions {
    FillOptions { tolerance: Scalar { raw: 100_000 } }
}

pub open spec fn default_path_init() -> PathInit {
    PathInit { color: None, position: default_position(), orientation: default_orientation() }
}

impl PathInit {
    pub fn new() -> (r: PathInit)
        ensures
            r == default_path_init(),
    {
        PathInit { color: None, position: Position::new(), orientation: Orientation::new() }
    }

    /// The path filled, keeping its color and placement.
    pub open spec fn fill_spec(self) -> PathFill {
        PathFill { opts: default_fill(), color: self.color, position: self.position, orientation: self.orientation }
    }

    /// The path stroked with the default stroke, keeping its color and placement.
    pub open spec fn stroke_spec(self) -> PathStroke {
        PathStroke {
            opts: crate::properties::default_stroke(),
            color: self.color,
            position: self.position,
            orientation: self.orientation,
        }
    }

    /// Fill the path.
    pub fn fill(self) -> (r: PathFill)
        ensures
            r == self.fill_spec(),
    {
        PathFill {
            opts: FillOptions { tolerance: Scalar { raw: 100_000i64 } },
            color: self.color,
            position: self.position,
            orientation: self.orientation,
        }
    }

    /// Stroke the path.
    pub fn stroke(self) -> (r: PathStroke)
        ensures
            r == self.stroke_spec(),
    {
        PathStroke { opts: StrokeOptions::new(), color: self.color, position: self.position, orientation: self.orientation }
    }
}

impl PathFill {
    /// The filled path with its points at `events`.
    pub open spec fn with_events(self, events: Span) -> Path {
        Path { mode: PathMode::Fill(self.opts), color: self.color, position: self.position, orientation: self.orientation, events }
    }

    /// The filled path with its points at `events`.
    pub fn with_events_exec(self, events: Span) -> (r: Path)
        ensures
            r == self.with_events(events),
    {
        Path { mode: PathMode::Fill(self.opts), color: self.color, position: self.position, orientation: self.orientation, events }
    }
}

/// The stroked path with its points at `events`.
pub open spec fn stroked_with_events(p: PathStroke, events: Span) -> Path {
    Path { mode: PathMode::Stroke(p.opts), color: p.color, position: p.position, orientation: p.orientation, events }
}

/// The stroked path with its points at `events`.
pub fn stroked_with_events_exec(p: PathStroke, events: Span) -> (r: Path)
    ensures
        r == stroked_with_events(p, events),
{
    Path { mode: PathMode::Stroke(p.opts), color: p.color, position: p.position, orientation: p.orientation, events }
}

} // verus!
