//! Text, kept in the session's text buffer.
use crate::primitive::Span;
use crate::properties::{default_position, no_dimensions, Dimensions, Position, Srgba};
use vstd::prelude::*;

verus! {

/// A run of text: the characters `text` of the text buffer.
#[derive(Clone, Copy, Debug, PartialEq, Eq, Structural)]
pub struct Text {
    pub text: Span,
    pub color: Option<Srgba>,
    pub position: Position,
    pub dimensions: Dimensions,
}

impl Text {
    /// Text at the given characters of the text buffer.
    pub fn new(text: Span) -> (r: Text)
        ensures
            r == (Text { text, color: None, position: default_position(), dimensions: no_dimensions() }),
    {
        Text { text, color: None, position: Position::new(), dimensions: Dimensions::new() }
    }
}

} // verus!
