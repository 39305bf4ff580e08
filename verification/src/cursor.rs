//! The terminal cursor.

use crate::vec2::Vec2;
use vstd::prelude::*;

verus! {

/// A terminal cursor.
#[derive(Debug, Clone, Copy, Hash, PartialEq, Eq, Structural)]
pub struct Cursor {
    /// The shape of the cursor.
    pub shape: CursorShape,
    /// Whether the cursor blinks.
    pub blinking: bool,
    /// The zero-indexed position of the cursor.
    pub pos: Vec2<u16>,
}

/// The shape of a cursor.
#[derive(Debug, Clone, Copy, Hash, PartialEq, Eq, Structural)]
pub enum CursorShape {
    /// A bar to the left of the character.
    Bar,
    /// A full block over the character.
    Block,
    /// An underline under the character.
    Underline,
}

} // verus!
