//! The conditions under which processing of a stream stops.

use vstd::prelude::*;

verus! {

/// Why a stream could not be rendered.
#[derive(Clone, Copy, Debug, PartialEq, Eq, Structural)]
pub enum RenderError {
    /// A cursor movement would leave the range from 0 to the buffer's length.
    CursorOutOfRange,
    /// An erase-in-line sequence asked for a mode other than "to end of line".
    UnsupportedEraseMode,
    /// An erase or cursor sequence did not carry exactly one parameter.
    UnexpectedParameterCount,
    /// A named colour outside the palette ranges reached the serializer.
    InvalidColorValue,
}

} // verus!
