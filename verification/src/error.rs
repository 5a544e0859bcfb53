//! The failures that the rasterizer reports.

use vstd::prelude::*;

verus! {

/// The three kinds of buffer that the geometry store holds.
#[derive(Clone, Copy, PartialEq, Eq, Structural, Debug)]
pub enum BufferKind {
    Position,
    Index,
    Color,
}

/// Why an operation failed.
#[derive(Clone, Copy, PartialEq, Eq, Structural, Debug)]
pub enum RasterError {
    /// A handle names no buffer of its kind in the store.
    InvalidHandle { kind: BufferKind },
    /// A vertex, normal, color or texture-coordinate slot outside 0, 1, 2.
    InvalidIndex,
    /// A color channel outside 0 to 255.
    InvalidColorValue,
    /// A primitive kind that cannot be drawn.
    UnsupportedPrimitive,
    /// An index triple refers past the end of a position or color buffer.
    IndexOutOfRange,
}

impl RasterError {
    /// A short description of the failure.
    pub fn message(&self) -> (s: String)
        ensures
            s@ == (match *self {
                RasterError::InvalidHandle { kind: BufferKind::Position } => "Invalid pos buffer id"@,
                RasterError::InvalidHandle { kind: BufferKind::Index } => "Invalid ind buffer id"@,
                RasterError::InvalidHandle { kind: BufferKind::Color } => "Invalid color buffer id"@,
                RasterError::InvalidIndex => "Invalid ind"@,
                RasterError::InvalidColorValue => "Invalid color values"@,
                RasterError::UnsupportedPrimitive => "Not supported primitive"@,
                RasterError::IndexOutOfRange => "Index out of range"@,
            }),
    {
        match self {
            RasterError::InvalidHandle { kind: BufferKind::Position } => {
                "Invalid pos buffer id".to_string()
            },
            RasterError::InvalidHandle { kind: BufferKind::Index } => {
                "Invalid ind buffer id".to_string()
            },
            RasterError::InvalidHandle { kind: BufferKind::Color } => {
                "Invalid color buffer id".to_string()
            },
            RasterError::InvalidIndex => "Invalid ind".to_string(),
            RasterError::InvalidColorValue => "Invalid color values".to_string(),
            RasterError::UnsupportedPrimitive => "Not supported primitive".to_string(),
            RasterError::IndexOutOfRange => "Index out of range".to_string(),
        }
    }
}

} // verus!
