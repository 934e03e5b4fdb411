//! Pixel formats of image data.
use vstd::prelude::*;
use crate::codes;

verus! {

/// The layout of one pixel in image data handed to a texture.
#[derive(Clone, Copy, Debug, PartialEq, Eq, Structural)]
pub enum ColorFormat {
    /// Red, green, blue: one byte each.
    RGB,
    /// Red, green, blue, alpha: one byte each.
    RGBA,
}

impl ColorFormat {
    /// Bytes that one pixel takes in this format.
    pub open spec fn pixel_bytes(self) -> nat {
        match self {
            ColorFormat::RGB => 3,
            ColorFormat::RGBA => 4,
        }
    }

    /// The graphics API's code for this format.
    pub open spec fn code(self) -> u32 {
        match self {
            ColorFormat::RGB => codes::RGB,
            ColorFormat::RGBA => codes::RGBA,
        }
    }

    /// Bytes that one pixel takes in this format: 3 for RGB, 4 for RGBA.
    pub fn bytes_per_pixel(&self) -> (bytes: u32)
        ensures
            bytes == self.pixel_bytes(),
    {
        match self {
            ColorFormat::RGB => 3,
            ColorFormat::RGBA => 4,
        }
    }

    /// The graphics API's code for this format.
    pub fn to_gl(&self) -> (code: u32)
        ensures
            code == self.code(),
    {
        match self {
            ColorFormat::RGB => codes::rgb(),
            ColorFormat::RGBA => codes::rgba(),
        }
    }
}

} // verus!
