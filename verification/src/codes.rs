//! The numeric codes of the graphics API that this library puts into calls.
//!
//! The constants below are what the contracts speak of. At run time each
//! code is read from `glow`, through a function whose contract claims that
//! `glow` holds the same number.
use vstd::prelude::*;

verus! {

/// Code of the first texture unit; unit `n` is `TEXTURE0 + n`.
pub const TEXTURE0: u32 = 0x84C0;

/// Code of the two-dimensional texture target.
pub const TEXTURE_2D: u32 = 0x0DE1;

/// Code of the three-channel pixel format.
pub const RGB: u32 = 0x1907;

/// Code of the four-channel pixel format.
pub const RGBA: u32 = 0x1908;

/// Code of the pixel component type "one unsigned byte".
pub const UNSIGNED_BYTE: u32 = 0x1401;

/// Code of the texture parameter that selects the magnification filter.
pub const TEXTURE_MAG_FILTER: u32 = 0x2800;

/// Code of the texture parameter that selects the minification filter.
pub const TEXTURE_MIN_FILTER: u32 = 0x2801;

/// Code of the texture parameter that selects horizontal wrapping.
pub const TEXTURE_WRAP_S: u32 = 0x2802;

/// Code of the texture parameter that selects vertical wrapping.
pub const TEXTURE_WRAP_T: u32 = 0x2803;

/// Code of the nearest-sample filter.
pub const NEAREST: u32 = 0x2600;

/// Code of the linear filter.
pub const LINEAR: u32 = 0x2601;

/// Code of the repeating wrap mode.
pub const REPEAT: u32 = 0x2901;

/// Code of the wrap mode that clamps to the edge.
pub const CLAMP_TO_EDGE: u32 = 0x812F;

/// Code of the repeating wrap mode that mirrors every other tile.
pub const MIRRORED_REPEAT: u32 = 0x8370;

/// Code of the query for the largest texture dimension the GPU supports.
pub const MAX_TEXTURE_SIZE: u32 = 0x0D33;

/// Code of the buffer target that holds per-vertex data.
pub const ARRAY_BUFFER: u32 = 0x8892;

/// Code of the buffer target that holds indices.
pub const ELEMENT_ARRAY_BUFFER: u32 = 0x8893;

/// Code of the usage hint "written once, drawn many times".
pub const STATIC_DRAW: u32 = 0x88E4;

/// Code of the primitive mode that draws one triangle for every three indices.
pub const TRIANGLES: u32 = 0x0004;

/// Code of the index type "one unsigned 32-bit integer".
pub const UNSIGNED_INT: u32 = 0x1405;

/// Bit that selects the colour buffer of the render target.
pub const COLOR_BUFFER_BIT: u32 = 0x4000;

/// Code by which the graphics API reports that no error occurred.
pub const NO_ERROR: u32 = 0;

/// Code of the vertex stage.
pub const VERTEX_SHADER: u32 = 0x8B31;

/// Code of the fragment stage.
pub const FRAGMENT_SHADER: u32 = 0x8B30;

/// Reads `glow::TRIANGLES`. Trusted: claims that it is `0x0004`.
#[verifier::external_body]
pub(crate) fn triangles() -> (code: u32)
    ensures
        code == TRIANGLES,
{
    glow::TRIANGLES
}

/// Reads `glow::UNSIGNED_INT`. Trusted: claims that it is `0x1405`.
#[verifier::external_body]
pub(crate) fn unsigned_int() -> (code: u32)
    ensures
        code == UNSIGNED_INT,
{
    glow::UNSIGNED_INT
}

/// Reads `glow::COLOR_BUFFER_BIT`. Trusted: claims that it is `0x4000`.
#[verifier::external_body]
pub(crate) fn color_buffer_bit() -> (code: u32)
    ensures
        code == COLOR_BUFFER_BIT,
{
    glow::COLOR_BUFFER_BIT
}

/// Reads `glow::NO_ERROR`. Trusted: claims that it is `0`.
#[verifier::external_body]
pub(crate) fn no_error() -> (code: u32)
    ensures
        code == NO_ERROR,
{
    glow::NO_ERROR
}

/// Reads `glow::VERTEX_SHADER`. Trusted: claims that it is `0x8B31`.
#[verifier::external_body]
pub(crate) fn vertex_shader() -> (code: u32)
    ensures
        code == VERTEX_SHADER,
{
    glow::VERTEX_SHADER
}

/// Reads `glow::FRAGMENT_SHADER`. Trusted: claims that it is `0x8B30`.
#[verifier::external_body]
pub(crate) fn fragment_shader() -> (code: u32)
    ensures
        code == FRAGMENT_SHADER,
{
    glow::FRAGMENT_SHADER
}

/// Code of the component type "32-bit float".
pub const FLOAT: u32 = 0x1406;

/// Reads `glow::FLOAT`. Trusted: claims that it is `0x1406`.
#[verifier::external_body]
pub(crate) fn float() -> (code: u32)
    ensures
        code == FLOAT,
{
    glow::FLOAT
}

/// Reads `glow::ARRAY_BUFFER`. Trusted: claims that it is `0x8892`.
#[verifier::external_body]
pub(crate) fn array_buffer() -> (code: u32)
    ensures
        code == ARRAY_BUFFER,
{
    glow::ARRAY_BUFFER
}

/// Reads `glow::ELEMENT_ARRAY_BUFFER`. Trusted: claims that it is `0x8893`.
#[verifier::external_body]
pub(crate) fn element_array_buffer() -> (code: u32)
    ensures
        code == ELEMENT_ARRAY_BUFFER,
{
    glow::ELEMENT_ARRAY_BUFFER
}

/// Reads `glow::STATIC_DRAW`. Trusted: claims that it is `0x88E4`.
#[verifier::external_body]
pub(crate) fn static_draw() -> (code: u32)
    ensures
        code == STATIC_DRAW,
{
    glow::STATIC_DRAW
}

/// Reads `glow::TEXTURE0`. Trusted: claims that it is `0x84C0`.
#[verifier::external_body]
pub(crate) fn texture0() -> (code: u32)
    ensures
        code == TEXTURE0,
{
    glow::TEXTURE0
}

/// Reads `glow::TEXTURE_2D`. Trusted: claims that it is `0x0DE1`.
#[verifier::external_body]
pub(crate) fn texture_2d() -> (code: u32)
    ensures
        code == TEXTURE_2D,
{
    glow::TEXTURE_2D
}

/// Reads `glow::RGB`. Trusted: claims that it is `0x1907`.
#[verifier::external_body]
pub(crate) fn rgb() -> (code: u32)
    ensures
        code == RGB,
{
    glow::RGB
}

/// Reads `glow::RGBA`. Trusted: claims that it is `0x1908`.
#[verifier::external_body]
pub(crate) fn rgba() -> (code: u32)
    ensures
        code == RGBA,
{
    glow::RGBA
}

/// Reads `glow::UNSIGNED_BYTE`. Trusted: claims that it is `0x1401`.
#[verifier::external_body]
pub(crate) fn unsigned_byte() -> (code: u32)
    ensures
        code == UNSIGNED_BYTE,
{
    glow::UNSIGNED_BYTE
}

/// Reads `glow::TEXTURE_MAG_FILTER`. Trusted: claims that it is `0x2800`.
#[verifier::external_body]
pub(crate) fn texture_mag_filter() -> (code: u32)
    ensures
        code == TEXTURE_MAG_FILTER,
{
    glow::TEXTURE_MAG_FILTER
}

/// Reads `glow::TEXTURE_MIN_FILTER`. Trusted: claims that it is `0x2801`.
#[verifier::external_body]
pub(crate) fn texture_min_filter() -> (code: u32)
    ensures
        code == TEXTURE_MIN_FILTER,
{
    glow::TEXTURE_MIN_FILTER
}

/// Reads `glow::TEXTURE_WRAP_S`. Trusted: claims that it is `0x2802`.
#[verifier::external_body]
pub(crate) fn texture_wrap_s() -> (code: u32)
    ensures
        code == TEXTURE_WRAP_S,
{
    glow::TEXTURE_WRAP_S
}

/// Reads `glow::TEXTURE_WRAP_T`. Trusted: claims that it is `0x2803`.
#[verifier::external_body]
pub(crate) fn texture_wrap_t() -> (code: u32)
    ensures
        code == TEXTURE_WRAP_T,
{
    glow::TEXTURE_WRAP_T
}

/// Reads `glow::NEAREST`. Trusted: claims that it is `0x2600`.
#[verifier::external_body]
pub(crate) fn nearest() -> (code: u32)
    ensures
        code == NEAREST,
{
    glow::NEAREST
}

/// Reads `glow::LINEAR`. Trusted: claims that it is `0x2601`.
#[verifier::external_body]
pub(crate) fn linear() -> (code: u32)
    ensures
        code == LINEAR,
{
    glow::LINEAR
}

/// Reads `glow::REPEAT`. Trusted: claims that it is `0x2901`.
#[verifier::external_body]
pub(crate) fn repeat() -> (code: u32)
    ensures
        code == REPEAT,
{
    glow::REPEAT
}

/// Reads `glow::CLAMP_TO_EDGE`. Trusted: claims that it is `0x812F`.
#[verifier::external_body]
pub(crate) fn clamp_to_edge() -> (code: u32)
    ensures
        code == CLAMP_TO_EDGE,
{
    glow::CLAMP_TO_EDGE
}

/// Reads `glow::MIRRORED_REPEAT`. Trusted: claims that it is `0x8370`.
#[verifier::external_body]
pub(crate) fn mirrored_repeat() -> (code: u32)
    ensures
        code == MIRRORED_REPEAT,
{
    glow::MIRRORED_REPEAT
}

/// Reads `glow::MAX_TEXTURE_SIZE`. Trusted: claims that it is `0x0D33`.
#[verifier::external_body]
pub(crate) fn max_texture_size() -> (code: u32)
    ensures
        code == MAX_TEXTURE_SIZE,
{
    glow::MAX_TEXTURE_SIZE
}

} // verus!
