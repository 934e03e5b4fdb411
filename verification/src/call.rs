//! Calls into the graphics API, as values.
use vstd::prelude::*;

verus! {

/// One call that the owner of the graphics connection must perform.
///
/// Each variant stands for the function of the same name on the connection
/// and carries its arguments in that function's order. The uniform uploads
/// are the exception: they name the uniform, and performing one means
/// asking the connection where `name` lives in `program` and uploading
/// there. An operation of this library hands back a list of calls; the list
/// is to be performed from first to last, with nothing in between.
///
/// A 32-bit float travels as its bit pattern, in a `u32`.
#[allow(inconsistent_fields)]
#[derive(Clone, Copy, Debug, PartialEq, Eq)]
pub enum GlCall<'a> {
    /// Select the texture unit that later binding calls act on.
    ActiveTexture { unit: u32 },
    /// Bind a texture to `target` on the selected unit, or unbind with `None`.
    BindTexture { target: u32, texture: Option<u32> },
    /// Allocate storage for a whole image and fill it from `pixels`, if any.
    TexImage2d {
        target: u32,
        level: i32,
        internal_format: i32,
        width: i32,
        height: i32,
        border: i32,
        format: u32,
        ty: u32,
        pixels: Option<&'a [u8]>,
    },
    /// Overwrite a rectangle of the bound image from `pixels`.
    TexSubImage2d {
        target: u32,
        level: i32,
        x_offset: i32,
        y_offset: i32,
        width: i32,
        height: i32,
        format: u32,
        ty: u32,
        pixels: Option<&'a [u8]>,
    },
    /// Rebuild the downsampled copies of the bound image.
    GenerateMipmap { target: u32 },
    /// Set an integer parameter of the bound texture.
    TexParameterI32 { target: u32, parameter: u32, value: i32 },
    /// Give a texture's allocation back to the GPU.
    DeleteTexture { texture: u32 },
    /// Give a buffer's allocation back to the GPU.
    DeleteBuffer { buffer: u32 },
    /// Bind a buffer to `target`, or unbind with `None`.
    BindBuffer { target: u32, buffer: Option<u32> },
    /// Replace the contents of the buffer bound to `target` with bytes.
    BufferDataU8 { target: u32, data: &'a [u8], usage: u32 },
    /// Replace the contents of the buffer bound to `target` with 32-bit
    /// integers, each in the machine's byte order.
    BufferDataU32 { target: u32, data: &'a [u32], usage: u32 },
    /// Make a program the one that draw calls run, or none with `None`.
    UseProgram { program: Option<u32> },
    /// Let the vertex attribute at `index` read from the bound buffer.
    EnableVertexAttribArray { index: u32 },
    /// Say where in each vertex of the bound buffer the attribute at
    /// `index` lies: `size` components of type `data_type`, `offset` bytes
    /// into a vertex of `stride` bytes.
    VertexAttribPointerF32 {
        index: u32,
        size: i32,
        data_type: u32,
        normalized: bool,
        stride: i32,
        offset: i32,
    },
    /// Hand a shader stage its source text.
    ShaderSource { shader: u32, source: &'a str },
    /// Compile a shader stage from the source it was handed.
    CompileShader { shader: u32 },
    /// Make a compiled stage part of a program.
    AttachShader { program: u32, shader: u32 },
    /// Give the vertex input `name` of a program the index `index`.
    BindAttribLocation { program: u32, index: u32, name: &'a str },
    /// Link the stages attached to a program.
    LinkProgram { program: u32 },
    /// Clear the buffers of the render target that `mask` selects.
    Clear { mask: u32 },
    /// Draw `count` indices of type `element_type` from the bound element
    /// buffer, starting `offset` bytes into it, as primitives of `mode`.
    DrawElements { mode: u32, count: i32, element_type: u32, offset: i32 },
    /// Give a program's allocation back to the GPU.
    DeleteProgram { program: u32 },
    /// Give a shader's allocation back to the GPU.
    DeleteShader { shader: u32 },
    /// Upload one integer to the uniform `name` of `program`.
    Uniform1I32 { program: u32, name: &'a str, value: i32 },
    /// Upload one float to the uniform `name` of `program`.
    Uniform1F32 { program: u32, name: &'a str, bits: u32 },
    /// Upload a vector of two, three or four floats to the uniform `name`
    /// of `program`.
    UniformVectorF32 { program: u32, name: &'a str, bits: &'a [u32] },
    /// Upload a square matrix of four, nine or sixteen floats to the uniform
    /// `name` of `program`.
    UniformMatrixF32 { program: u32, name: &'a str, transpose: bool, bits: &'a [u32] },
}

} // verus!
