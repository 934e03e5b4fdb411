//! Errors that an operation can return.
use vstd::prelude::*;
use crate::uniform::{UniformType, ValueKind};

verus! {

/// One of the two stages of a shader program.
#[derive(Clone, Copy, Debug, PartialEq, Eq, Structural)]
pub enum ShaderStage {
    /// The stage that runs once for every vertex.
    Vertex,
    /// The stage that runs once for every fragment.
    Fragment,
}

/// A failure that the caller can recover from.
#[allow(inconsistent_fields)]
#[derive(Debug, PartialEq, Eq)]
pub enum GolemError {
    /// The graphics API could not do what was asked; holds its own message.
    ContextError(String),
    /// A shader stage did not compile.
    ShaderCompileError {
        /// The stage that failed.
        stage: ShaderStage,
        /// What the compiler said.
        message: String,
    },
    /// The compiled stages did not link; holds what the linker said.
    ShaderLinkError(String),
    /// A draw was asked for while no program was bound.
    NoShaderBound,
    /// The graphics API reported an error after a draw; holds its code.
    GlError(u32),
    /// Vertex data was given that is no whole number of vertices of the
    /// size declared for it.
    BufferLayoutError {
        /// The length of the data in bytes.
        bytes: usize,
        /// The size declared for one vertex, in bytes.
        stride: u32,
    },
    /// A vertex buffer was bound to a program whose vertex inputs take up
    /// another number of bytes than one vertex of the buffer.
    LayoutError {
        /// The bytes that the program's vertex inputs take up.
        expected: u32,
        /// The size of one vertex of the buffer, in bytes.
        actual: u32,
    },
    /// A value was given for a uniform that the program does not declare;
    /// holds the name.
    UnknownUniformError(String),
    /// A value was given for a uniform whose declared type it does not fit.
    UniformTypeError {
        /// The uniform's name.
        name: String,
        /// The type the program declares for it.
        expected: UniformType,
        /// The shape of the value that was given.
        actual: ValueKind,
    },
}

} // verus!
