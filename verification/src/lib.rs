//! A safety layer over an immediate-mode GPU API.
//!
//! The library owns the rules: which images a texture accepts and which
//! region of it may be rewritten, which vertex buffer fits which shader
//! program, which value fits which uniform, how a program is built and what
//! is deleted when the build fails, and which calls, with which arguments
//! and in which order, must reach the graphics API for each operation.
//!
//! It performs none of those calls itself. Every operation hands back the
//! calls as plain values ([`call::GlCall`]), and the owner of the graphics
//! connection performs them. What the connection answers, where an
//! operation depends on it, is handed to the library as a plain value too.
pub mod buffer;
pub mod call;
pub mod codes;
pub mod context;
pub mod dimension;
pub mod draw;
pub mod error;
pub mod format;
pub mod program;
pub mod shader;
pub mod texture;
pub mod uniform;
