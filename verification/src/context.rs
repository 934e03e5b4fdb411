//! The library's record of a graphics connection.
use vstd::prelude::*;
use crate::codes;

verus! {

/// What a context is, to a contract.
pub struct ContextView {
    /// The bound that a texture's width and height must stay under.
    pub limit: u32,
    /// The program that draw calls run, if one has been bound.
    pub program: Option<u32>,
}

/// The library's record of one graphics connection: the limit that its GPU
/// reported, and which shader program is bound on it.
///
/// The binding is the GPU's own state, shared by everything that uses the
/// connection. It is recorded here and nowhere else, and it changes only
/// when a program is bound or released through this library.
#[derive(Debug)]
pub struct Context {
    max_texture_size: u32,
    current_program: Option<u32>,
}

impl View for Context {
    type V = ContextView;

    closed spec fn view(&self) -> ContextView {
        ContextView { limit: self.max_texture_size, program: self.current_program }
    }
}

impl Context {
    #[verifier::type_invariant]
    spec fn bounded(self) -> bool {
        self.max_texture_size <= i32::MAX
    }

    /// The limit that follows from the GPU's answer to the size query: the
    /// answer itself, or zero where the answer is negative.
    pub open spec fn limit_of(reported: i32) -> u32 {
        if reported < 0 {
            0
        } else {
            reported as u32
        }
    }

    /// The parameter to ask the connection for, as an integer, to learn the
    /// largest texture dimension.
    pub fn max_texture_size_query() -> (parameter: u32)
        ensures
            parameter == codes::MAX_TEXTURE_SIZE,
    {
        codes::max_texture_size()
    }

    /// Records a connection whose GPU answered `reported` to the query of
    /// [`Context::max_texture_size_query`]. No program is bound on it.
    pub fn new(reported: i32) -> (ctx: Context)
        ensures
            ctx@ == (ContextView { limit: Self::limit_of(reported), program: None }),
    {
        if reported < 0 {
            Context { max_texture_size: 0, current_program: None }
        } else {
            Context { max_texture_size: reported as u32, current_program: None }
        }
    }

    /// The bound that a texture's width and height must stay under. It never
    /// exceeds `i32::MAX`.
    pub fn max_texture_size(&self) -> (limit: u32)
        ensures
            limit == self@.limit,
            limit <= i32::MAX,
    {
        proof {
            use_type_invariant(self);
        }
        self.max_texture_size
    }

    /// The program that is bound, if any.
    pub fn current_program(&self) -> (program: Option<u32>)
        ensures
            program == self@.program,
    {
        self.current_program
    }

    /// Records that `program` is now the bound one, or with `None` that
    /// none is.
    pub(crate) fn set_current_program(&mut self, program: Option<u32>)
        ensures
            final(self)@ == (ContextView { limit: old(self)@.limit, program }),
    {
        proof {
            use_type_invariant(&*self);
        }
        self.current_program = program;
    }
}

} // verus!
