//! What a context does itself: it makes textures, binds them to units,
//! clears the render target and draws.
use vstd::prelude::*;
use crate::buffer::{ElementBuffer, ElementBufferView, VertexBuffer, VertexBufferView};
use crate::call::GlCall;
use crate::codes;
use crate::context::Context;
use crate::error::GolemError;
use crate::format::ColorFormat;
use crate::shader::Creating;
use crate::texture::{
    image_calls, image_fault, parameter_calls, supplied_len, Texture, TextureFilter, TextureView,
};

verus! {

/// The calls that bind a texture, or none, to the texture unit `unit`:
/// select the unit, then bind. The unit stays selected.
pub open spec fn unit_binding_calls(texture: Option<u32>, unit: u32) -> Seq<GlCall<'static>> {
    seq![
        GlCall::ActiveTexture { unit: (codes::TEXTURE0 + unit) as u32 },
        GlCall::BindTexture { target: codes::TEXTURE_2D, texture },
    ]
}

/// The one call that clears the colour of the render target.
pub open spec fn clear_calls() -> Seq<GlCall<'static>> {
    seq![GlCall::Clear { mask: codes::COLOR_BUFFER_BIT }]
}

/// The indices from `start` up to, not including, `end` can be drawn:
/// the range does not run backwards, and the byte at which it ends, at four
/// bytes an index, is one that an `i32` counts.
pub open spec fn range_fits(start: usize, end: usize) -> bool {
    start <= end && 4 * end <= i32::MAX
}

/// The calls that draw the indices from `start` up to, not including, `end`
/// of element buffer `buffer` as triangles: bind the buffer, then draw.
pub open spec fn draw_calls(buffer: u32, start: usize, end: usize) -> Seq<GlCall<'static>> {
    seq![
        GlCall::BindBuffer { target: codes::ELEMENT_ARRAY_BUFFER, buffer: Some(buffer) },
        GlCall::DrawElements {
            mode: codes::TRIANGLES,
            count: (end - start) as i32,
            element_type: codes::UNSIGNED_INT,
            offset: (4 * start) as i32,
        },
    ]
}

impl Context {
    /// Create a texture that holds an image from the start: as
    /// [`Texture::new`], then [`Texture::set_image`].
    ///
    /// `created` is what the connection answered when asked to create a
    /// texture. The image must be one that [`Texture::set_image`] takes on
    /// this connection; [`crate::texture::check_image`] tells.
    pub fn new_texture<'a>(
        &self,
        created: Result<u32, String>,
        data: Option<&'a [u8]>,
        width: u32,
        height: u32,
        color: ColorFormat,
    ) -> (made: Result<(Texture, Vec<GlCall<'a>>), GolemError>)
        requires
            image_fault(self@.limit, supplied_len(data), width, height, color) is None,
        ensures
            match created {
                Ok(id) => {
                    &&& made is Ok
                    &&& made->Ok_0.0@ == (TextureView { id, width, height, limit: self@.limit })
                    &&& made->Ok_0.0@.valid()
                    &&& made->Ok_0.1@ == parameter_calls(
                        id,
                        codes::TEXTURE_MIN_FILTER,
                        TextureFilter::Linear.code(),
                    ) + image_calls(id, data, width, height, color)
                },
                Err(message) => made == Err::<(Texture, Vec<GlCall<'a>>), GolemError>(
                    GolemError::ContextError(message),
                ),
            },
    {
        match created {
            Ok(id) => {
                let mut tex = Texture::empty(self, id);
                let mut calls: Vec<GlCall<'a>> = Vec::new();
                let mut prepare: Vec<GlCall<'a>> = tex.set_minification(TextureFilter::Linear);
                let mut upload: Vec<GlCall<'a>> = tex.set_image(data, width, height, color);
                calls.append(&mut prepare);
                calls.append(&mut upload);
                assert(calls@ =~= parameter_calls(
                    id,
                    codes::TEXTURE_MIN_FILTER,
                    TextureFilter::Linear.code(),
                ) + image_calls(id, data, width, height, color));
                Ok((tex, calls))
            },
            Err(message) => Err(GolemError::ContextError(message)),
        }
    }

    /// Create an empty vertex buffer: as [`VertexBuffer::new`].
    pub fn new_vertex_buffer(&self, created: Result<u32, String>) -> (made: Result<
        VertexBuffer,
        GolemError,
    >)
        ensures
            match created {
                Ok(id) => made is Ok && made->Ok_0@ == (VertexBufferView {
                    id,
                    stride: 0,
                    count: 0,
                }),
                Err(message) => made == Err::<VertexBuffer, GolemError>(
                    GolemError::ContextError(message),
                ),
            },
    {
        VertexBuffer::new(created)
    }

    /// Create an empty element buffer: as [`ElementBuffer::new`].
    pub fn new_element_buffer(&self, created: Result<u32, String>) -> (made: Result<
        ElementBuffer,
        GolemError,
    >)
        ensures
            match created {
                Ok(id) => made is Ok && made->Ok_0@ == (ElementBufferView { id, count: 0 }),
                Err(message) => made == Err::<ElementBuffer, GolemError>(
                    GolemError::ContextError(message),
                ),
            },
    {
        ElementBuffer::new(created)
    }

    /// Start to build a shader program: as [`Creating::begin`].
    pub fn new_shader(&self) -> (creating: Creating)
        ensures
            creating == Creating::Vertex,
    {
        Creating::begin()
    }

    /// Bind `tex` to the texture unit `unit`, or unbind what is bound there
    /// with `None`. This changes which unit is selected on the connection.
    pub fn bind_texture(&self, tex: Option<&Texture>, unit: u32) -> (calls: Vec<GlCall<'static>>)
        requires
            unit <= Texture::max_bind_point(),
        ensures
            calls@ == unit_binding_calls(
                match tex {
                    Some(texture) => Some(texture@.id),
                    None => None,
                },
                unit,
            ),
    {
        let texture: Option<u32> = match tex {
            Some(texture) => Some(texture.id()),
            None => None,
        };
        let mut calls: Vec<GlCall<'static>> = Vec::new();
        calls.push(GlCall::ActiveTexture { unit: codes::texture0() + unit });
        calls.push(GlCall::BindTexture { target: codes::texture_2d(), texture });
        assert(calls@ =~= unit_binding_calls(texture, unit));
        calls
    }

    /// Clear the render target to the clear colour that is set.
    pub fn clear(&self) -> (calls: Vec<GlCall<'static>>)
        ensures
            calls@ == clear_calls(),
    {
        let mut calls: Vec<GlCall<'static>> = Vec::new();
        calls.push(GlCall::Clear { mask: codes::color_buffer_bit() });
        assert(calls@ =~= clear_calls());
        calls
    }

    /// Whether the indices from `start` up to, not including, `end` can be
    /// drawn.
    pub fn check_range(start: usize, end: usize) -> (fits: bool)
        ensures
            fits == range_fits(start, end),
    {
        start <= end && end <= 0x1FFF_FFFF
    }

    /// Draw the indices from `start` up to, not including, `end` of `eb` as
    /// triangles, with the program that is bound.
    ///
    /// Where no program is bound, nothing is drawn: the error says so and
    /// no call is handed out. What the graphics API reports once the calls
    /// are performed goes to [`Context::draw_outcome`].
    pub fn draw(&self, eb: &ElementBuffer, start: usize, end: usize) -> (outcome: Result<
        Vec<GlCall<'static>>,
        GolemError,
    >)
        requires
            range_fits(start, end),
        ensures
            match self@.program {
                Some(_) => outcome is Ok && outcome->Ok_0@ == draw_calls(eb@.id, start, end),
                None => outcome == Err::<Vec<GlCall<'static>>, GolemError>(
                    GolemError::NoShaderBound,
                ),
            },
    {
        match self.current_program() {
            None => Err(GolemError::NoShaderBound),
            Some(_) => {
                let mut calls: Vec<GlCall<'static>> = Vec::new();
                calls.push(
                    GlCall::BindBuffer {
                        target: codes::element_array_buffer(),
                        buffer: Some(eb.id()),
                    },
                );
                calls.push(
                    GlCall::DrawElements {
                        mode: codes::triangles(),
                        count: (end - start) as i32,
                        element_type: codes::unsigned_int(),
                        offset: (4 * start) as i32,
                    },
                );
                assert(calls@ =~= draw_calls(eb@.id, start, end));
                Ok(calls)
            },
        }
    }

    /// What a draw came to, given the error code that the graphics API
    /// reported after it: success on the code for "no error", and otherwise
    /// an error that holds the code.
    pub fn draw_outcome(reported: u32) -> (outcome: Result<(), GolemError>)
        ensures
            reported == codes::NO_ERROR ==> outcome == Ok::<(), GolemError>(()),
            reported != codes::NO_ERROR ==> outcome == Err::<(), GolemError>(
                GolemError::GlError(reported),
            ),
    {
        if reported == codes::no_error() {
            Ok(())
        } else {
            Err(GolemError::GlError(reported))
        }
    }
}

} // verus!
