//! Buffers: memory on the GPU that holds vertices or indices.
use vstd::prelude::*;
use crate::call::GlCall;
use crate::codes;
use crate::error::GolemError;

verus! {

/// What a vertex buffer is, to a contract.
pub struct VertexBufferView {
    /// The GPU's name for the allocation that the buffer owns.
    pub id: u32,
    /// The size of one vertex in bytes; 0 until data is set.
    pub stride: u32,
    /// The number of vertices held; 0 until data is set.
    pub count: nat,
}

/// Per-vertex data on the GPU.
///
/// A vertex buffer owns one allocation of the GPU. It is neither `Clone`
/// nor `Copy`, and [`VertexBuffer::release`] consumes it.
#[derive(Debug)]
pub struct VertexBuffer {
    id: u32,
    stride: u32,
    count: usize,
}

impl View for VertexBuffer {
    type V = VertexBufferView;

    closed spec fn view(&self) -> VertexBufferView {
        VertexBufferView { id: self.id, stride: self.stride, count: self.count as nat }
    }
}

/// `bytes` bytes are a whole number of vertices of `stride` bytes each.
pub open spec fn whole_vertices(bytes: nat, stride: u32) -> bool {
    stride > 0 && bytes % (stride as nat) == 0
}

/// The calls that replace the contents of vertex buffer `id`: bind it, then
/// hand over the bytes.
pub open spec fn vertex_data_calls<'a>(id: u32, data: &'a [u8]) -> Seq<GlCall<'a>> {
    seq![
        GlCall::BindBuffer { target: codes::ARRAY_BUFFER, buffer: Some(id) },
        GlCall::BufferDataU8 { target: codes::ARRAY_BUFFER, data, usage: codes::STATIC_DRAW },
    ]
}

/// The calls that replace the contents of element buffer `id`: bind it,
/// then hand over the indices.
pub open spec fn element_data_calls<'a>(id: u32, data: &'a [u32]) -> Seq<GlCall<'a>> {
    seq![
        GlCall::BindBuffer { target: codes::ELEMENT_ARRAY_BUFFER, buffer: Some(id) },
        GlCall::BufferDataU32 {
            target: codes::ELEMENT_ARRAY_BUFFER,
            data,
            usage: codes::STATIC_DRAW,
        },
    ]
}

/// The calls that end the life of buffer `id`: one, which deletes it.
pub open spec fn buffer_release_calls(id: u32) -> Seq<GlCall<'static>> {
    seq![GlCall::DeleteBuffer { buffer: id }]
}

impl VertexBuffer {
    /// Create a new, empty vertex buffer
    ///
    /// `created` is what the connection answered when asked to create a
    /// buffer: the new allocation's name, or its error message.
    pub fn new(created: Result<u32, String>) -> (made: Result<VertexBuffer, GolemError>)
        ensures
            match created {
                Ok(id) => made is Ok && made->Ok_0@ == (VertexBufferView {
                    id,
                    stride: 0,
                    count: 0,
                }),
                Err(message) => made == Err::<VertexBuffer, GolemError>(
                    GolemError::ContextError(message),
                ),
            },
    {
        match created {
            Ok(id) => Ok(VertexBuffer { id, stride: 0, count: 0 }),
            Err(message) => Err(GolemError::ContextError(message)),
        }
    }

    /// The GPU's name for the buffer's allocation.
    pub(crate) fn id(&self) -> (id: u32)
        ensures
            id == self@.id,
    {
        self.id
    }

    /// The size of one vertex in bytes; 0 until data is set.
    pub fn stride(&self) -> (stride: u32)
        ensures
            stride == self@.stride,
    {
        self.stride
    }

    /// The number of vertices held; 0 until data is set.
    pub fn size(&self) -> (count: usize)
        ensures
            count == self@.count,
    {
        self.count
    }

    /// Replace the buffer's contents with `data`, which holds vertices of
    /// `stride` bytes each, and record their size and number.
    ///
    /// Data that is no whole number of such vertices is refused, and so is a
    /// `stride` of zero; the buffer then stays as it was.
    pub fn set_data<'a>(&mut self, data: &'a [u8], stride: u32) -> (outcome: Result<
        Vec<GlCall<'a>>,
        GolemError,
    >)
        ensures
            whole_vertices(data@.len(), stride) ==> {
                &&& outcome is Ok
                &&& outcome->Ok_0@ == vertex_data_calls(old(self)@.id, data)
                &&& final(self)@ == (VertexBufferView {
                    id: old(self)@.id,
                    stride,
                    count: data@.len() / (stride as nat),
                })
            },
            !whole_vertices(data@.len(), stride) ==> {
                &&& outcome == Err::<Vec<GlCall<'a>>, GolemError>(
                    GolemError::BufferLayoutError { bytes: data@.len() as usize, stride },
                )
                &&& final(self)@ == old(self)@
            },
    {
        if stride == 0 || data.len() % (stride as usize) != 0 {
            return Err(GolemError::BufferLayoutError { bytes: data.len(), stride });
        }
        self.stride = stride;
        self.count = data.len() / (stride as usize);
        let target: u32 = codes::array_buffer();
        let mut calls: Vec<GlCall<'a>> = Vec::new();
        calls.push(GlCall::BindBuffer { target, buffer: Some(self.id) });
        calls.push(GlCall::BufferDataU8 { target, data, usage: codes::static_draw() });
        assert(calls@ =~= vertex_data_calls(old(self)@.id, data));
        Ok(calls)
    }

    /// End the buffer's life: the one call that gives its allocation back
    /// to the GPU. The buffer is consumed, so this happens at most once.
    pub fn release(self) -> (calls: Vec<GlCall<'static>>)
        ensures
            calls@ == buffer_release_calls(self@.id),
    {
        let mut calls: Vec<GlCall<'static>> = Vec::new();
        calls.push(GlCall::DeleteBuffer { buffer: self.id });
        assert(calls@ =~= buffer_release_calls(self@.id));
        calls
    }
}

/// What an element buffer is, to a contract.
pub struct ElementBufferView {
    /// The GPU's name for the allocation that the buffer owns.
    pub id: u32,
    /// The number of indices held; 0 until data is set.
    pub count: nat,
}

/// Indices on the GPU, which say in what order vertices are drawn.
///
/// An element buffer owns one allocation of the GPU. It is neither `Clone`
/// nor `Copy`, and [`ElementBuffer::release`] consumes it.
#[derive(Debug)]
pub struct ElementBuffer {
    id: u32,
    count: usize,
}

impl View for ElementBuffer {
    type V = ElementBufferView;

    closed spec fn view(&self) -> ElementBufferView {
        ElementBufferView { id: self.id, count: self.count as nat }
    }
}

impl ElementBuffer {
    /// Create a new, empty element buffer
    ///
    /// `created` is what the connection answered when asked to create a
    /// buffer: the new allocation's name, or its error message.
    pub fn new(created: Result<u32, String>) -> (made: Result<ElementBuffer, GolemError>)
        ensures
            match created {
                Ok(id) => made is Ok && made->Ok_0@ == (ElementBufferView { id, count: 0 }),
                Err(message) => made == Err::<ElementBuffer, GolemError>(
                    GolemError::ContextError(message),
                ),
            },
    {
        match created {
            Ok(id) => Ok(ElementBuffer { id, count: 0 }),
            Err(message) => Err(GolemError::ContextError(message)),
        }
    }

    /// The GPU's name for the buffer's allocation.
    pub(crate) fn id(&self) -> (id: u32)
        ensures
            id == self@.id,
    {
        self.id
    }

    /// The number of indices held; 0 until data is set.
    pub fn size(&self) -> (count: usize)
        ensures
            count == self@.count,
    {
        self.count
    }

    /// Replace the buffer's contents with the indices `data`, and record
    /// their number.
    pub fn set_data<'a>(&mut self, data: &'a [u32]) -> (calls: Vec<GlCall<'a>>)
        ensures
            calls@ == element_data_calls(old(self)@.id, data),
            final(self)@ == (ElementBufferView { id: old(self)@.id, count: data@.len() }),
    {
        self.count = data.len();
        let target: u32 = codes::element_array_buffer();
        let mut calls: Vec<GlCall<'a>> = Vec::new();
        calls.push(GlCall::BindBuffer { target, buffer: Some(self.id) });
        calls.push(GlCall::BufferDataU32 { target, data, usage: codes::static_draw() });
        assert(calls@ =~= element_data_calls(old(self)@.id, data));
        calls
    }

    /// End the buffer's life: the one call that gives its allocation back
    /// to the GPU. The buffer is consumed, so this happens at most once.
    pub fn release(self) -> (calls: Vec<GlCall<'static>>)
        ensures
            calls@ == buffer_release_calls(self@.id),
    {
        let mut calls: Vec<GlCall<'static>> = Vec::new();
        calls.push(GlCall::DeleteBuffer { buffer: self.id });
        assert(calls@ =~= buffer_release_calls(self@.id));
        calls
    }
}

} // verus!
