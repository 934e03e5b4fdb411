//! Shader programs: a compiled vertex and fragment stage with the inputs
//! and uniforms they were declared with.
use vstd::prelude::*;
use crate::buffer::VertexBuffer;
use crate::call::GlCall;
use crate::codes;
use crate::context::{Context, ContextView};
use crate::error::GolemError;
use crate::uniform::{
    check_uniform, reports, schema, uniform_fault, upload_call, Uniform, UniformValue, UniformView,
};

verus! {

/// An input of a shader stage: a name and the number of floats it holds.
#[derive(Debug, PartialEq, Eq)]
pub struct Attribute {
    /// The name by which the shader source reads it.
    pub name: String,
    /// The number of floats in it: 1 for a scalar, `n` for a vector of `n`.
    pub components: u8,
}

/// What an attribute is, to a contract.
pub struct AttributeView {
    /// Its name, as characters.
    pub name: Seq<char>,
    /// The number of floats in it.
    pub components: u8,
}

impl View for Attribute {
    type V = AttributeView;

    open spec fn view(&self) -> AttributeView {
        AttributeView { name: self.name@, components: self.components }
    }
}

impl Attribute {
    /// An input of one float.
    pub fn scalar(name: &str) -> (attribute: Attribute)
        ensures
            attribute@ == (AttributeView { name: name@, components: 1 }),
    {
        Attribute { name: name.to_owned(), components: 1 }
    }

    /// An input of `components` floats.
    pub fn vector(components: u8, name: &str) -> (attribute: Attribute)
        ensures
            attribute@ == (AttributeView { name: name@, components }),
    {
        Attribute { name: name.to_owned(), components }
    }
}

/// The views of a list of attributes, in order.
pub open spec fn layout(attributes: Seq<Attribute>) -> Seq<AttributeView> {
    attributes.map_values(|attribute: Attribute| attribute@)
}

/// The bytes that the attributes take up together, at four bytes a float.
pub open spec fn layout_bytes(attributes: Seq<AttributeView>) -> nat
    decreases attributes.len(),
{
    if attributes.len() == 0 {
        0
    } else {
        layout_bytes(attributes.drop_last()) + 4 * attributes.last().components as nat
    }
}

/// The attributes can be bound: there are no more of them than a `u32`
/// counts, and together they take up no more bytes than an `i32` counts.
pub open spec fn layout_fits(attributes: Seq<AttributeView>) -> bool {
    attributes.len() <= u32::MAX && layout_bytes(attributes) <= i32::MAX
}

/// The first attributes of a list take up no more bytes than all of them.
pub proof fn lemma_layout_prefix(attributes: Seq<AttributeView>, n: int)
    requires
        0 <= n <= attributes.len(),
    ensures
        layout_bytes(attributes.take(n)) <= layout_bytes(attributes),
    decreases attributes.len(),
{
    if n == attributes.len() {
        assert(attributes.take(n) =~= attributes);
    } else {
        assert(attributes.drop_last().take(n) =~= attributes.take(n));
        lemma_layout_prefix(attributes.drop_last(), n);
    }
}

/// One more attribute adds its own bytes to those of the ones before it.
pub proof fn lemma_layout_step(attributes: Seq<AttributeView>, n: int)
    requires
        0 <= n < attributes.len(),
    ensures
        layout_bytes(attributes.take(n + 1)) == layout_bytes(attributes.take(n)) + 4
            * attributes[n].components as nat,
{
    assert(attributes.take(n + 1).drop_last() =~= attributes.take(n));
}

/// The bytes that one vertex of these attributes takes up, where the
/// attributes can be bound; `None` where they cannot.
pub fn vertex_stride(attributes: &Vec<Attribute>) -> (stride: Option<u32>)
    ensures
        stride == if layout_fits(layout(attributes@)) {
            Some(layout_bytes(layout(attributes@)) as u32)
        } else {
            None::<u32>
        },
{
    if attributes.len() > 0xFFFF_FFFF {
        return None;
    }
    let ghost views = layout(attributes@);
    let mut total: u32 = 0;
    let mut at: usize = 0;
    assert(views.take(0) =~= Seq::<AttributeView>::empty());
    while at < attributes.len()
        invariant
            at <= attributes.len(),
            views == layout(attributes@),
            total == layout_bytes(views.take(at as int)),
            total <= i32::MAX,
        decreases attributes.len() - at,
    {
        let size: u32 = 4 * (attributes[at].components as u32);
        proof {
            lemma_layout_step(views, at as int);
        }
        if size > 0x7FFF_FFFF - total {
            proof {
                lemma_layout_prefix(views, at + 1);
            }
            return None;
        }
        total = total + size;
        at += 1;
    }
    assert(views.take(at as int) =~= views);
    Some(total)
}

/// The calls that lay out the attributes over a vertex: for each attribute,
/// in order, one that enables its index and one that says where it lies.
pub open spec fn attribute_calls(attributes: Seq<AttributeView>) -> Seq<GlCall<'static>> {
    Seq::new(
        2 * attributes.len(),
        |k: int|
            if k % 2 == 0 {
                GlCall::EnableVertexAttribArray { index: (k / 2) as u32 }
            } else {
                GlCall::VertexAttribPointerF32 {
                    index: (k / 2) as u32,
                    size: attributes[k / 2].components as i32,
                    data_type: codes::FLOAT,
                    normalized: false,
                    stride: layout_bytes(attributes) as i32,
                    offset: layout_bytes(attributes.take(k / 2)) as i32,
                }
            },
    )
}

/// The calls that bind `buffer` to `program`: make the program current,
/// bind the buffer, lay out the attributes.
pub open spec fn binding_calls(program: u32, buffer: u32, attributes: Seq<AttributeView>) -> Seq<
    GlCall<'static>,
> {
    seq![
        GlCall::UseProgram { program: Some(program) },
        GlCall::BindBuffer { target: codes::ARRAY_BUFFER, buffer: Some(buffer) },
    ] + attribute_calls(attributes)
}

/// The calls that end the life of a program: unbind it where it is the
/// bound one, then delete it and its two stages.
pub open spec fn program_release_calls(
    program: u32,
    vertex: u32,
    fragment: u32,
    bound: Option<u32>,
) -> Seq<GlCall<'static>> {
    let deletes = seq![
        GlCall::DeleteProgram { program },
        GlCall::DeleteShader { shader: vertex },
        GlCall::DeleteShader { shader: fragment },
    ];
    if bound == Some(program) {
        seq![GlCall::UseProgram { program: None }] + deletes
    } else {
        deletes
    }
}

/// What a shader program is, to a contract.
pub struct ProgramView {
    /// The GPU's name for the linked program.
    pub id: u32,
    /// The GPU's name for the compiled vertex stage.
    pub vertex: u32,
    /// The GPU's name for the compiled fragment stage.
    pub fragment: u32,
    /// The inputs of the vertex stage, in declared order.
    pub vertex_input: Seq<AttributeView>,
    /// The inputs of the fragment stage, in declared order.
    pub fragment_input: Seq<AttributeView>,
    /// The uniforms, in declared order.
    pub uniforms: Seq<UniformView>,
}

impl ProgramView {
    /// The bytes that one vertex takes up in a buffer bound to the program.
    pub open spec fn stride(self) -> nat {
        layout_bytes(self.vertex_input)
    }
}

/// A compiled and linked pair of shader stages, with the inputs and
/// uniforms it was declared with.
///
/// No operation changes what was declared: every one takes the program by
/// shared reference, but for [`ShaderProgram::release`], which ends it.
#[derive(Debug)]
pub struct ShaderProgram {
    id: u32,
    vertex: u32,
    fragment: u32,
    vertex_input: Vec<Attribute>,
    fragment_input: Vec<Attribute>,
    uniforms: Vec<Uniform>,
    stride: u32,
}

impl View for ShaderProgram {
    type V = ProgramView;

    closed spec fn view(&self) -> ProgramView {
        ProgramView {
            id: self.id,
            vertex: self.vertex,
            fragment: self.fragment,
            vertex_input: layout(self.vertex_input@),
            fragment_input: layout(self.fragment_input@),
            uniforms: schema(self.uniforms@),
        }
    }
}

impl ShaderProgram {
    #[verifier::type_invariant]
    spec fn well_formed(self) -> bool {
        &&& layout_fits(layout(self.vertex_input@))
        &&& self.stride == layout_bytes(layout(self.vertex_input@))
    }

    /// Puts together a program from its parts.
    pub(crate) fn assemble(
        id: u32,
        vertex: u32,
        fragment: u32,
        vertex_input: Vec<Attribute>,
        fragment_input: Vec<Attribute>,
        uniforms: Vec<Uniform>,
        stride: u32,
    ) -> (program: ShaderProgram)
        requires
            layout_fits(layout(vertex_input@)),
            stride == layout_bytes(layout(vertex_input@)),
        ensures
            program@ == (ProgramView {
                id,
                vertex,
                fragment,
                vertex_input: layout(vertex_input@),
                fragment_input: layout(fragment_input@),
                uniforms: schema(uniforms@),
            }),
    {
        ShaderProgram { id, vertex, fragment, vertex_input, fragment_input, uniforms, stride }
    }

    /// The bytes that one vertex takes up in a buffer bound to the program:
    /// four for each float of each vertex input.
    pub fn stride(&self) -> (stride: u32)
        ensures
            stride == self@.stride(),
            layout_fits(self@.vertex_input),
    {
        proof {
            use_type_invariant(self);
        }
        self.stride
    }

    /// Make this program the bound one and let its vertex inputs read from
    /// `vb`, in declared order.
    ///
    /// A buffer whose vertices are of another size than the inputs take up
    /// is refused: nothing is bound then, and no call is handed out.
    pub fn bind(&self, ctx: &mut Context, vb: &VertexBuffer) -> (outcome: Result<
        Vec<GlCall<'static>>,
        GolemError,
    >)
        ensures
            vb@.stride == self@.stride() ==> {
                &&& outcome is Ok
                &&& outcome->Ok_0@ == binding_calls(self@.id, vb@.id, self@.vertex_input)
                &&& final(ctx)@ == (ContextView {
                    limit: old(ctx)@.limit,
                    program: Some(self@.id),
                })
            },
            vb@.stride != self@.stride() ==> {
                &&& outcome == Err::<Vec<GlCall<'static>>, GolemError>(
                    GolemError::LayoutError {
                        expected: self@.stride() as u32,
                        actual: vb@.stride,
                    },
                )
                &&& final(ctx)@ == old(ctx)@
            },
    {
        proof {
            use_type_invariant(self);
        }
        let actual: u32 = vb.stride();
        if actual != self.stride {
            return Err(GolemError::LayoutError { expected: self.stride, actual });
        }
        ctx.set_current_program(Some(self.id));
        let ghost views = layout(self.vertex_input@);
        let ghost wanted = binding_calls(self.id, vb@.id, views);
        let data_type: u32 = codes::float();
        let mut calls: Vec<GlCall<'static>> = Vec::new();
        calls.push(GlCall::UseProgram { program: Some(self.id) });
        calls.push(GlCall::BindBuffer { target: codes::array_buffer(), buffer: Some(vb.id()) });
        let mut offset: u32 = 0;
        let mut at: usize = 0;
        assert(views.take(0) =~= Seq::<AttributeView>::empty());
        while at < self.vertex_input.len()
            invariant
                at <= self.vertex_input.len(),
                views == layout(self.vertex_input@),
                layout_fits(views),
                self.stride == layout_bytes(views),
                wanted == binding_calls(self.id, vb@.id, views),
                data_type == codes::FLOAT,
                offset == layout_bytes(views.take(at as int)),
                calls@.len() == 2 + 2 * at,
                forall|k: int| 0 <= k < calls@.len() ==> calls@[k] == wanted[k],
            decreases self.vertex_input.len() - at,
        {
            let components: u8 = self.vertex_input[at].components;
            proof {
                lemma_layout_step(views, at as int);
                lemma_layout_prefix(views, at + 1);
            }
            let ghost before = calls@;
            calls.push(GlCall::EnableVertexAttribArray { index: at as u32 });
            calls.push(
                GlCall::VertexAttribPointerF32 {
                    index: at as u32,
                    size: components as i32,
                    data_type,
                    normalized: false,
                    stride: self.stride as i32,
                    offset: offset as i32,
                },
            );
            proof {
                let enable = 2 + 2 * at as int;
                assert(wanted[enable] == attribute_calls(views)[2 * at as int]);
                assert(wanted[enable + 1] == attribute_calls(views)[2 * at as int + 1]);
                assert((2 * at as int) / 2 == at as int);
                assert((2 * at as int + 1) / 2 == at as int);
                assert(calls@[enable] == wanted[enable]);
                assert(calls@[enable + 1] == wanted[enable + 1]);
                assert forall|k: int| 0 <= k < calls@.len() implies calls@[k] == wanted[k] by {
                    if k < enable {
                        assert(calls@[k] == before[k]);
                    }
                }
            }
            offset = offset + 4 * (components as u32);
            at += 1;
        }
        assert(calls@ =~= wanted);
        Ok(calls)
    }

    /// Give `value` to the uniform `name`.
    ///
    /// A name that the program does not declare is refused, and so is a
    /// value that the declared type does not accept; no call is handed out
    /// then, so nothing that the program holds for the uniform changes.
    pub fn set_uniform<'a>(&self, name: &'a str, value: UniformValue<'a>) -> (outcome: Result<
        Vec<GlCall<'a>>,
        GolemError,
    >)
        ensures
            match uniform_fault(self@.uniforms, name@, value.shape()) {
                None => outcome is Ok && outcome->Ok_0@ == seq![
                    upload_call(self@.id, name, value),
                ],
                Some(fault) => outcome is Err && reports(outcome->Err_0, name@, fault),
            },
    {
        check_uniform(&self.uniforms, self.id, name, value)
    }

    /// End the program's life: unbind it where it is the bound one, then
    /// give the program and its two stages back to the GPU. The program is
    /// consumed, so this happens at most once.
    pub fn release(self, ctx: &mut Context) -> (calls: Vec<GlCall<'static>>)
        ensures
            calls@ == program_release_calls(
                self@.id,
                self@.vertex,
                self@.fragment,
                old(ctx)@.program,
            ),
            final(ctx)@ == (ContextView {
                limit: old(ctx)@.limit,
                program: if old(ctx)@.program == Some(self@.id) {
                    None
                } else {
                    old(ctx)@.program
                },
            }),
    {
        let mut calls: Vec<GlCall<'static>> = Vec::new();
        let bound = ctx.current_program();
        let is_bound = match bound {
            Some(program) => program == self.id,
            None => false,
        };
        if is_bound {
            ctx.set_current_program(None);
            calls.push(GlCall::UseProgram { program: None });
        }
        calls.push(GlCall::DeleteProgram { program: self.id });
        calls.push(GlCall::DeleteShader { shader: self.vertex });
        calls.push(GlCall::DeleteShader { shader: self.fragment });
        assert(calls@ =~= program_release_calls(
            self@.id,
            self@.vertex,
            self@.fragment,
            old(ctx)@.program,
        ));
        calls
    }
}

} // verus!
