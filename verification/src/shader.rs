//! Building a shader program: compile the vertex stage, compile the
//! fragment stage, link.
//!
//! The connection does the work and the library decides. A build is in one
//! of three kinds of state. While [`Creating`], the connection is asked to
//! create an object, and its answer goes to [`Creating::created`]. While
//! [`Checking`], it is asked whether the compile or the link went well, and
//! its answer goes to [`Checking::status`]. While [`Failing`], it is asked
//! for the log of what failed, which goes to [`Failing::log`]. Whenever a
//! build fails, every object created for it so far is deleted, once.
use vstd::prelude::*;
use crate::call::GlCall;
use crate::codes;
use crate::error::{GolemError, ShaderStage};
use crate::program::{
    layout, layout_fits, vertex_stride, Attribute, AttributeView, ProgramView, ShaderProgram,
};
use crate::uniform::{schema, Uniform};

verus! {

/// What a shader program is made from.
#[derive(Debug, PartialEq, Eq)]
pub struct ShaderDescription {
    /// The inputs of the vertex stage, in the order of their indices.
    pub vertex_input: Vec<Attribute>,
    /// The inputs of the fragment stage.
    pub fragment_input: Vec<Attribute>,
    /// The uniforms that either stage reads.
    pub uniforms: Vec<Uniform>,
    /// The source text of the vertex stage.
    pub vertex_shader: String,
    /// The source text of the fragment stage.
    pub fragment_shader: String,
}

impl ShaderDescription {
    /// The program that this description gives once its stages are
    /// compiled as `vertex` and `fragment` and linked as `id`.
    pub open spec fn linked(self, id: u32, vertex: u32, fragment: u32) -> ProgramView {
        ProgramView {
            id,
            vertex,
            fragment,
            vertex_input: layout(self.vertex_input@),
            fragment_input: layout(self.fragment_input@),
            uniforms: schema(self.uniforms@),
        }
    }

    /// A program can be built from this description: its vertex inputs can
    /// be bound.
    pub open spec fn buildable(self) -> bool {
        layout_fits(layout(self.vertex_input@))
    }

    /// Whether a program can be built from this description.
    pub fn check(&self) -> (yes: bool)
        ensures
            yes == self.buildable(),
    {
        vertex_stride(&self.vertex_input).is_some()
    }
}

/// What the connection is asked to create.
#[derive(Clone, Copy, Debug, PartialEq, Eq, Structural)]
pub enum Wanted {
    /// A shader stage of this kind.
    Shader { kind: u32 },
    /// A program.
    Program,
}

/// What the connection is asked about: the status of an object, or its log.
#[derive(Clone, Copy, Debug, PartialEq, Eq, Structural)]
pub enum Subject {
    /// The shader stage of this name.
    Shader(u32),
    /// The program of this name.
    Program(u32),
}

/// A build that waits for an object to be created.
#[derive(Clone, Copy, Debug, PartialEq, Eq, Structural)]
pub enum Creating {
    /// The vertex stage; nothing has been created yet.
    Vertex,
    /// The fragment stage; the vertex stage is compiled.
    Fragment { vertex: u32 },
    /// The program; both stages are compiled.
    Program { vertex: u32, fragment: u32 },
}

/// A build that waits to hear whether a compile or a link went well.
#[derive(Clone, Copy, Debug, PartialEq, Eq, Structural)]
pub enum Checking {
    /// The compile of the vertex stage.
    Vertex { vertex: u32 },
    /// The compile of the fragment stage.
    Fragment { vertex: u32, fragment: u32 },
    /// The link of the program.
    Link { vertex: u32, fragment: u32, program: u32 },
}

/// A build whose compile or link failed, and that waits for the log.
#[derive(Clone, Copy, Debug, PartialEq, Eq, Structural)]
pub struct Failing {
    /// The check that failed.
    pub check: Checking,
}

/// What an answer to a creation comes to.
#[allow(inconsistent_fields)]
#[derive(Debug, PartialEq, Eq)]
pub enum Created<'a> {
    /// The object was created: perform `calls`, then check.
    Check { calls: Vec<GlCall<'a>>, checking: Checking },
    /// The object was not created: perform `calls`, which delete what the
    /// build had created, and give up with `error`.
    Failed { calls: Vec<GlCall<'static>>, error: GolemError },
}

/// What an answer to a check comes to.
#[derive(Debug)]
pub enum Checked {
    /// It went well and more is to be created.
    Create(Creating),
    /// It went well and the program is built.
    Done(ShaderProgram),
    /// It went wrong: the log says why.
    Explain(Failing),
}

/// The calls that delete what a build has created before it creates the
/// object it waits for: the latest first.
pub open spec fn created_so_far(creating: Creating) -> Seq<GlCall<'static>> {
    match creating {
        Creating::Vertex => seq![],
        Creating::Fragment { vertex } => seq![GlCall::DeleteShader { shader: vertex }],
        Creating::Program { vertex, fragment } => seq![
            GlCall::DeleteShader { shader: fragment },
            GlCall::DeleteShader { shader: vertex },
        ],
    }
}

/// The calls that delete what a build has created by the time of a check:
/// the latest first.
pub open spec fn cleanup_calls(check: Checking) -> Seq<GlCall<'static>> {
    match check {
        Checking::Vertex { vertex } => seq![GlCall::DeleteShader { shader: vertex }],
        Checking::Fragment { vertex, fragment } => seq![
            GlCall::DeleteShader { shader: fragment },
            GlCall::DeleteShader { shader: vertex },
        ],
        Checking::Link { vertex, fragment, program } => seq![
            GlCall::DeleteProgram { program },
            GlCall::DeleteShader { shader: fragment },
            GlCall::DeleteShader { shader: vertex },
        ],
    }
}

/// `calls` compile `shader` from the text `source`: hand it the text, then
/// compile.
pub open spec fn compiles(calls: Seq<GlCall>, shader: u32, source: Seq<char>) -> bool {
    &&& calls.len() == 2
    &&& calls[0] matches GlCall::ShaderSource { shader: target, source: text }
    &&& target == shader
    &&& text@ == source
    &&& calls[1] == GlCall::CompileShader { shader }
}

/// `call` gives the vertex input `name` of `program` the index `index`.
pub open spec fn places(call: GlCall, program: u32, index: int, name: Seq<char>) -> bool {
    &&& call matches GlCall::BindAttribLocation { program: target, index: given, name: text }
    &&& target == program
    &&& given == index
    &&& text@ == name
}

/// `calls` link `program` from its two stages: attach the vertex stage,
/// attach the fragment stage, give each vertex input its place in the list
/// as index, in order, and link.
pub open spec fn links(
    calls: Seq<GlCall>,
    program: u32,
    vertex: u32,
    fragment: u32,
    attributes: Seq<AttributeView>,
) -> bool {
    &&& calls.len() == attributes.len() + 3
    &&& calls[0] == GlCall::AttachShader { program, shader: vertex }
    &&& calls[1] == GlCall::AttachShader { program, shader: fragment }
    &&& forall|k: int|
        0 <= k < attributes.len() ==> places(#[trigger] calls[2 + k], program, k, attributes[k].name)
    &&& calls[attributes.len() as int + 2] == GlCall::LinkProgram { program }
}

impl Creating {
    /// The state in which every build starts.
    pub fn begin() -> (creating: Creating)
        ensures
            creating == Creating::Vertex,
    {
        Creating::Vertex
    }

    /// What the connection is to create in this state.
    pub open spec fn wants(self) -> Wanted {
        match self {
            Creating::Vertex => Wanted::Shader { kind: codes::VERTEX_SHADER },
            Creating::Fragment { .. } => Wanted::Shader { kind: codes::FRAGMENT_SHADER },
            Creating::Program { .. } => Wanted::Program,
        }
    }

    /// The check that follows once the object is created as `id`.
    pub open spec fn then_checks(self, id: u32) -> Checking {
        match self {
            Creating::Vertex => Checking::Vertex { vertex: id },
            Creating::Fragment { vertex } => Checking::Fragment { vertex, fragment: id },
            Creating::Program { vertex, fragment } => Checking::Link {
                vertex,
                fragment,
                program: id,
            },
        }
    }

    /// `calls` are the calls to perform once the object is created as `id`:
    /// those that compile it from its source where it is a stage, those
    /// that link it where it is the program.
    pub open spec fn then_performs(
        self,
        description: &ShaderDescription,
        id: u32,
        calls: Seq<GlCall>,
    ) -> bool {
        match self {
            Creating::Vertex => compiles(calls, id, description.vertex_shader@),
            Creating::Fragment { .. } => compiles(calls, id, description.fragment_shader@),
            Creating::Program { vertex, fragment } => links(
                calls,
                id,
                vertex,
                fragment,
                layout(description.vertex_input@),
            ),
        }
    }

    /// What the connection is to create in this state.
    pub fn wanted(&self) -> (wanted: Wanted)
        ensures
            wanted == self.wants(),
    {
        match self {
            Creating::Vertex => Wanted::Shader { kind: codes::vertex_shader() },
            Creating::Fragment { .. } => Wanted::Shader { kind: codes::fragment_shader() },
            Creating::Program { .. } => Wanted::Program,
        }
    }

    /// Takes the connection's answer to the creation: the new object's
    /// name, or its error message.
    ///
    /// On a name, the build goes on to the check, after the calls that
    /// compile or link the object. On a message, the build fails with it,
    /// and what it had created is deleted.
    pub fn created<'a>(
        self,
        description: &'a ShaderDescription,
        made: Result<u32, String>,
    ) -> (next: Created<'a>)
        requires
            description.buildable(),
        ensures
            match made {
                Ok(id) => next matches Created::Check { calls, checking }
                    && self.then_performs(description, id, calls@) && checking
                    == self.then_checks(id),
                Err(message) => next matches Created::Failed { calls, error } && calls@
                    == created_so_far(self) && error == GolemError::ContextError(message),
            },
    {
        match made {
            Ok(id) => {
                let mut calls: Vec<GlCall<'a>> = Vec::new();
                match self {
                    Creating::Vertex => {
                        let source: &'a str = description.vertex_shader.as_str();
                        calls.push(GlCall::ShaderSource { shader: id, source });
                        calls.push(GlCall::CompileShader { shader: id });
                        Created::Check { calls, checking: Checking::Vertex { vertex: id } }
                    },
                    Creating::Fragment { vertex } => {
                        let source: &'a str = description.fragment_shader.as_str();
                        calls.push(GlCall::ShaderSource { shader: id, source });
                        calls.push(GlCall::CompileShader { shader: id });
                        Created::Check {
                            calls,
                            checking: Checking::Fragment { vertex, fragment: id },
                        }
                    },
                    Creating::Program { vertex, fragment } => {
                        let ghost inputs = layout(description.vertex_input@);
                        calls.push(GlCall::AttachShader { program: id, shader: vertex });
                        calls.push(GlCall::AttachShader { program: id, shader: fragment });
                        let mut at: usize = 0;
                        while at < description.vertex_input.len()
                            invariant
                                at <= description.vertex_input.len(),
                                description.vertex_input@.len() <= u32::MAX,
                                inputs == layout(description.vertex_input@),
                                calls@.len() == 2 + at,
                                calls@[0] == (GlCall::AttachShader { program: id, shader: vertex }),
                                calls@[1] == (GlCall::AttachShader {
                                    program: id,
                                    shader: fragment,
                                }),
                                forall|k: int|
                                    0 <= k < at ==> places(
                                        #[trigger] calls@[2 + k],
                                        id,
                                        k,
                                        inputs[k].name,
                                    ),
                            decreases description.vertex_input.len() - at,
                        {
                            let name: &'a str = description.vertex_input[at].name.as_str();
                            let ghost before = calls@;
                            calls.push(
                                GlCall::BindAttribLocation {
                                    program: id,
                                    index: at as u32,
                                    name,
                                },
                            );
                            proof {
                                assert forall|k: int| 0 <= k < at + 1 implies places(
                                    #[trigger] calls@[2 + k],
                                    id,
                                    k,
                                    inputs[k].name,
                                ) by {
                                    if k < at {
                                        assert(calls@[2 + k] == before[2 + k]);
                                    }
                                }
                            }
                            at += 1;
                        }
                        let ghost located = calls@;
                        calls.push(GlCall::LinkProgram { program: id });
                        proof {
                            assert forall|k: int| 0 <= k < inputs.len() implies places(
                                #[trigger] calls@[2 + k],
                                id,
                                k,
                                inputs[k].name,
                            ) by {
                                assert(calls@[2 + k] == located[2 + k]);
                            }
                        }
                        Created::Check {
                            calls,
                            checking: Checking::Link { vertex, fragment, program: id },
                        }
                    },
                }
            },
            Err(message) => {
                let mut calls: Vec<GlCall<'static>> = Vec::new();
                match self {
                    Creating::Vertex => {},
                    Creating::Fragment { vertex } => {
                        calls.push(GlCall::DeleteShader { shader: vertex });
                    },
                    Creating::Program { vertex, fragment } => {
                        calls.push(GlCall::DeleteShader { shader: fragment });
                        calls.push(GlCall::DeleteShader { shader: vertex });
                    },
                }
                assert(calls@ =~= created_so_far(self));
                Created::Failed { calls, error: GolemError::ContextError(message) }
            },
        }
    }
}

/// A copy of `attributes`.
fn copy_attributes(attributes: &Vec<Attribute>) -> (copy: Vec<Attribute>)
    ensures
        copy@ == attributes@,
{
    let mut copy: Vec<Attribute> = Vec::new();
    let mut at: usize = 0;
    while at < attributes.len()
        invariant
            at <= attributes.len(),
            copy@ == attributes@.take(at as int),
        decreases attributes.len() - at,
    {
        copy.push(
            Attribute {
                name: attributes[at].name.clone(),
                components: attributes[at].components,
            },
        );
        assert(copy@ =~= attributes@.take(at + 1));
        at += 1;
    }
    assert(attributes@.take(at as int) =~= attributes@);
    copy
}

/// A copy of `uniforms`.
fn copy_uniforms(uniforms: &Vec<Uniform>) -> (copy: Vec<Uniform>)
    ensures
        copy@ == uniforms@,
{
    let mut copy: Vec<Uniform> = Vec::new();
    let mut at: usize = 0;
    while at < uniforms.len()
        invariant
            at <= uniforms.len(),
            copy@ == uniforms@.take(at as int),
        decreases uniforms.len() - at,
    {
        copy.push(Uniform { name: uniforms[at].name.clone(), u_type: uniforms[at].u_type });
        assert(copy@ =~= uniforms@.take(at + 1));
        at += 1;
    }
    assert(uniforms@.take(at as int) =~= uniforms@);
    copy
}

impl Checking {
    /// The object whose status the connection is asked for: the stage that
    /// was compiled, or the program that was linked.
    pub open spec fn about(self) -> Subject {
        match self {
            Checking::Vertex { vertex } => Subject::Shader(vertex),
            Checking::Fragment { fragment, .. } => Subject::Shader(fragment),
            Checking::Link { program, .. } => Subject::Program(program),
        }
    }

    /// The error that a failure of this check is, given the log.
    pub open spec fn failure(self, text: String) -> GolemError {
        match self {
            Checking::Vertex { .. } => GolemError::ShaderCompileError {
                stage: ShaderStage::Vertex,
                message: text,
            },
            Checking::Fragment { .. } => GolemError::ShaderCompileError {
                stage: ShaderStage::Fragment,
                message: text,
            },
            Checking::Link { .. } => GolemError::ShaderLinkError(text),
        }
    }

    /// The object whose status the connection is asked for.
    pub fn subject(&self) -> (subject: Subject)
        ensures
            subject == self.about(),
    {
        match self {
            Checking::Vertex { vertex } => Subject::Shader(*vertex),
            Checking::Fragment { fragment, .. } => Subject::Shader(*fragment),
            Checking::Link { program, .. } => Subject::Program(*program),
        }
    }

    /// Takes the connection's answer to the check: whether the compile or
    /// the link went well.
    ///
    /// Where it did, the build goes on to create the next object, or is
    /// done once the program is linked. Where it did not, the build waits
    /// for the log.
    pub fn status(self, description: &ShaderDescription, ok: bool) -> (next: Checked)
        requires
            description.buildable(),
        ensures
            !ok ==> (next matches Checked::Explain(failing) && failing == (Failing {
                check: self,
            })),
            ok ==> match self {
                Checking::Vertex { vertex } => next matches Checked::Create(creating) && creating
                    == (Creating::Fragment { vertex }),
                Checking::Fragment { vertex, fragment } => next matches Checked::Create(creating)
                    && creating == (Creating::Program { vertex, fragment }),
                Checking::Link { vertex, fragment, program } => next matches Checked::Done(built)
                    && built@ == description.linked(program, vertex, fragment),
            },
    {
        if !ok {
            return Checked::Explain(Failing { check: self });
        }
        match self {
            Checking::Vertex { vertex } => Checked::Create(Creating::Fragment { vertex }),
            Checking::Fragment { vertex, fragment } => Checked::Create(
                Creating::Program { vertex, fragment },
            ),
            Checking::Link { vertex, fragment, program } => {
                let stride: u32 = match vertex_stride(&description.vertex_input) {
                    Some(stride) => stride,
                    None => 0,
                };
                Checked::Done(
                    ShaderProgram::assemble(
                        program,
                        vertex,
                        fragment,
                        copy_attributes(&description.vertex_input),
                        copy_attributes(&description.fragment_input),
                        copy_uniforms(&description.uniforms),
                        stride,
                    ),
                )
            },
        }
    }
}

impl Failing {
    /// The object whose log the connection is asked for.
    pub fn subject(&self) -> (subject: Subject)
        ensures
            subject == self.check.about(),
    {
        self.check.subject()
    }

    /// Takes the log of what failed, and ends the build: the calls delete
    /// everything the build had created, and the error holds the log, as a
    /// compile error of the stage that failed or as a link error.
    pub fn log(self, text: String) -> (end: (Vec<GlCall<'static>>, GolemError))
        ensures
            end.0@ == cleanup_calls(self.check),
            end.1 == self.check.failure(text),
    {
        let mut calls: Vec<GlCall<'static>> = Vec::new();
        let error = match self.check {
            Checking::Vertex { vertex } => {
                calls.push(GlCall::DeleteShader { shader: vertex });
                GolemError::ShaderCompileError { stage: ShaderStage::Vertex, message: text }
            },
            Checking::Fragment { vertex, fragment } => {
                calls.push(GlCall::DeleteShader { shader: fragment });
                calls.push(GlCall::DeleteShader { shader: vertex });
                GolemError::ShaderCompileError { stage: ShaderStage::Fragment, message: text }
            },
            Checking::Link { vertex, fragment, program } => {
                calls.push(GlCall::DeleteProgram { program });
                calls.push(GlCall::DeleteShader { shader: fragment });
                calls.push(GlCall::DeleteShader { shader: vertex });
                GolemError::ShaderLinkError(text)
            },
        };
        assert(calls@ =~= cleanup_calls(self.check));
        (calls, error)
    }
}

} // verus!
