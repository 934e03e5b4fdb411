use golem::buffer::{ElementBuffer, VertexBuffer};
use golem::call::GlCall;
use golem::context::Context;
use golem::error::{GolemError, ShaderStage};
use golem::format::ColorFormat;
use golem::program::{vertex_stride, Attribute, ShaderProgram};
use golem::shader::{
    Checked, Checking, Created, Creating, Failing, ShaderDescription, Subject, Wanted,
};
use golem::uniform::{Uniform, UniformType, UniformValue, ValueKind};

fn description() -> ShaderDescription {
    ShaderDescription {
        vertex_input: vec![Attribute::vector(2, "vert_position"), Attribute::vector(2, "vert_uv")],
        fragment_input: vec![Attribute::vector(2, "frag_uv")],
        uniforms: vec![
            Uniform::new("image", UniformType::Sampler(2)),
            Uniform::new("scale", UniformType::Float),
        ],
        vertex_shader: String::from("void main() { gl_Position = vec4(vert_position, 0, 1); }"),
        fragment_shader: String::from("void main() { gl_FragColor = texture(image, frag_uv); }"),
    }
}

fn checking(next: Created) -> Checking {
    match next {
        Created::Check { checking, .. } => checking,
        Created::Failed { error, .. } => panic!("the build failed: {:?}", error),
    }
}

fn creating(next: Checked) -> Creating {
    match next {
        Checked::Create(creating) => creating,
        other => panic!("the build does not go on to create: {:?}", other),
    }
}

fn failing(next: Checked) -> Failing {
    match next {
        Checked::Explain(failing) => failing,
        other => panic!("the build does not wait for a log: {:?}", other),
    }
}

fn built(description: &ShaderDescription, vertex: u32, fragment: u32, id: u32) -> ShaderProgram {
    let check = checking(Creating::begin().created(description, Ok(vertex)));
    let create = creating(check.status(description, true));
    let check = checking(create.created(description, Ok(fragment)));
    let create = creating(check.status(description, true));
    let check = checking(create.created(description, Ok(id)));
    match check.status(description, true) {
        Checked::Done(program) => program,
        other => panic!("the build is not done: {:?}", other),
    }
}

fn filled(id: u32, bytes: usize, stride: u32) -> VertexBuffer {
    let mut vb = VertexBuffer::new(Ok(id)).unwrap();
    vb.set_data(&vec![0u8; bytes], stride).unwrap();
    vb
}

#[test]
fn attributes_hold_their_name_and_number_of_floats() {
    assert_eq!(
        Attribute::scalar("depth"),
        Attribute { name: String::from("depth"), components: 1 }
    );
    assert_eq!(
        Attribute::vector(3, "normal"),
        Attribute { name: String::from("normal"), components: 3 }
    );
}

#[test]
fn stride_is_four_bytes_for_each_float() {
    assert_eq!(vertex_stride(&Vec::new()), Some(0));
    assert_eq!(vertex_stride(&vec![Attribute::scalar("a")]), Some(4));
    assert_eq!(
        vertex_stride(&vec![Attribute::vector(2, "a"), Attribute::vector(2, "b")]),
        Some(16)
    );
    assert_eq!(
        vertex_stride(&vec![
            Attribute::vector(3, "a"),
            Attribute::scalar("b"),
            Attribute::vector(4, "c"),
        ]),
        Some(32)
    );
    assert_eq!(vertex_stride(&vec![Attribute::vector(255, "a")]), Some(1020));
    assert_eq!(vertex_stride(&vec![Attribute::vector(0, "a")]), Some(0));
}

#[test]
fn a_layout_beyond_an_i32_has_no_stride() {
    let mut attributes = Vec::new();
    // 2_105_376 attributes of 1020 bytes take up 2_147_483_520 bytes, which
    // is 127 bytes short of the largest i32.
    for _ in 0..2_105_376 {
        attributes.push(Attribute { name: String::new(), components: 255 });
    }
    assert_eq!(vertex_stride(&attributes), Some(2_147_483_520));
    attributes.push(Attribute { name: String::new(), components: 31 });
    assert_eq!(vertex_stride(&attributes), Some(2_147_483_644));
    attributes.push(Attribute { name: String::new(), components: 1 });
    assert_eq!(vertex_stride(&attributes), None);
}

#[test]
fn a_description_is_buildable_when_its_vertex_inputs_have_a_stride() {
    assert!(description().check());
    let mut large = description();
    for _ in 0..2_105_377 {
        large.vertex_input.push(Attribute { name: String::new(), components: 255 });
    }
    assert!(!large.check());
}

#[test]
fn a_build_starts_with_the_vertex_stage() {
    assert_eq!(Creating::begin(), Creating::Vertex);
    assert_eq!(Creating::begin().wanted(), Wanted::Shader { kind: glow::VERTEX_SHADER });
    assert_eq!(Context::new(64).new_shader(), Creating::Vertex);
}

#[test]
fn each_state_asks_for_what_it_waits_for() {
    assert_eq!(Creating::Vertex.wanted(), Wanted::Shader { kind: 0x8B31 });
    assert_eq!(Creating::Fragment { vertex: 1 }.wanted(), Wanted::Shader { kind: 0x8B30 });
    assert_eq!(
        Creating::Fragment { vertex: 1 }.wanted(),
        Wanted::Shader { kind: glow::FRAGMENT_SHADER }
    );
    assert_eq!(Creating::Program { vertex: 1, fragment: 2 }.wanted(), Wanted::Program);
    assert_eq!(Checking::Vertex { vertex: 1 }.subject(), Subject::Shader(1));
    assert_eq!(Checking::Fragment { vertex: 1, fragment: 2 }.subject(), Subject::Shader(2));
    assert_eq!(
        Checking::Link { vertex: 1, fragment: 2, program: 3 }.subject(),
        Subject::Program(3)
    );
    assert_eq!(
        Failing { check: Checking::Fragment { vertex: 1, fragment: 2 } }.subject(),
        Subject::Shader(2)
    );
    assert_eq!(
        Failing { check: Checking::Link { vertex: 1, fragment: 2, program: 3 } }.subject(),
        Subject::Program(3)
    );
}

#[test]
fn a_created_stage_is_compiled_from_its_source() {
    let description = description();
    assert_eq!(
        Creating::Vertex.created(&description, Ok(10)),
        Created::Check {
            calls: vec![
                GlCall::ShaderSource { shader: 10, source: &description.vertex_shader },
                GlCall::CompileShader { shader: 10 },
            ],
            checking: Checking::Vertex { vertex: 10 },
        }
    );
    assert_eq!(
        Creating::Fragment { vertex: 10 }.created(&description, Ok(11)),
        Created::Check {
            calls: vec![
                GlCall::ShaderSource { shader: 11, source: &description.fragment_shader },
                GlCall::CompileShader { shader: 11 },
            ],
            checking: Checking::Fragment { vertex: 10, fragment: 11 },
        }
    );
}

#[test]
fn a_created_program_is_linked_with_its_inputs_in_order() {
    let description = description();
    assert_eq!(
        Creating::Program { vertex: 10, fragment: 11 }.created(&description, Ok(12)),
        Created::Check {
            calls: vec![
                GlCall::AttachShader { program: 12, shader: 10 },
                GlCall::AttachShader { program: 12, shader: 11 },
                GlCall::BindAttribLocation { program: 12, index: 0, name: "vert_position" },
                GlCall::BindAttribLocation { program: 12, index: 1, name: "vert_uv" },
                GlCall::LinkProgram { program: 12 },
            ],
            checking: Checking::Link { vertex: 10, fragment: 11, program: 12 },
        }
    );
}

#[test]
fn a_program_without_inputs_is_attached_and_linked() {
    let mut description = description();
    description.vertex_input.clear();
    assert_eq!(
        Creating::Program { vertex: 1, fragment: 2 }.created(&description, Ok(3)),
        Created::Check {
            calls: vec![
                GlCall::AttachShader { program: 3, shader: 1 },
                GlCall::AttachShader { program: 3, shader: 2 },
                GlCall::LinkProgram { program: 3 },
            ],
            checking: Checking::Link { vertex: 1, fragment: 2, program: 3 },
        }
    );
}

#[test]
fn a_failed_creation_deletes_what_was_created() {
    let description = description();
    assert_eq!(
        Creating::Vertex.created(&description, Err(String::from("first"))),
        Created::Failed { calls: vec![], error: GolemError::ContextError(String::from("first")) }
    );
    assert_eq!(
        Creating::Fragment { vertex: 10 }.created(&description, Err(String::from("second"))),
        Created::Failed {
            calls: vec![GlCall::DeleteShader { shader: 10 }],
            error: GolemError::ContextError(String::from("second")),
        }
    );
    assert_eq!(
        Creating::Program { vertex: 10, fragment: 11 }
            .created(&description, Err(String::from("third"))),
        Created::Failed {
            calls: vec![GlCall::DeleteShader { shader: 11 }, GlCall::DeleteShader { shader: 10 }],
            error: GolemError::ContextError(String::from("third")),
        }
    );
}

#[test]
fn a_good_status_goes_on_to_the_next_object() {
    let description = description();
    assert_eq!(
        creating(Checking::Vertex { vertex: 10 }.status(&description, true)),
        Creating::Fragment { vertex: 10 }
    );
    assert_eq!(
        creating(Checking::Fragment { vertex: 10, fragment: 11 }.status(&description, true)),
        Creating::Program { vertex: 10, fragment: 11 }
    );
}

#[test]
fn a_bad_status_waits_for_the_log() {
    let description = description();
    let checks = [
        Checking::Vertex { vertex: 10 },
        Checking::Fragment { vertex: 10, fragment: 11 },
        Checking::Link { vertex: 10, fragment: 11, program: 12 },
    ];
    for check in checks {
        assert_eq!(failing(check.status(&description, false)), Failing { check });
    }
}

#[test]
fn a_vertex_compile_failure_holds_the_log_and_deletes_the_stage() {
    let failing = Failing { check: Checking::Vertex { vertex: 10 } };
    assert_eq!(
        failing.log(String::from("0:1: syntax error")),
        (
            vec![GlCall::DeleteShader { shader: 10 }],
            GolemError::ShaderCompileError {
                stage: ShaderStage::Vertex,
                message: String::from("0:1: syntax error"),
            },
        )
    );
}

#[test]
fn a_fragment_compile_failure_holds_the_log_and_deletes_both_stages() {
    let failing = Failing { check: Checking::Fragment { vertex: 10, fragment: 11 } };
    assert_eq!(
        failing.log(String::from("undeclared identifier")),
        (
            vec![GlCall::DeleteShader { shader: 11 }, GlCall::DeleteShader { shader: 10 }],
            GolemError::ShaderCompileError {
                stage: ShaderStage::Fragment,
                message: String::from("undeclared identifier"),
            },
        )
    );
}

#[test]
fn a_link_failure_holds_the_log_and_deletes_all_three() {
    let failing = Failing { check: Checking::Link { vertex: 10, fragment: 11, program: 12 } };
    assert_eq!(
        failing.log(String::from("varying mismatch")),
        (
            vec![
                GlCall::DeleteProgram { program: 12 },
                GlCall::DeleteShader { shader: 11 },
                GlCall::DeleteShader { shader: 10 },
            ],
            GolemError::ShaderLinkError(String::from("varying mismatch")),
        )
    );
}

#[test]
fn a_built_program_has_the_stride_of_its_inputs() {
    let description = description();
    let program = built(&description, 10, 11, 12);
    assert_eq!(program.stride(), 16);
}

#[test]
fn bind_makes_the_program_current_and_lays_out_the_inputs() {
    let description = description();
    let program = built(&description, 10, 11, 12);
    let mut ctx = Context::new(4096);
    let vb = filled(3, 64, 16);
    let calls = program.bind(&mut ctx, &vb).unwrap();
    assert_eq!(
        calls,
        vec![
            GlCall::UseProgram { program: Some(12) },
            GlCall::BindBuffer { target: 0x8892, buffer: Some(3) },
            GlCall::EnableVertexAttribArray { index: 0 },
            GlCall::VertexAttribPointerF32 {
                index: 0,
                size: 2,
                data_type: glow::FLOAT,
                normalized: false,
                stride: 16,
                offset: 0,
            },
            GlCall::EnableVertexAttribArray { index: 1 },
            GlCall::VertexAttribPointerF32 {
                index: 1,
                size: 2,
                data_type: 0x1406,
                normalized: false,
                stride: 16,
                offset: 8,
            },
        ]
    );
    assert_eq!(ctx.current_program(), Some(12));
}

#[test]
fn bind_gives_each_input_the_offset_of_those_before_it() {
    let mut description = description();
    description.vertex_input = vec![
        Attribute::vector(3, "position"),
        Attribute::scalar("weight"),
        Attribute::vector(4, "colour"),
    ];
    let program = built(&description, 1, 2, 3);
    let mut ctx = Context::new(4096);
    let vb = filled(9, 96, 32);
    let calls = program.bind(&mut ctx, &vb).unwrap();
    let mut laid_out = Vec::new();
    for call in &calls {
        if let GlCall::VertexAttribPointerF32 { index, size, stride, offset, .. } = call {
            laid_out.push((*index, *size, *stride, *offset));
        }
    }
    assert_eq!(laid_out, vec![(0, 3, 32, 0), (1, 1, 32, 12), (2, 4, 32, 16)]);
    assert_eq!(calls.len(), 8);
}

#[test]
fn bind_refuses_a_buffer_of_another_stride() {
    let description = description();
    let program = built(&description, 10, 11, 12);
    let mut ctx = Context::new(4096);
    for stride in [4u32, 8, 12, 15, 17, 20, 32] {
        let vb = filled(3, (stride * 3) as usize, stride);
        assert_eq!(
            program.bind(&mut ctx, &vb).unwrap_err(),
            GolemError::LayoutError { expected: 16, actual: stride }
        );
        assert_eq!(ctx.current_program(), None);
    }
}

#[test]
fn bind_refuses_a_buffer_that_was_never_filled() {
    let description = description();
    let program = built(&description, 10, 11, 12);
    let mut ctx = Context::new(4096);
    let vb = VertexBuffer::new(Ok(3)).unwrap();
    assert_eq!(
        program.bind(&mut ctx, &vb).unwrap_err(),
        GolemError::LayoutError { expected: 16, actual: 0 }
    );
}

#[test]
fn a_refused_bind_leaves_the_earlier_program_bound() {
    let description = description();
    let first = built(&description, 10, 11, 12);
    let second = built(&description, 20, 21, 22);
    let mut ctx = Context::new(4096);
    first.bind(&mut ctx, &filled(3, 16, 16)).unwrap();
    assert!(second.bind(&mut ctx, &filled(4, 8, 8)).is_err());
    assert_eq!(ctx.current_program(), Some(12));
    second.bind(&mut ctx, &filled(4, 16, 16)).unwrap();
    assert_eq!(ctx.current_program(), Some(22));
}

#[test]
fn a_float_uniform_refuses_an_integer() {
    let mut description = description();
    description.uniforms = vec![Uniform::new("scale", UniformType::Float)];
    let program = built(&description, 10, 11, 12);
    assert_eq!(
        program.set_uniform("scale", UniformValue::Int(1)).unwrap_err(),
        GolemError::UniformTypeError {
            name: String::from("scale"),
            expected: UniformType::Float,
            actual: ValueKind::Int,
        }
    );
    assert_eq!(
        program.set_uniform("scale", UniformValue::Float(0x3F80_0000)),
        Ok(vec![GlCall::Uniform1F32 { program: 12, name: "scale", bits: 0x3F80_0000 }])
    );
}

#[test]
fn set_uniform_refuses_a_name_that_is_not_declared() {
    let description = description();
    let program = built(&description, 10, 11, 12);
    assert_eq!(
        program.set_uniform("tint", UniformValue::Int(1)).unwrap_err(),
        GolemError::UnknownUniformError(String::from("tint"))
    );
}

#[test]
fn release_deletes_the_program_and_its_stages() {
    let description = description();
    let program = built(&description, 10, 11, 12);
    let mut ctx = Context::new(4096);
    assert_eq!(
        program.release(&mut ctx),
        vec![
            GlCall::DeleteProgram { program: 12 },
            GlCall::DeleteShader { shader: 10 },
            GlCall::DeleteShader { shader: 11 },
        ]
    );
    assert_eq!(ctx.current_program(), None);
}

#[test]
fn release_of_the_bound_program_unbinds_it_first() {
    let description = description();
    let program = built(&description, 10, 11, 12);
    let mut ctx = Context::new(4096);
    program.bind(&mut ctx, &filled(3, 16, 16)).unwrap();
    assert_eq!(
        program.release(&mut ctx),
        vec![
            GlCall::UseProgram { program: None },
            GlCall::DeleteProgram { program: 12 },
            GlCall::DeleteShader { shader: 10 },
            GlCall::DeleteShader { shader: 11 },
        ]
    );
    assert_eq!(ctx.current_program(), None);
}

#[test]
fn release_of_another_program_leaves_the_bound_one() {
    let description = description();
    let bound = built(&description, 10, 11, 12);
    let other = built(&description, 20, 21, 22);
    let mut ctx = Context::new(4096);
    bound.bind(&mut ctx, &filled(3, 16, 16)).unwrap();
    assert_eq!(other.release(&mut ctx).len(), 3);
    assert_eq!(ctx.current_program(), Some(12));
}

#[test]
fn draw_without_a_program_is_refused() {
    let ctx = Context::new(4096);
    let mut eb = ElementBuffer::new(Ok(4)).unwrap();
    eb.set_data(&[0, 1, 2]);
    assert_eq!(ctx.draw(&eb, 0, 3).unwrap_err(), GolemError::NoShaderBound);
}

#[test]
fn draw_binds_the_indices_and_draws_the_range() {
    let description = description();
    let program = built(&description, 10, 11, 12);
    let mut ctx = Context::new(4096);
    program.bind(&mut ctx, &filled(3, 64, 16)).unwrap();
    let mut eb = ElementBuffer::new(Ok(4)).unwrap();
    eb.set_data(&[0, 1, 2, 2, 3, 0]);
    assert_eq!(
        ctx.draw(&eb, 3, 6).unwrap(),
        vec![
            GlCall::BindBuffer { target: 0x8893, buffer: Some(4) },
            GlCall::DrawElements {
                mode: glow::TRIANGLES,
                count: 3,
                element_type: glow::UNSIGNED_INT,
                offset: 12,
            },
        ]
    );
    assert_eq!(
        ctx.draw(&eb, 2, 2).unwrap()[1],
        GlCall::DrawElements { mode: 4, count: 0, element_type: 0x1405, offset: 8 }
    );
}

#[test]
fn draw_after_release_of_the_bound_program_is_refused() {
    let description = description();
    let program = built(&description, 10, 11, 12);
    let mut ctx = Context::new(4096);
    program.bind(&mut ctx, &filled(3, 64, 16)).unwrap();
    let eb = ElementBuffer::new(Ok(4)).unwrap();
    assert!(ctx.draw(&eb, 0, 0).is_ok());
    program.release(&mut ctx);
    assert_eq!(ctx.draw(&eb, 0, 0).unwrap_err(), GolemError::NoShaderBound);
}

#[test]
fn check_range_takes_what_an_i32_can_address() {
    assert!(Context::check_range(0, 0));
    assert!(Context::check_range(0, 6));
    assert!(Context::check_range(5, 5));
    assert!(!Context::check_range(6, 5));
    assert!(Context::check_range(0, 0x1FFF_FFFF));
    assert!(Context::check_range(0x1FFF_FFFF, 0x1FFF_FFFF));
    assert!(!Context::check_range(0, 0x2000_0000));
    assert!(!Context::check_range(0, usize::MAX));
}

#[test]
fn the_largest_range_passes_into_the_call_unchanged() {
    let description = description();
    let program = built(&description, 10, 11, 12);
    let mut ctx = Context::new(4096);
    program.bind(&mut ctx, &filled(3, 64, 16)).unwrap();
    let eb = ElementBuffer::new(Ok(4)).unwrap();
    assert_eq!(
        ctx.draw(&eb, 0, 0x1FFF_FFFF).unwrap()[1],
        GlCall::DrawElements { mode: 4, count: 0x1FFF_FFFF, element_type: 0x1405, offset: 0 }
    );
    assert_eq!(
        ctx.draw(&eb, 0x1FFF_FFFF, 0x1FFF_FFFF).unwrap()[1],
        GlCall::DrawElements { mode: 4, count: 0, element_type: 0x1405, offset: 0x7FFF_FFFC }
    );
}

#[test]
fn draw_outcome_is_success_on_no_error_only() {
    assert_eq!(Context::draw_outcome(0), Ok(()));
    assert_eq!(Context::draw_outcome(glow::NO_ERROR), Ok(()));
    assert_eq!(Context::draw_outcome(0x0502), Err(GolemError::GlError(0x0502)));
    assert_eq!(Context::draw_outcome(1), Err(GolemError::GlError(1)));
    assert_eq!(Context::draw_outcome(u32::MAX), Err(GolemError::GlError(u32::MAX)));
}

#[test]
fn clear_clears_the_colour() {
    assert_eq!(
        Context::new(64).clear(),
        vec![GlCall::Clear { mask: glow::COLOR_BUFFER_BIT }]
    );
    assert_eq!(Context::new(64).clear(), vec![GlCall::Clear { mask: 0x4000 }]);
}

#[test]
fn bind_texture_selects_the_unit_and_binds() {
    let ctx = Context::new(64);
    let (tex, _) = ctx.new_texture(Ok(7), None, 2, 2, ColorFormat::RGB).unwrap();
    assert_eq!(
        ctx.bind_texture(Some(&tex), 0),
        vec![
            GlCall::ActiveTexture { unit: glow::TEXTURE0 },
            GlCall::BindTexture { target: glow::TEXTURE_2D, texture: Some(7) },
        ]
    );
    assert_eq!(
        ctx.bind_texture(None, 5),
        vec![
            GlCall::ActiveTexture { unit: 0x84C5 },
            GlCall::BindTexture { target: 0x0DE1, texture: None },
        ]
    );
}

#[test]
fn new_texture_creates_and_uploads_in_one_step() {
    let ctx = Context::new(64);
    let data = [1u8; 16];
    let (tex, calls) = ctx.new_texture(Ok(7), Some(&data), 2, 2, ColorFormat::RGBA).unwrap();
    assert_eq!((tex.width(), tex.height()), (2, 2));
    assert_eq!(
        calls,
        vec![
            GlCall::BindTexture { target: 0x0DE1, texture: Some(7) },
            GlCall::TexParameterI32 { target: 0x0DE1, parameter: 0x2801, value: 0x2601 },
            GlCall::BindTexture { target: 0x0DE1, texture: Some(7) },
            GlCall::TexImage2d {
                target: 0x0DE1,
                level: 0,
                internal_format: 0x1908,
                width: 2,
                height: 2,
                border: 0,
                format: 0x1908,
                ty: 0x1401,
                pixels: Some(&data[..]),
            },
            GlCall::GenerateMipmap { target: 0x0DE1 },
            GlCall::BindTexture { target: 0x0DE1, texture: None },
        ]
    );
}

#[test]
fn a_texture_made_with_an_image_hands_on_the_creation_error() {
    let ctx = Context::new(64);
    let made = ctx.new_texture(Err(String::from("gone")), None, 2, 2, ColorFormat::RGB);
    assert_eq!(made.unwrap_err(), GolemError::ContextError(String::from("gone")));
}

#[test]
fn context_makes_empty_buffers() {
    let ctx = Context::new(64);
    assert_eq!(ctx.new_vertex_buffer(Ok(1)).unwrap().size(), 0);
    assert_eq!(ctx.new_element_buffer(Ok(2)).unwrap().size(), 0);
    assert_eq!(
        ctx.new_vertex_buffer(Err(String::from("a"))).unwrap_err(),
        GolemError::ContextError(String::from("a"))
    );
    assert_eq!(
        ctx.new_element_buffer(Err(String::from("b"))).unwrap_err(),
        GolemError::ContextError(String::from("b"))
    );
}

#[test]
fn a_textured_quad_is_drawn() {
    let mut ctx = Context::new(4096);
    let image = [255u8, 0, 0, 255, 0, 0, 255, 0, 0, 255, 0, 0];
    let (texture, _) = ctx.new_texture(Ok(7), Some(&image), 2, 2, ColorFormat::RGB).unwrap();
    assert_eq!((texture.width(), texture.height()), (2, 2));
    assert_eq!(texture.set_active(1)[0], GlCall::ActiveTexture { unit: 0x84C1 });

    let mut description = description();
    description.uniforms = vec![Uniform::new("image", UniformType::Sampler(2))];
    let shader = built(&description, 10, 11, 12);

    let mut vb = ctx.new_vertex_buffer(Ok(3)).unwrap();
    let mut eb = ctx.new_element_buffer(Ok(4)).unwrap();
    let vertices = [0u8; 64];
    let indices = [0u32, 1, 2, 2, 3, 0];
    vb.set_data(&vertices, 16).unwrap();
    eb.set_data(&indices);
    shader.bind(&mut ctx, &vb).unwrap();
    assert_eq!(
        shader.set_uniform("image", UniformValue::Int(1)),
        Ok(vec![GlCall::Uniform1I32 { program: 12, name: "image", value: 1 }])
    );

    assert_eq!(ctx.clear().len(), 1);
    assert!(Context::check_range(0, 6));
    assert_eq!(
        ctx.draw(&eb, 0, 6).unwrap(),
        vec![
            GlCall::BindBuffer { target: 0x8893, buffer: Some(4) },
            GlCall::DrawElements { mode: 4, count: 6, element_type: 0x1405, offset: 0 },
        ]
    );
    assert_eq!(Context::draw_outcome(glow::NO_ERROR), Ok(()));
}
