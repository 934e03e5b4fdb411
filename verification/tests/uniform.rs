use golem::call::GlCall;
use golem::error::GolemError;
use golem::uniform::{check_uniform, find_type, Uniform, UniformType, UniformValue, ValueKind};

fn declared() -> Vec<Uniform> {
    vec![
        Uniform::new("image", UniformType::Sampler(2)),
        Uniform::new("scale", UniformType::Float),
        Uniform::new("count", UniformType::Int),
        Uniform::new("offset", UniformType::Vector(2)),
        Uniform::new("tint", UniformType::Vector(4)),
        Uniform::new("transform", UniformType::Matrix(3)),
        Uniform::new("scale", UniformType::Int),
    ]
}

#[test]
fn kind_is_the_tag_and_the_number_of_floats() {
    assert_eq!(UniformValue::Int(-3).kind(), ValueKind::Int);
    assert_eq!(UniformValue::Float(0x3F80_0000).kind(), ValueKind::Float);
    assert_eq!(UniformValue::Vector(&[1, 2, 3]).kind(), ValueKind::Vector(3));
    assert_eq!(UniformValue::Matrix(&[0; 16]).kind(), ValueKind::Matrix(16));
    assert_eq!(UniformValue::Vector(&[]).kind(), ValueKind::Vector(0));
}

#[test]
fn scalars_match_their_own_tag_only() {
    assert!(UniformType::Int.matches(ValueKind::Int));
    assert!(!UniformType::Int.matches(ValueKind::Float));
    assert!(UniformType::Float.matches(ValueKind::Float));
    assert!(!UniformType::Float.matches(ValueKind::Int));
    assert!(!UniformType::Float.matches(ValueKind::Vector(1)));
    assert!(!UniformType::Int.matches(ValueKind::Matrix(1)));
}

#[test]
fn a_sampler_matches_an_integer() {
    assert!(UniformType::Sampler(2).matches(ValueKind::Int));
    assert!(UniformType::Sampler(3).matches(ValueKind::Int));
    assert!(!UniformType::Sampler(2).matches(ValueKind::Float));
    assert!(!UniformType::Sampler(2).matches(ValueKind::Vector(2)));
}

#[test]
fn a_vector_matches_its_own_length_from_two_to_four() {
    assert!(UniformType::Vector(2).matches(ValueKind::Vector(2)));
    assert!(UniformType::Vector(3).matches(ValueKind::Vector(3)));
    assert!(UniformType::Vector(4).matches(ValueKind::Vector(4)));
    assert!(!UniformType::Vector(2).matches(ValueKind::Vector(3)));
    assert!(!UniformType::Vector(4).matches(ValueKind::Matrix(4)));
    assert!(!UniformType::Vector(1).matches(ValueKind::Vector(1)));
    assert!(!UniformType::Vector(5).matches(ValueKind::Vector(5)));
    assert!(!UniformType::Vector(0).matches(ValueKind::Vector(0)));
}

#[test]
fn a_matrix_matches_its_rows_squared_from_two_to_four() {
    assert!(UniformType::Matrix(2).matches(ValueKind::Matrix(4)));
    assert!(UniformType::Matrix(3).matches(ValueKind::Matrix(9)));
    assert!(UniformType::Matrix(4).matches(ValueKind::Matrix(16)));
    assert!(!UniformType::Matrix(3).matches(ValueKind::Matrix(3)));
    assert!(!UniformType::Matrix(2).matches(ValueKind::Vector(4)));
    assert!(!UniformType::Matrix(1).matches(ValueKind::Matrix(1)));
    assert!(!UniformType::Matrix(5).matches(ValueKind::Matrix(25)));
    assert!(!UniformType::Matrix(255).matches(ValueKind::Matrix(65025)));
}

#[test]
fn find_type_gives_the_first_declaration_of_the_name() {
    let uniforms = declared();
    assert_eq!(find_type(&uniforms, "image"), Some(UniformType::Sampler(2)));
    assert_eq!(find_type(&uniforms, "scale"), Some(UniformType::Float));
    assert_eq!(find_type(&uniforms, "transform"), Some(UniformType::Matrix(3)));
    assert_eq!(find_type(&uniforms, "Scale"), None);
    assert_eq!(find_type(&uniforms, ""), None);
    assert_eq!(find_type(&Vec::new(), "image"), None);
}

#[test]
fn an_accepted_value_gives_its_upload() {
    let uniforms = declared();
    assert_eq!(
        check_uniform(&uniforms, 12, "count", UniformValue::Int(-4)),
        Ok(vec![GlCall::Uniform1I32 { program: 12, name: "count", value: -4 }])
    );
    assert_eq!(
        check_uniform(&uniforms, 12, "scale", UniformValue::Float(0x4000_0000)),
        Ok(vec![GlCall::Uniform1F32 { program: 12, name: "scale", bits: 0x4000_0000 }])
    );
    let offset = [0x3F00_0000u32, 0xBF00_0000];
    assert_eq!(
        check_uniform(&uniforms, 12, "offset", UniformValue::Vector(&offset)),
        Ok(vec![GlCall::UniformVectorF32 { program: 12, name: "offset", bits: &offset[..] }])
    );
    let cells = [1u32, 2, 3, 4, 5, 6, 7, 8, 9];
    assert_eq!(
        check_uniform(&uniforms, 12, "transform", UniformValue::Matrix(&cells)),
        Ok(vec![GlCall::UniformMatrixF32 {
            program: 12,
            name: "transform",
            transpose: false,
            bits: &cells[..],
        }])
    );
}

#[test]
fn an_undeclared_name_is_reported_by_name() {
    let uniforms = declared();
    assert_eq!(
        check_uniform(&uniforms, 12, "colour", UniformValue::Int(1)),
        Err(GolemError::UnknownUniformError(String::from("colour")))
    );
    assert_eq!(
        check_uniform(&Vec::new(), 12, "image", UniformValue::Int(1)),
        Err(GolemError::UnknownUniformError(String::from("image")))
    );
}

#[test]
fn a_mismatch_is_reported_with_what_was_expected_and_given() {
    let uniforms = declared();
    assert_eq!(
        check_uniform(&uniforms, 12, "scale", UniformValue::Int(1)),
        Err(GolemError::UniformTypeError {
            name: String::from("scale"),
            expected: UniformType::Float,
            actual: ValueKind::Int,
        })
    );
    assert_eq!(
        check_uniform(&uniforms, 12, "offset", UniformValue::Vector(&[1, 2, 3])),
        Err(GolemError::UniformTypeError {
            name: String::from("offset"),
            expected: UniformType::Vector(2),
            actual: ValueKind::Vector(3),
        })
    );
    assert_eq!(
        check_uniform(&uniforms, 12, "image", UniformValue::Float(0)),
        Err(GolemError::UniformTypeError {
            name: String::from("image"),
            expected: UniformType::Sampler(2),
            actual: ValueKind::Float,
        })
    );
    assert_eq!(
        check_uniform(&uniforms, 12, "transform", UniformValue::Matrix(&[0; 16])),
        Err(GolemError::UniformTypeError {
            name: String::from("transform"),
            expected: UniformType::Matrix(3),
            actual: ValueKind::Matrix(16),
        })
    );
}
