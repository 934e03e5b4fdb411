//! Uniforms: named, typed values that a shader program reads.
use vstd::prelude::*;
use crate::call::GlCall;
use crate::error::GolemError;

verus! {

/// The type that a program declares for a uniform.
#[derive(Clone, Copy, Debug, PartialEq, Eq, Structural)]
pub enum UniformType {
    /// One integer.
    Int,
    /// One float.
    Float,
    /// A vector of this many floats.
    Vector(u8),
    /// A square matrix of floats with this many rows.
    Matrix(u8),
    /// A sampler of textures with this many dimensions. Its value is the
    /// number of the texture unit to sample from, an integer.
    Sampler(u8),
}

/// The shape of a uniform value: its tag, and for a vector or a matrix the
/// number of floats it holds.
#[derive(Clone, Copy, Debug, PartialEq, Eq, Structural)]
pub enum ValueKind {
    /// One integer.
    Int,
    /// One float.
    Float,
    /// A vector of this many floats.
    Vector(usize),
    /// A matrix of this many floats in all.
    Matrix(usize),
}

/// A value for a uniform. A float is held as its bit pattern.
#[derive(Clone, Copy, Debug, PartialEq, Eq)]
pub enum UniformValue<'a> {
    /// An integer; for a sampler, the number of a texture unit.
    Int(i32),
    /// A float.
    Float(u32),
    /// A vector of floats.
    Vector(&'a [u32]),
    /// A square matrix of floats, column after column.
    Matrix(&'a [u32]),
}

impl<'a> UniformValue<'a> {
    /// The shape of this value.
    pub open spec fn shape(self) -> ValueKind {
        match self {
            UniformValue::Int(_) => ValueKind::Int,
            UniformValue::Float(_) => ValueKind::Float,
            UniformValue::Vector(floats) => ValueKind::Vector(floats@.len() as usize),
            UniformValue::Matrix(floats) => ValueKind::Matrix(floats@.len() as usize),
        }
    }

    /// The shape of this value.
    pub fn kind(&self) -> (kind: ValueKind)
        ensures
            kind == self.shape(),
    {
        match self {
            UniformValue::Int(_) => ValueKind::Int,
            UniformValue::Float(_) => ValueKind::Float,
            UniformValue::Vector(floats) => ValueKind::Vector(floats.len()),
            UniformValue::Matrix(floats) => ValueKind::Matrix(floats.len()),
        }
    }
}

impl UniformType {
    /// A value of shape `kind` may be given to a uniform of this type: an
    /// integer to an integer or a sampler, a float to a float, a vector of
    /// `n` floats to a vector of `n`, a matrix of `n * n` floats to a matrix
    /// of `n`, with `n` one of 2, 3 and 4.
    pub open spec fn accepts(self, kind: ValueKind) -> bool {
        match (self, kind) {
            (UniformType::Int, ValueKind::Int) => true,
            (UniformType::Sampler(_), ValueKind::Int) => true,
            (UniformType::Float, ValueKind::Float) => true,
            (UniformType::Vector(n), ValueKind::Vector(len)) => 2 <= n <= 4 && len == n,
            (UniformType::Matrix(n), ValueKind::Matrix(len)) => 2 <= n <= 4 && len == n * n,
            _ => false,
        }
    }

    /// Whether a value of shape `kind` may be given to a uniform of this
    /// type.
    pub fn matches(&self, kind: ValueKind) -> (yes: bool)
        ensures
            yes == self.accepts(kind),
    {
        match (*self, kind) {
            (UniformType::Int, ValueKind::Int) => true,
            (UniformType::Sampler(_), ValueKind::Int) => true,
            (UniformType::Float, ValueKind::Float) => true,
            (UniformType::Vector(n), ValueKind::Vector(len)) => 2 <= n && n <= 4 && len == n as usize,
            (UniformType::Matrix(n), ValueKind::Matrix(len)) => {
                if 2 <= n && n <= 4 {
                    let rows: usize = n as usize;
                    assert(rows * rows <= 16) by (nonlinear_arith)
                        requires
                            2 <= rows <= 4,
                    ;
                    len == rows * rows
                } else {
                    false
                }
            },
            _ => false,
        }
    }
}

/// One uniform that a program declares.
#[derive(Debug, PartialEq, Eq)]
pub struct Uniform {
    /// The name by which the shader source reads it.
    pub name: String,
    /// The type that values for it must fit.
    pub u_type: UniformType,
}

/// What a declared uniform is, to a contract.
pub struct UniformView {
    /// Its name, as characters.
    pub name: Seq<char>,
    /// Its type.
    pub u_type: UniformType,
}

impl View for Uniform {
    type V = UniformView;

    open spec fn view(&self) -> UniformView {
        UniformView { name: self.name@, u_type: self.u_type }
    }
}

impl Uniform {
    /// Declares a uniform `name` of type `u_type`.
    pub fn new(name: &str, u_type: UniformType) -> (uniform: Uniform)
        ensures
            uniform@ == (UniformView { name: name@, u_type }),
    {
        Uniform { name: name.to_owned(), u_type }
    }
}

/// The views of a list of declarations, in order.
pub open spec fn schema(uniforms: Seq<Uniform>) -> Seq<UniformView> {
    uniforms.map_values(|uniform: Uniform| uniform@)
}

/// Declaration `at` is the first in `declared` to have the name `name`.
pub open spec fn first_declaration(declared: Seq<UniformView>, name: Seq<char>, at: int) -> bool {
    &&& 0 <= at < declared.len()
    &&& declared[at].name == name
    &&& forall|earlier: int| 0 <= earlier < at ==> declared[earlier].name != name
}

/// The type that `declared` gives to `name`: that of the first declaration
/// with that name, or `None` where no declaration has it.
pub open spec fn declared_type(declared: Seq<UniformView>, name: Seq<char>) -> Option<UniformType> {
    if exists|at: int| first_declaration(declared, name, at) {
        Some(declared[choose|at: int| first_declaration(declared, name, at)].u_type)
    } else {
        None
    }
}

/// A name has at most one first declaration.
pub proof fn lemma_first_declaration_unique(
    declared: Seq<UniformView>,
    name: Seq<char>,
    one: int,
    other: int,
)
    requires
        first_declaration(declared, name, one),
        first_declaration(declared, name, other),
    ensures
        one == other,
{
}

/// A declaration at a known place that no earlier one shadows gives the
/// name its type.
pub proof fn lemma_declared_type_at(declared: Seq<UniformView>, name: Seq<char>, at: int)
    requires
        first_declaration(declared, name, at),
    ensures
        declared_type(declared, name) == Some(declared[at].u_type),
{
    let chosen = choose|at: int| first_declaration(declared, name, at);
    lemma_first_declaration_unique(declared, name, at, chosen);
}

/// A name that no declaration has is given no type.
pub proof fn lemma_undeclared(declared: Seq<UniformView>, name: Seq<char>)
    requires
        forall|at: int| 0 <= at < declared.len() ==> declared[at].name != name,
    ensures
        declared_type(declared, name) is None,
{
}

/// The type that `uniforms` gives to `name`, if any declares it.
pub fn find_type(uniforms: &Vec<Uniform>, name: &str) -> (found: Option<UniformType>)
    ensures
        found == declared_type(schema(uniforms@), name@),
{
    let wanted: String = name.to_owned();
    let mut at: usize = 0;
    while at < uniforms.len()
        invariant
            at <= uniforms.len(),
            wanted@ == name@,
            forall|earlier: int| 0 <= earlier < at ==> schema(uniforms@)[earlier].name != name@,
        decreases uniforms.len() - at,
    {
        if uniforms[at].name == wanted {
            proof {
                lemma_declared_type_at(schema(uniforms@), name@, at as int);
            }
            return Some(uniforms[at].u_type);
        }
        at += 1;
    }
    proof {
        lemma_undeclared(schema(uniforms@), name@);
    }
    None
}

/// The call that uploads `value` to the uniform `name` of `program`.
pub open spec fn upload_call<'a>(program: u32, name: &'a str, value: UniformValue<'a>) -> GlCall<
    'a,
> {
    match value {
        UniformValue::Int(value) => GlCall::Uniform1I32 { program, name, value },
        UniformValue::Float(bits) => GlCall::Uniform1F32 { program, name, bits },
        UniformValue::Vector(bits) => GlCall::UniformVectorF32 { program, name, bits },
        UniformValue::Matrix(bits) => GlCall::UniformMatrixF32 {
            program,
            name,
            transpose: false,
            bits,
        },
    }
}

/// Why a value is refused for a uniform.
#[derive(Clone, Copy, Debug, PartialEq, Eq, Structural)]
pub enum UniformFault {
    /// The program declares no uniform of that name.
    Unknown,
    /// The declared type does not accept a value of that shape.
    Mismatch { expected: UniformType, actual: ValueKind },
}

/// What giving a value of shape `kind` to the uniform `name` comes to under
/// the declarations `declared`: `None` where the value is taken, the name
/// where nothing declares it, and the mismatch where the declared type does
/// not accept the shape.
pub open spec fn uniform_fault(declared: Seq<UniformView>, name: Seq<char>, kind: ValueKind) -> Option<
    UniformFault,
> {
    match declared_type(declared, name) {
        None => Some(UniformFault::Unknown),
        Some(expected) => if expected.accepts(kind) {
            None
        } else {
            Some(UniformFault::Mismatch { expected, actual: kind })
        },
    }
}

/// A value whose shape the declared type does not accept is refused as a
/// mismatch that names the declared type and the shape.
pub proof fn lemma_mismatch_refused(
    declared: Seq<UniformView>,
    name: Seq<char>,
    expected: UniformType,
    kind: ValueKind,
)
    requires
        declared_type(declared, name) == Some(expected),
        !expected.accepts(kind),
    ensures
        uniform_fault(declared, name, kind) == Some(
            UniformFault::Mismatch { expected, actual: kind },
        ),
{
}

/// A uniform declared as a float refuses an integer, whatever the integer.
pub proof fn lemma_float_refuses_int(declared: Seq<UniformView>, name: Seq<char>)
    requires
        declared_type(declared, name) == Some(UniformType::Float),
    ensures
        uniform_fault(declared, name, ValueKind::Int) == Some(
            UniformFault::Mismatch { expected: UniformType::Float, actual: ValueKind::Int },
        ),
{
}

/// A uniform declared as a sampler takes an integer, whatever the sampler's
/// dimension.
pub proof fn lemma_sampler_takes_int(declared: Seq<UniformView>, name: Seq<char>, dimension: u8)
    requires
        declared_type(declared, name) == Some(UniformType::Sampler(dimension)),
    ensures
        uniform_fault(declared, name, ValueKind::Int) is None,
{
}

/// A value is taken exactly when the name is declared and the declared
/// type accepts the value's shape.
pub proof fn lemma_uniform_taken(declared: Seq<UniformView>, name: Seq<char>, kind: ValueKind)
    ensures
        uniform_fault(declared, name, kind) is None <==> {
            &&& declared_type(declared, name) is Some
            &&& declared_type(declared, name)->0.accepts(kind)
        },
{
}

/// `error` is the error that reports `fault` for the uniform `name`.
pub open spec fn reports(error: GolemError, name: Seq<char>, fault: UniformFault) -> bool {
    match fault {
        UniformFault::Unknown => error matches GolemError::UnknownUniformError(unknown)
            && unknown@ == name,
        UniformFault::Mismatch { expected, actual } => error matches GolemError::UniformTypeError {
            name: offending,
            expected: e,
            actual: a,
        } && offending@ == name && e == expected && a == actual,
    }
}

/// Checks `value` against what `uniforms` declares for `name`, and gives the
/// call that uploads it to `program`. A value that is refused gives the
/// error that says why, and no call.
pub fn check_uniform<'a>(
    uniforms: &Vec<Uniform>,
    program: u32,
    name: &'a str,
    value: UniformValue<'a>,
) -> (outcome: Result<Vec<GlCall<'a>>, GolemError>)
    ensures
        match uniform_fault(schema(uniforms@), name@, value.shape()) {
            None => outcome is Ok && outcome->Ok_0@ == seq![upload_call(program, name, value)],
            Some(fault) => outcome is Err && reports(outcome->Err_0, name@, fault),
        },
{
    let kind = value.kind();
    match find_type(uniforms, name) {
        None => Err(GolemError::UnknownUniformError(name.to_owned())),
        Some(expected) => {
            if expected.matches(kind) {
                let call = match value {
                    UniformValue::Int(value) => GlCall::Uniform1I32 { program, name, value },
                    UniformValue::Float(bits) => GlCall::Uniform1F32 { program, name, bits },
                    UniformValue::Vector(bits) => GlCall::UniformVectorF32 { program, name, bits },
                    UniformValue::Matrix(bits) => GlCall::UniformMatrixF32 {
                        program,
                        name,
                        transpose: false,
                        bits,
                    },
                };
                let mut calls: Vec<GlCall<'a>> = Vec::new();
                calls.push(call);
                assert(calls@ =~= seq![upload_call(program, name, value)]);
                Ok(calls)
            } else {
                Err(GolemError::UniformTypeError { name: name.to_owned(), expected, actual: kind })
            }
        },
    }
}

} // verus!
