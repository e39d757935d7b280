//! Shaders and programs: what the compiler and the linker hand back, and how
//! loud their diagnostics are reported.

use vstd::prelude::*;

verus! {

/// Stage of the pipeline that a shader runs at.
#[derive(Clone, Copy, Debug, PartialEq, Eq, Hash, Structural)]
pub enum Stage {
    Vertex,
    Geometry,
    Fragment,
}

/// Why a shader was not created.
#[derive(Clone, Debug, PartialEq, Eq)]
pub enum CreateShaderError {
    /// The device does not run shaders of this model.
    ModelNotSupported,
    /// The source did not compile; the compiler's words.
    ShaderCompilationFailed(String),
}

/// Why a program was not created.
#[derive(Clone, Debug, PartialEq, Eq)]
pub enum CreateProgramError {
    /// The shaders did not link; the linker's words.
    LinkFail(String),
    /// The outputs that the program lacks.
    TargetMismatch(Vec<String>),
}

/// Number of rows or columns of a vector or matrix.
pub type Dimension = u8;

#[derive(Clone, Copy, Debug, PartialEq, Eq, Hash, Structural)]
pub enum IsArray {
    Array,
    NoArray,
}

#[derive(Clone, Copy, Debug, PartialEq, Eq, Hash, Structural)]
pub enum IsShadow {
    Shadow,
    NoShadow,
}

#[derive(Clone, Copy, Debug, PartialEq, Eq, Hash, Structural)]
pub enum IsMultiSample {
    MultiSample,
    NoMultiSample,
}

#[derive(Clone, Copy, Debug, PartialEq, Eq, Hash, Structural)]
pub enum IsRect {
    Rect,
    NoRect,
}

#[derive(Clone, Copy, Debug, PartialEq, Eq, Hash, Structural)]
pub enum MatrixFormat {
    ColumnMajor,
    RowMajor,
}

/// Kind of sampler that a program declares.
#[derive(Clone, Copy, Debug, PartialEq, Eq, Hash, Structural)]
pub enum SamplerType {
    SamplerBuffer,
    Sampler1D(IsArray, IsShadow),
    Sampler2D(IsArray, IsShadow, IsMultiSample, IsRect),
    Sampler3D,
    SamplerCube(IsShadow),
}

/// Scalar type of a program variable.
#[derive(Clone, Copy, Debug, PartialEq, Eq, Hash, Structural)]
pub enum BaseType {
    F32,
    F64,
    I32,
    U32,
    Bool,
}

/// Shape of a program variable.
#[derive(Clone, Copy, Debug, PartialEq, Eq, Hash, Structural)]
pub enum ContainerType {
    Single,
    Vector(Dimension),
    Matrix(MatrixFormat, Dimension, Dimension),
}

/// Vertex attribute of a program.
#[derive(Clone, Debug, PartialEq, Eq)]
pub struct Attribute {
    pub name: String,
    pub location: usize,
    pub count: usize,
    pub base_type: BaseType,
    pub container: ContainerType,
}

/// Uniform variable of a program.
#[derive(Clone, Debug, PartialEq, Eq)]
pub struct UniformVar {
    pub name: String,
    pub location: usize,
    pub count: usize,
    pub base_type: BaseType,
    pub container: ContainerType,
}

/// Uniform block of a program.
#[derive(Clone, Debug, PartialEq, Eq)]
pub struct BlockVar {
    pub name: String,
    /// Size in bytes.
    pub size: usize,
    /// Bit mask of the stages that use the block.
    pub usage: u8,
}

/// Sampler of a program.
#[derive(Clone, Debug, PartialEq, Eq)]
pub struct SamplerVar {
    pub name: String,
    pub location: usize,
    pub base_type: BaseType,
    pub sampler_type: SamplerType,
}

/// What the linker found in a program.
#[derive(Clone, Debug, PartialEq, Eq)]
pub struct ProgramInfo {
    pub attributes: Vec<Attribute>,
    pub uniforms: Vec<UniformVar>,
    pub blocks: Vec<BlockVar>,
    pub textures: Vec<SamplerVar>,
}

/// How loud a diagnostic is reported.
#[derive(Clone, Copy, Debug, PartialEq, Eq, Structural)]
pub enum Severity {
    Error,
    Warn,
}

/// A diagnostic for the log.
#[derive(Clone, Debug, PartialEq, Eq)]
pub struct LogEntry {
    pub severity: Severity,
    pub text: String,
}

/// What is reported of a build that failed or not and left the text `log`, as
/// severity and characters: a failure is always reported, as an error; a
/// success only when it left some text, as a warning.
pub open spec fn diagnosis(failed: bool, log: Option<Seq<char>>) -> Option<(Severity, Seq<char>)> {
    if failed {
        Some(
            (
                Severity::Error,
                match log {
                    Some(text) => text,
                    None => Seq::<char>::empty(),
                },
            ),
        )
    } else {
        match log {
            Some(text) => if text.len() > 0 {
                Some((Severity::Warn, text))
            } else {
                None
            },
            None => None,
        }
    }
}

/// The characters of an optional text.
pub open spec fn text_of(log: Option<String>) -> Option<Seq<char>> {
    match log {
        Some(text) => Some(text@),
        None => None,
    }
}

/// Severity and characters of an optional entry.
pub open spec fn entry_of(entry: Option<LogEntry>) -> Option<(Severity, Seq<char>)> {
    match entry {
        Some(e) => Some((e.severity, e.text@)),
        None => None,
    }
}

/// Decides what goes to the log after a compilation or a link.
pub fn diagnose(failed: bool, log: Option<String>) -> (entry: Option<LogEntry>)
    ensures
        entry_of(entry) == diagnosis(failed, text_of(log)),
{
    match log {
        Some(text) => {
            if failed {
                Some(LogEntry { severity: Severity::Error, text })
            } else if text.as_str().is_empty() {
                None
            } else {
                Some(LogEntry { severity: Severity::Warn, text })
            }
        },
        None => {
            if failed {
                Some(LogEntry { severity: Severity::Error, text: String::new() })
            } else {
                None
            }
        },
    }
}

} // verus!
