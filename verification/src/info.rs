//! Descriptions of device resources: the record attached to a handle when the
//! resource is created, and the errors that creation and update can give.

use vstd::prelude::*;

verus! {

/// Bind point that a buffer is used at.
#[derive(Clone, Copy, Debug, PartialEq, Eq, Hash, Structural)]
pub enum BufferRole {
    /// Vertex data.
    Vertex,
    /// Index data.
    Index,
}

/// Hint on how often a buffer's contents change.
#[derive(Clone, Copy, Debug, PartialEq, Eq, Hash, Structural)]
pub enum BufferUsage {
    /// Written once, read often.
    Static,
    /// Written now and then, read often.
    Dynamic,
    /// Written about as often as read.
    Stream,
}

/// Record of a buffer.
#[derive(Clone, Copy, Debug, PartialEq, Eq, Hash, Structural)]
pub struct BufferInfo {
    pub role: BufferRole,
    pub usage: BufferUsage,
    /// Size in bytes.
    pub size: usize,
}

/// Access that a mapping of a buffer allows.
#[derive(Clone, Copy, Debug, PartialEq, Eq, Structural)]
pub enum MapAccess {
    Readable,
    Writable,
    RW,
}

/// An update of a buffer that leaves its storage.
#[derive(Clone, Copy, Debug, PartialEq, Eq, Structural)]
pub enum BufferUpdateError {
    OutOfBounds,
}

/// A feature that the device does not offer.
#[derive(Clone, Copy, Debug, PartialEq, Eq, Structural)]
pub struct NotSupported;

/// Dimension of a surface or texture, in texels.
pub type Size = u16;

/// Number of bits of a component.
pub type Bits = u8;

/// Number of samples of a multisampled texel.
pub type NumSamples = u8;

/// Number of fragments of a multisampled texel.
pub type NumFragments = u8;

/// Samples inside a texel.
#[derive(Clone, Copy, Debug, PartialEq, Eq, Hash, Structural)]
pub enum AaMode {
    Msaa(NumSamples),
    Eqaa(NumSamples, NumFragments),
}

/// Color components of a texel.
#[derive(Clone, Copy, Debug, PartialEq, Eq, Hash, Structural)]
pub enum Components {
    R,
    RG,
    RGB,
    RGBA,
}

/// Width of a floating-point component.
#[derive(Clone, Copy, Debug, PartialEq, Eq, Hash, Structural)]
pub enum FloatSize {
    F16,
    F32,
    F64,
}

/// How the device reads an integer component.
#[derive(Clone, Copy, Debug, PartialEq, Eq, Hash, Structural)]
pub enum IntSubType {
    Raw,
    Normalized,
    AsFloat,
}

/// Codec of compressed image data.
#[allow(non_camel_case_types)]
#[derive(Clone, Copy, Debug, PartialEq, Eq, Hash, Structural)]
pub enum Compression {
    ETC2_RGB,
    ETC2_SRGB,
    ETC2_EAC_RGBA8,
}

/// Layout of a texel.
#[allow(non_camel_case_types)]
#[derive(Clone, Copy, Debug, PartialEq, Eq, Hash, Structural)]
pub enum Format {
    Float(Components, FloatSize),
    Integer(Components, Bits, IntSubType),
    Unsigned(Components, Bits, IntSubType),
    Compressed(Compression),
    R3_G3_B2,
    R5_G6_B5,
    RGB5_A1,
    RGB10_A2,
    RGB10_A2UI,
    R11F_G11F_B10F,
    RGB9_E5,
    BGRA8,
    SRGB8,
    SRGB8_A8,
    DEPTH16,
    DEPTH24,
    DEPTH32F,
    DEPTH24_STENCIL8,
    DEPTH32F_STENCIL8,
}

impl Format {
    /// The formats whose colors are stored gamma-encoded.
    pub open spec fn converts_gamma(self) -> bool {
        self == Format::SRGB8 || self == Format::SRGB8_A8 || self == Format::Compressed(
            Compression::ETC2_SRGB,
        )
    }

    /// Whether the device has to convert between the stored colors and linear
    /// ones.
    pub fn does_convert_gamma(&self) -> (b: bool)
        ensures
            b == self.converts_gamma(),
    {
        match *self {
            Format::SRGB8 => true,
            Format::SRGB8_A8 => true,
            Format::Compressed(Compression::ETC2_SRGB) => true,
            _ => false,
        }
    }
}

/// Face of a cube texture.
#[derive(Clone, Copy, Debug, PartialEq, Eq, Hash, Structural)]
pub enum CubeFace {
    PosZ,
    NegZ,
    PosX,
    NegX,
    PosY,
    NegY,
}

/// Shape of a texture.
#[derive(Clone, Copy, Debug, PartialEq, Eq, Hash, Structural)]
pub enum TextureKind {
    D1,
    D1Array,
    D2,
    D2Array,
    D2MultiSample(AaMode),
    D2MultiSampleArray(AaMode),
    Cube(CubeFace),
    D3,
}

/// Storage of a surface.
#[derive(Clone, Copy, Debug, PartialEq, Eq, Hash, Structural)]
pub struct SurfaceInfo {
    pub width: Size,
    pub height: Size,
    /// Number of mipmap levels.
    pub levels: u8,
    pub format: Format,
    pub aa_mode: Option<AaMode>,
}

/// Storage of a texture.
#[derive(Clone, Copy, Debug, PartialEq, Eq, Hash, Structural)]
pub struct TextureInfo {
    pub width: Size,
    pub height: Size,
    pub depth: Size,
    /// Number of mipmap levels.
    pub levels: u8,
    pub kind: TextureKind,
    pub format: Format,
}

/// Part of a texture that image data is loaded into.
#[derive(Clone, Copy, Debug, PartialEq, Eq, Hash, Structural)]
pub struct ImageInfo {
    pub xoffset: Size,
    pub yoffset: Size,
    pub zoffset: Size,
    pub width: Size,
    pub height: Size,
    pub depth: Size,
    pub format: Format,
    /// Mipmap level.
    pub mipmap: u8,
}

/// How texels are filtered when a texture is sampled.
#[derive(Clone, Copy, Debug, PartialEq, Eq, Hash, Structural)]
pub enum FilterMethod {
    Scale,
    Mipmap,
    Bilinear,
    Trilinear,
    Anisotropic(u8),
}

/// What sampling outside of the texture gives.
#[derive(Clone, Copy, Debug, PartialEq, Eq, Hash, Structural)]
pub enum WrapMode {
    Tile,
    Mirror,
    Clamp,
}

/// Comparison of a sampled depth with a reference.
#[derive(Clone, Copy, Debug, PartialEq, Eq, Hash, Structural)]
pub enum Comparison {
    Never,
    Less,
    LessEqual,
    Equal,
    GreaterEqual,
    Greater,
    NotEqual,
    Always,
}

/// How a texture is sampled. The level-of-detail numbers are kept as the bit
/// patterns of their single-precision values.
#[derive(Clone, Copy, Debug, PartialEq, Eq, Hash)]
pub struct SamplerInfo {
    pub filtering: FilterMethod,
    /// Wrapping along the three axes.
    pub wrap_mode: (WrapMode, WrapMode, WrapMode),
    pub lod_bias_bits: u32,
    pub lod_range_bits: (u32, u32),
    pub comparison: Option<Comparison>,
}

/// Why a surface was not created.
#[derive(Clone, Copy, Debug, PartialEq, Eq, Structural)]
pub enum SurfaceError {
    /// The device has no counterpart of the format.
    UnsupportedFormat,
    /// The format is gamma-encoded and the device has no such formats.
    UnsupportedGamma,
    /// A dimension or the number of levels is zero.
    InvalidInfo(SurfaceInfo),
}

/// Why a texture was not created or updated.
#[derive(Clone, Copy, Debug, PartialEq, Eq, Structural)]
pub enum TextureError {
    /// The device has no counterpart of the format.
    UnsupportedFormat,
    /// The format is gamma-encoded and the device has no such formats.
    UnsupportedGamma,
    /// The device has no counterpart of the multisampled kind.
    UnsupportedSampling,
    /// A dimension or the number of levels is zero.
    InvalidInfo(TextureInfo),
    /// The data does not have the size of the part it is loaded into, which
    /// is the size given here.
    IncorrectSize(usize),
}

} // verus!
