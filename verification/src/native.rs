//! The native interface as the factory sees it: object names, enumerants, and
//! the calls that the factory asks its caller to make on the device.

use vstd::prelude::*;
use crate::info::BufferRole;
use crate::info::BufferUsage;
use crate::info::ImageInfo;
use crate::info::MapAccess;
use crate::info::SamplerInfo;
use crate::info::SurfaceInfo;
use crate::info::TextureInfo;
use crate::info::TextureKind;
use crate::shade::Stage;

verus! {

/// Name of a native object. Zero names no object of its own: it stands for
/// the default one, or for none.
pub type Name = u32;

pub type Buffer = Name;

pub type ArrayBuffer = Name;

pub type Shader = Name;

pub type Program = Name;

pub type FrameBuffer = Name;

pub type Surface = Name;

pub type Texture = Name;

pub type Sampler = Name;

/// Enumerant of the native interface.
pub type Enumerant = u32;

/// The kinds of native objects that the factory creates.
#[derive(Clone, Copy, Debug, PartialEq, Eq, Hash, Structural)]
pub enum ResourceKind {
    Buffer,
    ArrayBuffer,
    Shader,
    Program,
    FrameBuffer,
    Surface,
    Texture,
    Sampler,
}

/// `gfx_gl::ARRAY_BUFFER`, the bind target of vertex data: 0x8892 in the
/// registry that the bindings are generated from.
#[verifier::external_body]
fn gl_array_buffer() -> (e: Enumerant)
    ensures
        e == 0x8892u32,
{
    gfx_gl::ARRAY_BUFFER
}

/// `gfx_gl::ELEMENT_ARRAY_BUFFER`, the bind target of index data: 0x8893 in
/// the registry.
#[verifier::external_body]
fn gl_element_array_buffer() -> (e: Enumerant)
    ensures
        e == 0x8893u32,
{
    gfx_gl::ELEMENT_ARRAY_BUFFER
}

/// `gfx_gl::STATIC_DRAW`: 0x88E4 in the registry.
#[verifier::external_body]
fn gl_static_draw() -> (e: Enumerant)
    ensures
        e == 0x88E4u32,
{
    gfx_gl::STATIC_DRAW
}

/// `gfx_gl::DYNAMIC_DRAW`: 0x88E8 in the registry.
#[verifier::external_body]
fn gl_dynamic_draw() -> (e: Enumerant)
    ensures
        e == 0x88E8u32,
{
    gfx_gl::DYNAMIC_DRAW
}

/// `gfx_gl::STREAM_DRAW`: 0x88E0 in the registry.
#[verifier::external_body]
fn gl_stream_draw() -> (e: Enumerant)
    ensures
        e == 0x88E0u32,
{
    gfx_gl::STREAM_DRAW
}

/// `gfx_gl::READ_ONLY`: 0x88B8 in the registry.
#[verifier::external_body]
fn gl_read_only() -> (e: Enumerant)
    ensures
        e == 0x88B8u32,
{
    gfx_gl::READ_ONLY
}

/// `gfx_gl::WRITE_ONLY`: 0x88B9 in the registry.
#[verifier::external_body]
fn gl_write_only() -> (e: Enumerant)
    ensures
        e == 0x88B9u32,
{
    gfx_gl::WRITE_ONLY
}

/// `gfx_gl::READ_WRITE`: 0x88BA in the registry.
#[verifier::external_body]
fn gl_read_write() -> (e: Enumerant)
    ensures
        e == 0x88BAu32,
{
    gfx_gl::READ_WRITE
}

/// Bind target of a buffer of the given role.
pub open spec fn target_of(role: BufferRole) -> Enumerant {
    match role {
        BufferRole::Vertex => 0x8892,
        BufferRole::Index => 0x8893,
    }
}

/// Usage hint of the native interface for a usage.
pub open spec fn hint_of(usage: BufferUsage) -> Enumerant {
    match usage {
        BufferUsage::Static => 0x88E4,
        BufferUsage::Dynamic => 0x88E8,
        BufferUsage::Stream => 0x88E0,
    }
}

/// Access mode of the native interface for an access.
pub open spec fn mode_of(access: MapAccess) -> Enumerant {
    match access {
        MapAccess::Readable => 0x88B8,
        MapAccess::Writable => 0x88B9,
        MapAccess::RW => 0x88BA,
    }
}

/// The bind target that buffers are mapped at, whatever their role.
pub open spec fn mapping_target() -> Enumerant {
    0x8892
}

pub fn buffer_target(role: BufferRole) -> (target: Enumerant)
    ensures
        target == target_of(role),
{
    match role {
        BufferRole::Vertex => gl_array_buffer(),
        BufferRole::Index => gl_element_array_buffer(),
    }
}

pub fn usage_hint(usage: BufferUsage) -> (hint: Enumerant)
    ensures
        hint == hint_of(usage),
{
    match usage {
        BufferUsage::Static => gl_static_draw(),
        BufferUsage::Dynamic => gl_dynamic_draw(),
        BufferUsage::Stream => gl_stream_draw(),
    }
}

pub fn access_mode(access: MapAccess) -> (mode: Enumerant)
    ensures
        mode == mode_of(access),
{
    match access {
        MapAccess::Readable => gl_read_only(),
        MapAccess::Writable => gl_write_only(),
        MapAccess::RW => gl_read_write(),
    }
}

pub fn map_target() -> (target: Enumerant)
    ensures
        target == mapping_target(),
{
    gl_array_buffer()
}

/// `gfx::COLOR`, the color planes of an output: bit 0x01.
#[verifier::external_body]
fn color_plane() -> (bits: u8)
    ensures
        bits == 0x01u8,
{
    gfx::COLOR.bits()
}

/// `gfx::DEPTH`, the depth plane of an output: bit 0x40.
#[verifier::external_body]
fn depth_plane() -> (bits: u8)
    ensures
        bits == 0x40u8,
{
    gfx::DEPTH.bits()
}

/// `gfx::STENCIL`, the stencil plane of an output: bit 0x80.
#[verifier::external_body]
fn stencil_plane() -> (bits: u8)
    ensures
        bits == 0x80u8,
{
    gfx::STENCIL.bits()
}

/// Planes of an output, one bit each.
#[derive(Clone, Copy, Debug, PartialEq, Eq, Structural)]
pub struct Mask {
    pub bits: u8,
}

/// Color, depth and stencil.
pub open spec fn all_planes() -> Mask {
    Mask { bits: 0xC1 }
}

pub fn full_mask() -> (mask: Mask)
    ensures
        mask == all_planes(),
{
    let color = color_plane();
    let depth = depth_plane();
    let stencil = stencil_plane();
    assert(color | depth | stencil == 0xC1u8) by (bit_vector)
        requires
            color == 0x01u8,
            depth == 0x40u8,
            stencil == 0x80u8,
    ;
    Mask { bits: color | depth | stencil }
}

/// A call on the device or on one of the services around it. The factory
/// makes none itself: it hands these to its caller, who makes them in order
/// and, where a call has a result, hands the result back.
#[allow(inconsistent_fields)]
#[derive(Clone, Debug, PartialEq, Eq)]
pub enum NativeCall {
    /// Generate a buffer name. Gives the name.
    GenBuffer,
    /// Generate a vertex array name. Gives the name.
    GenVertexArray,
    /// Generate a frame buffer name. Gives the name.
    GenFrameBuffer,
    BindBuffer { target: Enumerant, buffer: Buffer },
    /// Reserve `size` bytes for the buffer bound at `target`, with no
    /// contents.
    BufferData { target: Enumerant, size: usize, usage: Enumerant },
    /// Load `data` into the buffer bound at `target`, from byte `offset` on.
    BufferSubData { target: Enumerant, offset: usize, data: Vec<u8> },
    /// Map the buffer bound at `target`. Gives the address.
    MapBuffer { target: Enumerant, access: Enumerant },
    UnmapBuffer { target: Enumerant },
    /// Compile `code` for `stage`. Gives the shader's name or an error, and
    /// the compiler's log if there is one.
    CompileShader { stage: Stage, code: Vec<u8> },
    /// Link the shaders, with the named outputs if any are given. Gives the
    /// program's name and what was found in it, or an error, and the
    /// linker's log if there is one.
    LinkProgram { shaders: Vec<Shader>, targets: Option<Vec<String>> },
    /// Make a render buffer. Gives its name or an error.
    MakeSurface { info: SurfaceInfo },
    /// Make a texture whose storage is fixed. Gives its name or an error.
    MakeTextureWithStorage { info: TextureInfo },
    /// Make a texture whose storage can be replaced. Gives its name or an
    /// error.
    MakeTextureWithoutStorage { info: TextureInfo },
    /// Make a sampler object. Gives its name.
    MakeSampler { info: SamplerInfo },
    /// Load `data` into the part `image` of the texture. May give an error.
    UpdateTexture { kind: TextureKind, texture: Texture, image: ImageInfo, data: Vec<u8> },
    GenerateMipmap { kind: TextureKind, texture: Texture },
    /// Delete the named objects of one kind.
    Delete { kind: ResourceKind, names: Vec<Name> },
}

/// A native call as contracts speak of it: with sequences in place of
/// vectors and texts.
#[allow(inconsistent_fields)]
pub enum Call {
    GenBuffer,
    GenVertexArray,
    GenFrameBuffer,
    BindBuffer { target: Enumerant, buffer: Buffer },
    BufferData { target: Enumerant, size: usize, usage: Enumerant },
    BufferSubData { target: Enumerant, offset: usize, data: Seq<u8> },
    MapBuffer { target: Enumerant, access: Enumerant },
    UnmapBuffer { target: Enumerant },
    CompileShader { stage: Stage, code: Seq<u8> },
    LinkProgram { shaders: Seq<Shader>, targets: Option<Seq<Seq<char>>> },
    MakeSurface { info: SurfaceInfo },
    MakeTextureWithStorage { info: TextureInfo },
    MakeTextureWithoutStorage { info: TextureInfo },
    MakeSampler { info: SamplerInfo },
    UpdateTexture { kind: TextureKind, texture: Texture, image: ImageInfo, data: Seq<u8> },
    GenerateMipmap { kind: TextureKind, texture: Texture },
    Delete { kind: ResourceKind, names: Seq<Name> },
}

/// The characters of each of a list of texts.
pub open spec fn texts(list: Option<Vec<String>>) -> Option<Seq<Seq<char>>> {
    match list {
        Some(v) => Some(v@.map_values(|s: String| s@)),
        None => None,
    }
}

impl View for NativeCall {
    type V = Call;

    open spec fn view(&self) -> Call {
        match *self {
            NativeCall::GenBuffer => Call::GenBuffer,
            NativeCall::GenVertexArray => Call::GenVertexArray,
            NativeCall::GenFrameBuffer => Call::GenFrameBuffer,
            NativeCall::BindBuffer { target, buffer } => Call::BindBuffer { target, buffer },
            NativeCall::BufferData { target, size, usage } => Call::BufferData {
                target,
                size,
                usage,
            },
            NativeCall::BufferSubData { target, offset, data } => Call::BufferSubData {
                target,
                offset,
                data: data@,
            },
            NativeCall::MapBuffer { target, access } => Call::MapBuffer { target, access },
            NativeCall::UnmapBuffer { target } => Call::UnmapBuffer { target },
            NativeCall::CompileShader { stage, code } => Call::CompileShader { stage, code: code@ },
            NativeCall::LinkProgram { shaders, targets } => Call::LinkProgram {
                shaders: shaders@,
                targets: texts(targets),
            },
            NativeCall::MakeSurface { info } => Call::MakeSurface { info },
            NativeCall::MakeTextureWithStorage { info } => Call::MakeTextureWithStorage { info },
            NativeCall::MakeTextureWithoutStorage { info } => Call::MakeTextureWithoutStorage {
                info,
            },
            NativeCall::MakeSampler { info } => Call::MakeSampler { info },
            NativeCall::UpdateTexture { kind, texture, image, data } => Call::UpdateTexture {
                kind,
                texture,
                image,
                data: data@,
            },
            NativeCall::GenerateMipmap { kind, texture } => Call::GenerateMipmap { kind, texture },
            NativeCall::Delete { kind, names } => Call::Delete { kind, names: names@ },
        }
    }
}

/// A list of native calls as contracts speak of it, in order.
pub open spec fn script(calls: Seq<NativeCall>) -> Seq<Call> {
    calls.map_values(|c: NativeCall| c@)
}

} // verus!
