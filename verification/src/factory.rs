//! The resource factory.
//!
//! The factory decides; it makes no native call. An operation gives the calls
//! to make on the device as values, in order. Where it needs what the device
//! answered, it comes in two parts: the one whose name ends in `_request`
//! checks what can be checked beforehand and gives the call, and the other
//! takes the answer and gives the result. Its caller stands between the
//! factory and the device.

use vstd::prelude::*;
use vstd::slice::slice_to_vec;
use crate::caps::Capabilities;
use crate::handle::Counts;
use crate::handle::FrameBuffer;
use crate::handle::Handle;
use crate::handle::Held;
use crate::handle::Manager;
use crate::handle::Plain;
use crate::handle::RawBuffer;
use crate::handle::TypedBuffer;
use crate::handle::destruction;
use crate::handle::nothing;
use crate::handle::swept;
use crate::info::BufferInfo;
use crate::info::BufferRole;
use crate::info::BufferUpdateError;
use crate::info::BufferUsage;
use crate::info::ImageInfo;
use crate::info::MapAccess;
use crate::info::NotSupported;
use crate::info::SamplerInfo;
use crate::info::Size;
use crate::info::SurfaceError;
use crate::info::SurfaceInfo;
use crate::info::TextureError;
use crate::info::TextureInfo;
use crate::info::TextureKind;
use crate::native::Buffer;
use crate::native::Call;
use crate::native::Enumerant;
use crate::native::Mask;
use crate::native::Name;
use crate::native::NativeCall;
use crate::native::ResourceKind;
use crate::native::access_mode;
use crate::native::all_planes;
use crate::native::buffer_target;
use crate::native::full_mask;
use crate::native::hint_of;
use crate::native::map_target;
use crate::native::mapping_target;
use crate::native::mode_of;
use crate::native::script;
use crate::native::target_of;
use crate::native::texts;
use crate::native::usage_hint;
use crate::shade::CreateProgramError;
use crate::shade::CreateShaderError;
use crate::shade::LogEntry;
use crate::shade::ProgramInfo;
use crate::shade::Stage;
use crate::shade::diagnose;
use crate::shade::diagnosis;
use crate::shade::entry_of;
use crate::shade::text_of;
use crate::table::Entry;
use crate::table::acquired;
use crate::table::recorded;
use crate::table::released;

verus! {

/// The calls that load `data` into a buffer, from byte `offset` on.
pub open spec fn sub_update(buffer: Buffer, data: Seq<u8>, offset: usize, role: BufferRole) -> Seq<
    Call,
> {
    seq![
        Call::BindBuffer { target: target_of(role), buffer },
        Call::BufferSubData { target: target_of(role), offset, data },
    ]
}

/// The calls that reserve a buffer's storage.
pub open spec fn reservation(buffer: Buffer, info: BufferInfo) -> Seq<Call> {
    seq![
        Call::BindBuffer { target: target_of(info.role), buffer },
        Call::BufferData { target: target_of(info.role), size: info.size, usage: hint_of(info.usage) },
    ]
}

/// The calls that map a buffer.
pub open spec fn mapping_calls(buffer: Buffer, access: MapAccess) -> Seq<Call> {
    seq![
        Call::BindBuffer { target: mapping_target(), buffer },
        Call::MapBuffer { target: mapping_target(), access: mode_of(access) },
    ]
}

/// Binds the buffer at the target of its role and loads `data` into it, from
/// byte `offset` on.
pub fn update_sub_buffer(buffer: Buffer, data: &[u8], offset: usize, role: BufferRole) -> (calls:
    Vec<NativeCall>)
    ensures
        script(calls@) == sub_update(buffer, data@, offset, role),
{
    let target = buffer_target(role);
    let bytes = slice_to_vec(data);
    let mut calls: Vec<NativeCall> = Vec::new();
    calls.push(NativeCall::BindBuffer { target, buffer });
    calls.push(NativeCall::BufferSubData { target, offset, data: bytes });
    assert(script(calls@) =~= sub_update(buffer, data@, offset, role));
    calls
}

/// A buffer's storage as the device mapped it. It is good from the call that
/// mapped it to the one that unmaps it, and for nothing after that.
#[derive(Clone, Copy, Debug, PartialEq, Eq, Structural)]
pub struct RawMapping {
    /// Address of the first byte.
    pub pointer: usize,
    /// The bind target that the buffer was mapped at.
    pub target: Enumerant,
}

/// A mapped buffer as elements of one size.
#[derive(Clone, Copy, Debug, PartialEq, Eq, Structural)]
pub struct Mapping {
    pub raw: RawMapping,
    /// Number of elements.
    pub len: usize,
    pub access: MapAccess,
}

impl Mapping {
    /// Whether element `index` may be read through the mapping.
    pub fn readable(&self, index: usize) -> (yes: bool)
        ensures
            yes == (index < self.len && self.access != MapAccess::Writable),
    {
        index < self.len && match self.access {
            MapAccess::Writable => false,
            _ => true,
        }
    }

    /// Whether element `index` may be written through the mapping.
    pub fn writable(&self, index: usize) -> (yes: bool)
        ensures
            yes == (index < self.len && self.access != MapAccess::Readable),
    {
        index < self.len && match self.access {
            MapAccess::Readable => false,
            _ => true,
        }
    }
}

/// A placeholder for a real output, as a window would give it: the default
/// frame buffer at a given size.
#[derive(Debug)]
pub struct Output {
    width: Size,
    height: Size,
    handle: FrameBuffer,
}

impl Output {
    pub closed spec fn spec_handle(&self) -> FrameBuffer {
        self.handle
    }

    pub closed spec fn spec_size(&self) -> (Size, Size) {
        (self.width, self.height)
    }

    /// The frame buffer that the output draws to.
    pub fn get_handle(&self) -> (handle: Option<&FrameBuffer>)
        ensures
            handle == Some(&self.spec_handle()),
    {
        Some(&self.handle)
    }

    /// Width and height.
    #[verifier::when_used_as_spec(spec_size)]
    pub fn get_size(&self) -> (size: (Size, Size))
        ensures
            size == self.spec_size(),
    {
        (self.width, self.height)
    }

    /// The planes of the output: color, depth and stencil.
    pub fn get_mask(&self) -> (mask: Mask)
        ensures
            mask == all_planes(),
    {
        full_mask()
    }
}

/// What a factory holds.
pub struct State {
    pub caps: Capabilities,
    /// The factory's own handle to the default frame buffer.
    pub main: Held<Plain>,
    /// The counts of the objects that live until their last handle is gone.
    pub counts: Counts,
    /// The names looked up since the last cleanup.
    pub resolved: Counts,
    /// The mapping that is in use, if any.
    pub mapping: Option<RawMapping>,
}

/// The state with one more handle of an object.
pub open spec fn registered(s: State, kind: ResourceKind, name: Name) -> State {
    State { counts: s.counts.insert(kind, acquired(s.counts[kind], name)), ..s }
}

/// The state with one handle of an object less.
pub open spec fn unregistered(s: State, kind: ResourceKind, name: Name) -> State {
    State { counts: s.counts.insert(kind, released(s.counts[kind], name)), ..s }
}

/// The state after an object's name was looked up.
pub open spec fn looked_up(s: State, kind: ResourceKind, name: Name) -> State {
    State { resolved: s.resolved.insert(kind, recorded(s.resolved[kind], name)), ..s }
}

/// The state after the names of all of `handles` were looked up, in order.
pub open spec fn all_looked_up<I>(s: State, handles: Seq<Handle<I>>) -> State
    decreases handles.len(),
{
    if handles.len() == 0 {
        s
    } else {
        looked_up(
            all_looked_up(s, handles.drop_last()),
            handles.last()@.kind,
            handles.last()@.name,
        )
    }
}

/// The names of `handles`, in order.
pub open spec fn names_of<I>(handles: Seq<Handle<I>>) -> Seq<Name> {
    Seq::new(handles.len(), |i: int| handles[i]@.name)
}

/// That `made` is a handle that stands for `held`.
pub open spec fn gives<I, E>(made: Result<Handle<I>, E>, held: Held<I>) -> bool {
    match made {
        Ok(handle) => handle@ == held,
        Err(_) => false,
    }
}

/// That `made` is the error `error`.
pub open spec fn fails<I, E>(made: Result<Handle<I>, E>, error: E) -> bool {
    match made {
        Ok(_) => false,
        Err(e) => e == error,
    }
}

/// Why a surface of this description is not made on a device of these
/// capabilities, if it is not: a dimension or the number of levels is zero,
/// or else the format is gamma-encoded and the device has no such formats.
pub open spec fn surface_refusal(caps: Capabilities, info: SurfaceInfo) -> Option<SurfaceError> {
    if info.width == 0 || info.height == 0 || info.levels == 0 {
        Some(SurfaceError::InvalidInfo(info))
    } else if info.format.converts_gamma() && !caps.srgb_color_supported {
        Some(SurfaceError::UnsupportedGamma)
    } else {
        None
    }
}

/// Why a texture of this description is not made on a device of these
/// capabilities, if it is not: a dimension or the number of levels is zero,
/// or else the format is gamma-encoded and the device has no such formats.
pub open spec fn texture_refusal(caps: Capabilities, info: TextureInfo) -> Option<TextureError> {
    if info.width == 0 || info.height == 0 || info.levels == 0 {
        Some(TextureError::InvalidInfo(info))
    } else if info.format.converts_gamma() && !caps.srgb_color_supported {
        Some(TextureError::UnsupportedGamma)
    } else {
        None
    }
}

/// The call that makes a texture: with fixed storage where the device has
/// it, and with storage that can be replaced where it has not.
pub open spec fn texture_call(caps: Capabilities, info: TextureInfo) -> Call {
    if caps.immutable_storage_supported {
        Call::MakeTextureWithStorage { info }
    } else {
        Call::MakeTextureWithoutStorage { info }
    }
}

/// The name of a sampler: that of the object that the device made, and zero
/// where the device has no sampler objects or made none.
pub open spec fn sampler_name(caps: Capabilities, made: Option<Name>) -> Name {
    match made {
        Some(name) => if caps.sampler_objects_supported {
            name
        } else {
            0
        },
        None => 0,
    }
}

/// The kind that a texture is updated as: the one given for the update, or
/// else the one that it was created with.
pub open spec fn update_kind(info: TextureInfo, given: Option<TextureKind>) -> TextureKind {
    match given {
        Some(kind) => kind,
        None => info.kind,
    }
}

/// GL resource factory.
pub struct Factory {
    caps: Capabilities,
    main_fbo: FrameBuffer,
    handles: Manager,
    frame_handles: Manager,
    mapped: Option<RawMapping>,
}

impl View for Factory {
    type V = State;

    closed spec fn view(&self) -> State {
        State {
            caps: self.caps,
            main: self.main_fbo@,
            counts: self.handles@,
            resolved: self.frame_handles@,
            mapping: self.mapped,
        }
    }
}

/// The default frame buffer as a factory holds it.
pub open spec fn main_frame_buffer() -> Held<Plain> {
    Held { kind: ResourceKind::FrameBuffer, name: 0, info: Plain }
}

/// The state of a new factory: it holds the one handle of the default frame
/// buffer, whose name is zero.
pub open spec fn initial(caps: Capabilities) -> State {
    State {
        caps,
        main: main_frame_buffer(),
        counts: nothing().insert(ResourceKind::FrameBuffer, seq![Entry { name: 0, refs: 1 }]),
        resolved: nothing(),
        mapping: None,
    }
}

/// Create a new `Factory`.
pub fn create(caps: Capabilities) -> (factory: Factory)
    ensures
        factory@ == initial(caps),
{
    let mut handles = Manager::new();
    let main_fbo = handles.make_frame_buffer(0);
    assert(acquired(nothing()[ResourceKind::FrameBuffer], 0) =~= seq![Entry { name: 0, refs: 1 }]);
    Factory { caps, main_fbo, handles, frame_handles: Manager::new(), mapped: None }
}

impl Factory {
    pub fn get_capabilities(&self) -> (caps: &Capabilities)
        ensures
            *caps == self@.caps,
    {
        &self.caps
    }

    /// The number of handles that the factory counts for an object.
    pub fn refs(&self, kind: ResourceKind, name: Name) -> (n: usize)
        ensures
            n == crate::table::refs_of(self@.counts[kind], name),
    {
        self.handles.refs(kind, name)
    }

    /// Whether the factory has an entry for an object: one that it made and
    /// has not destroyed yet.
    pub fn tracks(&self, kind: ResourceKind, name: Name) -> (found: bool)
        ensures
            found == crate::table::tracks(self@.counts[kind], name),
    {
        self.handles.contains(kind, name)
    }

    /// Whether an object's name was looked up since the last cleanup.
    pub fn resolved(&self, kind: ResourceKind, name: Name) -> (found: bool)
        ensures
            found == crate::table::tracks(self@.resolved[kind], name),
    {
        self.frame_handles.contains(kind, name)
    }

    /// The calls that bind a buffer at the target of its role and reserve its
    /// storage, with the hint of its usage and no contents.
    pub fn init_buffer(&self, buffer: Buffer, info: &BufferInfo) -> (calls: Vec<NativeCall>)
        ensures
            script(calls@) == reservation(buffer, *info),
    {
        let target = buffer_target(info.role);
        let usage = usage_hint(info.usage);
        let mut calls: Vec<NativeCall> = Vec::new();
        calls.push(NativeCall::BindBuffer { target, buffer });
        calls.push(NativeCall::BufferData { target, size: info.size, usage });
        assert(script(calls@) =~= reservation(buffer, *info));
        calls
    }

    /// One more handle to the default frame buffer.
    pub fn get_main_frame_buffer(&mut self) -> (handle: FrameBuffer)
        ensures
            handle@ == old(self)@.main,
            final(self)@ == registered(old(self)@, old(self)@.main.kind, old(self)@.main.name),
    {
        self.handles.clone_handle(&self.main_fbo)
    }

    /// An output of the given size on the default frame buffer, which gets
    /// one more handle.
    pub fn make_fake_output(&mut self, w: Size, h: Size) -> (output: Output)
        ensures
            output.get_size() == (w, h),
            output.spec_handle()@ == old(self)@.main,
            final(self)@ == registered(old(self)@, old(self)@.main.kind, old(self)@.main.name),
    {
        Output { width: w, height: h, handle: self.handles.clone_handle(&self.main_fbo) }
    }

    /// The call that generates the name of a buffer.
    pub fn buffer_request(&self) -> (call: NativeCall)
        ensures
            call@ == Call::GenBuffer,
    {
        NativeCall::GenBuffer
    }

    /// Takes the name that the device generated for a buffer of `size` bytes
    /// of vertex data, and gives the buffer's handle and the calls that
    /// reserve its storage.
    pub fn create_buffer_raw(&mut self, name: Buffer, size: usize, usage: BufferUsage) -> (made: (
        RawBuffer,
        Vec<NativeCall>,
    ))
        ensures
            made.0@ == (Held {
                kind: ResourceKind::Buffer,
                name,
                info: BufferInfo { role: BufferRole::Vertex, usage, size },
            }),
            script(made.1@) == reservation(name, made.0@.info),
            final(self)@ == registered(old(self)@, ResourceKind::Buffer, name),
    {
        let info = BufferInfo { role: BufferRole::Vertex, usage, size };
        let calls = self.init_buffer(name, &info);
        (self.handles.make_buffer(name, info), calls)
    }

    /// Takes the name that the device generated for a buffer that holds
    /// `data` for good, and gives the buffer's handle and the calls that
    /// reserve its storage and load `data` into it. The buffer is as large
    /// as `data`.
    pub fn create_buffer_static_raw(&mut self, name: Buffer, data: &[u8], role: BufferRole) -> (made:
        (RawBuffer, Vec<NativeCall>))
        ensures
            made.0@ == (Held {
                kind: ResourceKind::Buffer,
                name,
                info: BufferInfo { role, usage: BufferUsage::Static, size: data@.len() as usize },
            }),
            script(made.1@) == reservation(name, made.0@.info) + sub_update(name, data@, 0, role),
            final(self)@ == registered(old(self)@, ResourceKind::Buffer, name),
    {
        let info = BufferInfo { role, usage: BufferUsage::Static, size: data.len() };
        let mut calls = self.init_buffer(name, &info);
        let mut upload = update_sub_buffer(name, data, 0, role);
        let ghost first = calls@;
        let ghost second = upload@;
        calls.append(&mut upload);
        assert(script(calls@) =~= script(first) + script(second));
        (self.handles.make_buffer(name, info), calls)
    }

    /// The call that generates the name of a vertex array object. A device
    /// without such objects is not called.
    pub fn array_buffer_request(&self) -> (call: Result<NativeCall, NotSupported>)
        ensures
            self@.caps.array_buffer_supported ==> call is Ok && call->Ok_0@ == Call::GenVertexArray,
            !self@.caps.array_buffer_supported ==> call is Err,
    {
        if self.caps.array_buffer_supported {
            Ok(NativeCall::GenVertexArray)
        } else {
            Err(NotSupported)
        }
    }

    /// Takes the name that the device generated for a vertex array object.
    /// On a device without such objects there is none, and nothing is made.
    pub fn create_array_buffer(&mut self, name: Name) -> (made: Result<
        crate::handle::ArrayBuffer,
        NotSupported,
    >)
        ensures
            old(self)@.caps.array_buffer_supported ==> gives(
                made,
                Held { kind: ResourceKind::ArrayBuffer, name, info: Plain },
            ) && final(self)@ == registered(old(self)@, ResourceKind::ArrayBuffer, name),
            !old(self)@.caps.array_buffer_supported ==> made is Err && final(self)@ == old(self)@,
    {
        if self.caps.array_buffer_supported {
            Ok(self.handles.make_array_buffer(name))
        } else {
            Err(NotSupported)
        }
    }

    /// The call that compiles `code` for `stage`.
    pub fn shader_request(&self, stage: Stage, code: &[u8]) -> (call: NativeCall)
        ensures
            call@ == (Call::CompileShader { stage, code: code@ }),
    {
        NativeCall::CompileShader { stage, code: slice_to_vec(code) }
    }

    /// Takes what the compiler answered: the shader's name or an error, and
    /// its log. Gives the shader's handle or that error, and what goes to
    /// the log.
    pub fn create_shader(
        &mut self,
        stage: Stage,
        compiled: Result<Name, CreateShaderError>,
        log: Option<String>,
    ) -> (made: (Result<crate::handle::Shader, CreateShaderError>, Option<LogEntry>))
        ensures
            entry_of(made.1) == diagnosis(compiled is Err, text_of(log)),
            match compiled {
                Ok(name) => gives(made.0, Held { kind: ResourceKind::Shader, name, info: stage })
                    && final(self)@ == registered(old(self)@, ResourceKind::Shader, name),
                Err(error) => fails(made.0, error) && final(self)@ == old(self)@,
            },
    {
        let entry = diagnose(compiled.is_err(), log);
        match compiled {
            Ok(name) => (Ok(self.handles.make_shader(name, stage)), entry),
            Err(error) => (Err(error), entry),
        }
    }

    /// Looks up the names of the shaders and gives the call that links them.
    pub fn program_request(
        &mut self,
        shaders: &[crate::handle::Shader],
        targets: Option<Vec<String>>,
    ) -> (call: NativeCall)
        ensures
            call@ == (Call::LinkProgram { shaders: names_of(shaders@), targets: texts(targets) }),
            final(self)@ == all_looked_up(old(self)@, shaders@),
    {
        let mut objects: Vec<Name> = Vec::new();
        let mut i: usize = 0;
        proof {
            assert(shaders@.take(0) =~= Seq::<crate::handle::Shader>::empty());
            assert(objects@ =~= names_of(shaders@.take(0)));
        }
        while i < shaders.len()
            invariant
                i <= shaders.len(),
                objects@ == names_of(shaders@.take(i as int)),
                self@ == all_looked_up(old(self)@, shaders@.take(i as int)),
            decreases shaders.len() - i,
        {
            let name = self.frame_handles.ref_handle(&shaders[i]);
            objects.push(name);
            proof {
                let next = shaders@.take(i + 1);
                assert(next.drop_last() =~= shaders@.take(i as int));
                assert(next.last() == shaders@[i as int]);
                assert(objects@ =~= names_of(next));
            }
            i += 1;
        }
        proof {
            assert(shaders@.take(i as int) =~= shaders@);
        }
        NativeCall::LinkProgram { shaders: objects, targets }
    }

    /// Takes what the linker answered: the program's name and what was found
    /// in it, or an error, and its log. Gives the program's handle or that
    /// error, and what goes to the log.
    pub fn create_program(
        &mut self,
        linked: Result<(Name, ProgramInfo), CreateProgramError>,
        log: Option<String>,
    ) -> (made: (Result<crate::handle::Program, CreateProgramError>, Option<LogEntry>))
        ensures
            entry_of(made.1) == diagnosis(linked is Err, text_of(log)),
            match linked {
                Ok(found) => made.0 is Ok && made.0->Ok_0@.kind == ResourceKind::Program
                    && made.0->Ok_0@.name == found.0 && *made.0->Ok_0@.info == found.1
                    && final(self)@ == registered(old(self)@, ResourceKind::Program, found.0),
                Err(error) => fails(made.0, error) && final(self)@ == old(self)@,
            },
    {
        let entry = diagnose(linked.is_err(), log);
        match linked {
            Ok(found) => (Ok(self.handles.make_program(found.0, found.1)), entry),
            Err(error) => (Err(error), entry),
        }
    }

    /// The call that generates the name of a frame buffer, and none on a
    /// device without render targets: there no frame buffer can be made, and
    /// nothing can stand in for one.
    pub fn frame_buffer_request(&self) -> (call: Option<NativeCall>)
        ensures
            self@.caps.render_targets_supported ==> call is Some && call->Some_0@
                == Call::GenFrameBuffer,
            !self@.caps.render_targets_supported ==> call is None,
    {
        if self.caps.render_targets_supported {
            Some(NativeCall::GenFrameBuffer)
        } else {
            None
        }
    }

    /// Takes the name that the device generated for a frame buffer. The
    /// device must have render targets: `frame_buffer_request` tells.
    pub fn create_frame_buffer(&mut self, name: Name) -> (handle: FrameBuffer)
        requires
            old(self)@.caps.render_targets_supported,
        ensures
            handle@ == (Held { kind: ResourceKind::FrameBuffer, name, info: Plain }),
            final(self)@ == registered(old(self)@, ResourceKind::FrameBuffer, name),
    {
        self.handles.make_frame_buffer(name)
    }

    /// The call that makes a surface, or why none is made.
    pub fn surface_request(&self, info: &SurfaceInfo) -> (call: Result<NativeCall, SurfaceError>)
        ensures
            match surface_refusal(self@.caps, *info) {
                Some(error) => call == Err::<NativeCall, SurfaceError>(error),
                None => call is Ok && call->Ok_0@ == (Call::MakeSurface { info: *info }),
            },
    {
        if info.width == 0 || info.height == 0 || info.levels == 0 {
            Err(SurfaceError::InvalidInfo(*info))
        } else if info.format.does_convert_gamma() && !self.caps.srgb_color_supported {
            Err(SurfaceError::UnsupportedGamma)
        } else {
            Ok(NativeCall::MakeSurface { info: *info })
        }
    }

    /// Takes what the device answered when asked for a surface: its name or
    /// an error. Gives the surface's handle or that error. A description
    /// that is refused gives its own error whatever the device answered.
    pub fn create_surface(&mut self, info: SurfaceInfo, made: Result<Name, SurfaceError>) -> (surface:
        Result<crate::handle::Surface, SurfaceError>)
        ensures
            match surface_refusal(old(self)@.caps, info) {
                Some(error) => fails(surface, error) && final(self)@ == old(self)@,
                None => match made {
                    Ok(name) => gives(surface, Held { kind: ResourceKind::Surface, name, info })
                        && final(self)@ == registered(old(self)@, ResourceKind::Surface, name),
                    Err(error) => fails(surface, error) && final(self)@ == old(self)@,
                },
            },
    {
        if info.width == 0 || info.height == 0 || info.levels == 0 {
            Err(SurfaceError::InvalidInfo(info))
        } else if info.format.does_convert_gamma() && !self.caps.srgb_color_supported {
            Err(SurfaceError::UnsupportedGamma)
        } else {
            match made {
                Ok(name) => Ok(self.handles.make_surface(name, info)),
                Err(error) => Err(error),
            }
        }
    }

    /// The call that makes a texture, or why none is made.
    pub fn texture_request(&self, info: &TextureInfo) -> (call: Result<NativeCall, TextureError>)
        ensures
            match texture_refusal(self@.caps, *info) {
                Some(error) => call == Err::<NativeCall, TextureError>(error),
                None => call is Ok && call->Ok_0@ == texture_call(self@.caps, *info),
            },
    {
        if info.width == 0 || info.height == 0 || info.levels == 0 {
            Err(TextureError::InvalidInfo(*info))
        } else if info.format.does_convert_gamma() && !self.caps.srgb_color_supported {
            Err(TextureError::UnsupportedGamma)
        } else if self.caps.immutable_storage_supported {
            Ok(NativeCall::MakeTextureWithStorage { info: *info })
        } else {
            Ok(NativeCall::MakeTextureWithoutStorage { info: *info })
        }
    }

    /// Takes what the device answered when asked for a texture: its name or
    /// an error. Gives the texture's handle or that error. A description
    /// that is refused gives its own error whatever the device answered.
    pub fn create_texture(&mut self, info: TextureInfo, made: Result<Name, TextureError>) -> (texture:
        Result<crate::handle::Texture, TextureError>)
        ensures
            match texture_refusal(old(self)@.caps, info) {
                Some(error) => fails(texture, error) && final(self)@ == old(self)@,
                None => match made {
                    Ok(name) => gives(texture, Held { kind: ResourceKind::Texture, name, info })
                        && final(self)@ == registered(old(self)@, ResourceKind::Texture, name),
                    Err(error) => fails(texture, error) && final(self)@ == old(self)@,
                },
            },
    {
        if info.width == 0 || info.height == 0 || info.levels == 0 {
            Err(TextureError::InvalidInfo(info))
        } else if info.format.does_convert_gamma() && !self.caps.srgb_color_supported {
            Err(TextureError::UnsupportedGamma)
        } else {
            match made {
                Ok(name) => Ok(self.handles.make_texture(name, info)),
                Err(error) => Err(error),
            }
        }
    }

    /// The call that makes a sampler object, and none on a device without
    /// such objects.
    pub fn sampler_request(&self, info: &SamplerInfo) -> (call: Option<NativeCall>)
        ensures
            self@.caps.sampler_objects_supported ==> call is Some && call->Some_0@ == (
            Call::MakeSampler { info: *info }),
            !self@.caps.sampler_objects_supported ==> call is None,
    {
        if self.caps.sampler_objects_supported {
            Some(NativeCall::MakeSampler { info: *info })
        } else {
            None
        }
    }

    /// Takes the name of the sampler object that the device made, if it made
    /// one, and gives the sampler's handle. Without sampler objects the
    /// handle names no object: whoever samples with it sets the texture's
    /// own state from the handle's record.
    pub fn create_sampler(&mut self, info: SamplerInfo, made: Option<Name>) -> (handle:
        crate::handle::Sampler)
        ensures
            handle@ == (Held {
                kind: ResourceKind::Sampler,
                name: sampler_name(old(self)@.caps, made),
                info,
            }),
            final(self)@ == registered(
                old(self)@,
                ResourceKind::Sampler,
                sampler_name(old(self)@.caps, made),
            ),
    {
        let name = match made {
            Some(name) => if self.caps.sampler_objects_supported {
                name
            } else {
                0
            },
            None => 0,
        };
        self.handles.make_sampler(name, info)
    }

    /// Whether `len` bytes from byte `offset` on lie inside the buffer.
    pub fn update_fits(buffer: &RawBuffer, len: usize, offset: usize) -> (fits: bool)
        ensures
            fits == (offset + len <= buffer@.info.size),
    {
        let size = buffer.get_info().size;
        offset <= size && len <= size - offset
    }

    /// Looks up the buffer's name and gives the calls that load `data` into
    /// it, from byte `offset_bytes` on. The bytes must lie inside the buffer.
    pub fn update_buffer_raw(&mut self, buffer: &RawBuffer, data: &[u8], offset_bytes: usize) -> (calls:
        Vec<NativeCall>)
        requires
            offset_bytes + data@.len() <= buffer@.info.size,
        ensures
            script(calls@) == sub_update(buffer@.name, data@, offset_bytes, buffer@.info.role),
            final(self)@ == looked_up(old(self)@, buffer@.kind, buffer@.name),
    {
        let raw_handle = self.frame_handles.ref_handle(buffer);
        update_sub_buffer(raw_handle, data, offset_bytes, buffer.get_info().role)
    }

    /// As `update_buffer_raw`, for bytes that may not lie inside the buffer:
    /// then nothing is looked up and no call is given.
    pub fn try_update_buffer_raw(&mut self, buffer: &RawBuffer, data: &[u8], offset_bytes: usize) -> (calls:
        Result<Vec<NativeCall>, BufferUpdateError>)
        ensures
            offset_bytes + data@.len() <= buffer@.info.size ==> calls is Ok && script(calls->Ok_0@)
                == sub_update(buffer@.name, data@, offset_bytes, buffer@.info.role)
                && final(self)@ == looked_up(old(self)@, buffer@.kind, buffer@.name),
            offset_bytes + data@.len() > buffer@.info.size ==> calls is Err
                && final(self)@ == old(self)@,
    {
        if Self::update_fits(buffer, data.len(), offset_bytes) {
            Ok(self.update_buffer_raw(buffer, data, offset_bytes))
        } else {
            Err(BufferUpdateError::OutOfBounds)
        }
    }

    /// Looks up the texture's name and gives the call that loads `data` into
    /// the part `img` of it. What the device answers is the result of the
    /// update.
    pub fn update_texture_raw(
        &mut self,
        texture: &crate::handle::Texture,
        img: &ImageInfo,
        data: &[u8],
        optkind: Option<TextureKind>,
    ) -> (call: NativeCall)
        ensures
            call@ == (Call::UpdateTexture {
                kind: update_kind(texture@.info, optkind),
                texture: texture@.name,
                image: *img,
                data: data@,
            }),
            final(self)@ == looked_up(old(self)@, texture@.kind, texture@.name),
    {
        let kind = match optkind {
            Some(kind) => kind,
            None => texture.get_info().kind,
        };
        let name = self.frame_handles.ref_handle(texture);
        NativeCall::UpdateTexture { kind, texture: name, image: *img, data: slice_to_vec(data) }
    }

    /// Looks up the texture's name and gives the call that generates its
    /// mipmaps.
    pub fn generate_mipmap(&mut self, texture: &crate::handle::Texture) -> (call: NativeCall)
        ensures
            call@ == (Call::GenerateMipmap { kind: texture@.info.kind, texture: texture@.name }),
            final(self)@ == looked_up(old(self)@, texture@.kind, texture@.name),
    {
        let name = self.frame_handles.ref_handle(texture);
        NativeCall::GenerateMipmap { kind: texture.get_info().kind, texture: name }
    }

    /// Looks up the buffer's name and gives the calls that map it.
    pub fn mapping_request(&mut self, buf: &RawBuffer, access: MapAccess) -> (calls: Vec<NativeCall>)
        ensures
            script(calls@) == mapping_calls(buf@.name, access),
            final(self)@ == looked_up(old(self)@, buf@.kind, buf@.name),
    {
        let raw_handle = self.frame_handles.ref_handle(buf);
        let target = map_target();
        let mut calls: Vec<NativeCall> = Vec::new();
        calls.push(NativeCall::BindBuffer { target, buffer: raw_handle });
        calls.push(NativeCall::MapBuffer { target, access: access_mode(access) });
        assert(script(calls@) =~= mapping_calls(buf@.name, access));
        calls
    }

    /// Takes the address that the device mapped a buffer at, and gives the
    /// mapping. It is the one in use from now on.
    pub fn map_buffer_raw(&mut self, pointer: usize) -> (map: RawMapping)
        ensures
            map.pointer == pointer,
            map.target == mapping_target(),
            final(self)@ == (State { mapping: Some(map), ..old(self)@ }),
    {
        let map = RawMapping { pointer, target: map_target() };
        self.mapped = Some(map);
        map
    }

    /// Whether `map` is the mapping in use.
    pub fn is_mapped(&self, map: &RawMapping) -> (yes: bool)
        ensures
            yes == (self@.mapping == Some(*map)),
    {
        match self.mapped {
            Some(current) => current.pointer == map.pointer && current.target == map.target,
            None => false,
        }
    }

    /// Gives the call that unmaps the buffer of `map`, which is in use no
    /// more. A mapping that is not in use cannot be unmapped.
    pub fn unmap_buffer_raw(&mut self, map: RawMapping) -> (call: NativeCall)
        requires
            old(self)@.mapping == Some(map),
        ensures
            call@ == (Call::UnmapBuffer { target: map.target }),
            final(self)@ == (State { mapping: None, ..old(self)@ }),
    {
        self.mapped = None;
        NativeCall::UnmapBuffer { target: map.target }
    }

    /// Takes the address that the device mapped `buf` at for reading. The
    /// elements of `buf` must have a size.
    pub fn map_buffer_readable(&mut self, buf: &TypedBuffer, pointer: usize) -> (map: Mapping)
        requires
            buf.stride() > 0,
        ensures
            map.raw.pointer == pointer,
            map.raw.target == mapping_target(),
            map.len == buf.len(),
            map.access == MapAccess::Readable,
            final(self)@ == (State { mapping: Some(map.raw), ..old(self)@ }),
    {
        Mapping { raw: self.map_buffer_raw(pointer), len: buf.len(), access: MapAccess::Readable }
    }

    /// Takes the address that the device mapped `buf` at for writing. The
    /// elements of `buf` must have a size.
    pub fn map_buffer_writable(&mut self, buf: &TypedBuffer, pointer: usize) -> (map: Mapping)
        requires
            buf.stride() > 0,
        ensures
            map.raw.pointer == pointer,
            map.raw.target == mapping_target(),
            map.len == buf.len(),
            map.access == MapAccess::Writable,
            final(self)@ == (State { mapping: Some(map.raw), ..old(self)@ }),
    {
        Mapping { raw: self.map_buffer_raw(pointer), len: buf.len(), access: MapAccess::Writable }
    }

    /// Takes the address that the device mapped `buf` at for reading and
    /// writing. The elements of `buf` must have a size.
    pub fn map_buffer_rw(&mut self, buf: &TypedBuffer, pointer: usize) -> (map: Mapping)
        requires
            buf.stride() > 0,
        ensures
            map.raw.pointer == pointer,
            map.raw.target == mapping_target(),
            map.len == buf.len(),
            map.access == MapAccess::RW,
            final(self)@ == (State { mapping: Some(map.raw), ..old(self)@ }),
    {
        Mapping { raw: self.map_buffer_raw(pointer), len: buf.len(), access: MapAccess::RW }
    }

    /// Gives a second handle to the object of `handle`.
    pub fn clone_handle<I: Copy>(&mut self, handle: &Handle<I>) -> (copy: Handle<I>)
        ensures
            copy@ == handle@,
            final(self)@ == registered(old(self)@, handle@.kind, handle@.name),
    {
        self.handles.clone_handle(handle)
    }

    /// Gives a second handle to the program of `handle`.
    pub fn clone_program(&mut self, handle: &crate::handle::Program) -> (copy:
        crate::handle::Program)
        ensures
            copy@ == handle@,
            final(self)@ == registered(old(self)@, handle@.kind, handle@.name),
    {
        self.handles.clone_program(handle)
    }

    /// Takes a handle back. Its object is not destroyed here, also where this
    /// was its last handle: that is left to `cleanup`.
    pub fn drop_handle<I>(&mut self, handle: Handle<I>)
        ensures
            final(self)@ == unregistered(old(self)@, handle@.kind, handle@.name),
    {
        self.handles.drop_handle(handle)
    }

    /// Ends a frame: gives the calls that destroy every object whose last
    /// handle is gone, and forgets which names were looked up.
    pub fn cleanup(&mut self) -> (calls: Vec<NativeCall>)
        ensures
            script(calls@) == destruction(old(self)@.counts),
            final(self)@ == (State {
                counts: swept(old(self)@.counts),
                resolved: nothing(),
                ..old(self)@
            }),
    {
        let calls = self.handles.clean_with();
        self.frame_handles.clear();
        calls
    }
}

} // verus!
