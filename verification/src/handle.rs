//! Handles to device resources, and the manager that counts them.
//!
//! A handle is a token for one reference to a native object, with the record
//! that the object was created with. The manager counts the handles of each
//! object. Nothing is destroyed when a count reaches zero: the object stays
//! until the manager is next cleaned, and that is the only time its
//! destruction is asked for.

use vstd::prelude::*;
use std::rc::Rc;
use crate::info::BufferInfo;
use crate::info::SamplerInfo;
use crate::info::SurfaceInfo;
use crate::info::TextureInfo;
use crate::native::Call;
use crate::native::Name;
use crate::native::NativeCall;
use crate::native::ResourceKind;
use crate::native::script;
use crate::shade::ProgramInfo;
use crate::shade::Stage;
use crate::table::Entry;
use crate::table::Table;
use crate::table::acquired;
use crate::table::dead;
use crate::table::live;
use crate::table::recorded;
use crate::table::refs_of;
use crate::table::released;
use crate::table::tracks;

verus! {

/// What a handle stands for.
pub struct Held<I> {
    pub kind: ResourceKind,
    pub name: Name,
    pub info: I,
}

/// One reference to a native object. A handle is made by a manager, copied
/// by [`Manager::clone_handle`] and given up by [`Manager::drop_handle`]; the
/// record in it never changes.
#[derive(Debug)]
pub struct Handle<I> {
    kind: ResourceKind,
    name: Name,
    info: I,
}

/// The record of an object that has nothing to record.
#[derive(Clone, Copy, Debug, PartialEq, Eq, Structural)]
pub struct Plain;

pub type RawBuffer = Handle<BufferInfo>;

pub type ArrayBuffer = Handle<Plain>;

pub type Shader = Handle<Stage>;

pub type Program = Handle<Rc<ProgramInfo>>;

pub type FrameBuffer = Handle<Plain>;

pub type Surface = Handle<SurfaceInfo>;

pub type Texture = Handle<TextureInfo>;

pub type Sampler = Handle<SamplerInfo>;

impl<I> View for Handle<I> {
    type V = Held<I>;

    closed spec fn view(&self) -> Held<I> {
        Held { kind: self.kind, name: self.name, info: self.info }
    }
}

impl<I> Handle<I> {
    pub fn kind(&self) -> (kind: ResourceKind)
        ensures
            kind == self@.kind,
    {
        self.kind
    }

    /// The native name. Using it does not count as a reference.
    pub fn name(&self) -> (name: Name)
        ensures
            name == self@.name,
    {
        self.name
    }

    pub fn get_info(&self) -> (info: &I)
        ensures
            *info == self@.info,
    {
        &self.info
    }
}

/// A buffer whose contents are elements of one size.
#[derive(Debug)]
pub struct TypedBuffer {
    raw: RawBuffer,
    stride: usize,
}

impl TypedBuffer {
    pub closed spec fn spec_raw(&self) -> &RawBuffer {
        &self.raw
    }

    pub closed spec fn spec_stride(&self) -> usize {
        self.stride
    }

    /// The number of whole elements that fit into the buffer.
    pub open spec fn spec_len(&self) -> usize {
        (self.raw()@.info.size as int / self.stride() as int) as usize
    }

    /// Takes a buffer as one of elements of `stride` bytes.
    pub fn from_raw(raw: RawBuffer, stride: usize) -> (buffer: TypedBuffer)
        ensures
            *buffer.raw() == raw,
            buffer.stride() == stride,
    {
        TypedBuffer { raw, stride }
    }

    #[verifier::when_used_as_spec(spec_raw)]
    pub fn raw(&self) -> (raw: &RawBuffer)
        ensures
            raw == self.spec_raw(),
    {
        &self.raw
    }

    /// Size of an element, in bytes.
    #[verifier::when_used_as_spec(spec_stride)]
    pub fn stride(&self) -> (stride: usize)
        ensures
            stride == self.spec_stride(),
    {
        self.stride
    }

    pub fn get_info(&self) -> (info: &BufferInfo)
        ensures
            *info == self.raw()@.info,
    {
        self.raw.get_info()
    }

    /// The number of elements. Elements without a size cannot be counted.
    #[verifier::when_used_as_spec(spec_len)]
    pub fn len(&self) -> (n: usize)
        requires
            self.stride() > 0,
        ensures
            n == self.spec_len(),
    {
        self.raw.get_info().size / self.stride
    }
}

/// `Rc::clone`: another pointer to the same record.
#[verifier::external_body]
fn share(info: &Rc<ProgramInfo>) -> (shared: Rc<ProgramInfo>)
    ensures
        shared == *info,
{
    Rc::clone(info)
}

/// The counts of a manager: the entries of each kind.
pub type Counts = Map<ResourceKind, Seq<Entry>>;

/// No entry of any kind.
pub open spec fn nothing() -> Counts {
    Map::new(|k: ResourceKind| true, |k: ResourceKind| Seq::<Entry>::empty())
}

/// What is left of each kind once the objects without a handle are gone.
pub open spec fn swept(m: Counts) -> Counts {
    Map::new(|k: ResourceKind| true, |k: ResourceKind| live(m[k]))
}

/// One call that deletes all of `names`, and none where there are none.
pub open spec fn batch(kind: ResourceKind, names: Seq<Name>) -> Seq<Call> {
    if names.len() == 0 {
        Seq::<Call>::empty()
    } else {
        seq![Call::Delete { kind, names }]
    }
}

/// One call for each of `names`, in order.
pub open spec fn singly(kind: ResourceKind, names: Seq<Name>) -> Seq<Call> {
    Seq::new(names.len(), |i: int| Call::Delete { kind, names: seq![names[i]] })
}

/// The calls that delete `names`. Shaders and programs are deleted one by
/// one; of the other kinds the native interface takes many names at once.
pub open spec fn deletions(kind: ResourceKind, names: Seq<Name>) -> Seq<Call> {
    if kind == ResourceKind::Shader || kind == ResourceKind::Program {
        singly(kind, names)
    } else {
        batch(kind, names)
    }
}

/// The calls that destroy every object without a handle, kind by kind.
pub open spec fn destruction(m: Counts) -> Seq<Call> {
    deletions(ResourceKind::Buffer, dead(m[ResourceKind::Buffer])) + deletions(
        ResourceKind::ArrayBuffer,
        dead(m[ResourceKind::ArrayBuffer]),
    ) + deletions(ResourceKind::Shader, dead(m[ResourceKind::Shader])) + deletions(
        ResourceKind::Program,
        dead(m[ResourceKind::Program]),
    ) + deletions(ResourceKind::FrameBuffer, dead(m[ResourceKind::FrameBuffer])) + deletions(
        ResourceKind::Surface,
        dead(m[ResourceKind::Surface]),
    ) + deletions(ResourceKind::Texture, dead(m[ResourceKind::Texture])) + deletions(
        ResourceKind::Sampler,
        dead(m[ResourceKind::Sampler]),
    )
}

/// Adds to `calls` those that delete `names`.
fn push_deletions(calls: &mut Vec<NativeCall>, kind: ResourceKind, names: Vec<Name>)
    ensures
        script(final(calls)@) == script(old(calls)@) + deletions(kind, names@),
{
    match kind {
        ResourceKind::Shader | ResourceKind::Program => {
            let mut i: usize = 0;
            while i < names.len()
                invariant
                    i <= names.len(),
                    script(calls@) == script(old(calls)@) + singly(kind, names@.take(i as int)),
                decreases names.len() - i,
            {
                let mut one: Vec<Name> = Vec::new();
                one.push(names[i]);
                let ghost before = calls@;
                calls.push(NativeCall::Delete { kind, names: one });
                proof {
                    assert(one@ =~= seq![names@[i as int]]);
                    assert(script(calls@) =~= script(before).push(
                        Call::Delete { kind, names: seq![names@[i as int]] },
                    ));
                    assert(singly(kind, names@.take(i + 1)) =~= singly(
                        kind,
                        names@.take(i as int),
                    ).push(Call::Delete { kind, names: seq![names@[i as int]] }));
                }
                i += 1;
            }
            proof {
                assert(names@.take(i as int) =~= names@);
            }
        },
        _ => {
            if names.len() > 0 {
                let ghost before = calls@;
                let ghost listed = names@;
                calls.push(NativeCall::Delete { kind, names });
                proof {
                    assert(script(calls@) =~= script(before) + seq![
                        Call::Delete { kind, names: listed },
                    ]);
                }
            } else {
                proof {
                    assert(script(calls@) =~= script(calls@) + Seq::<Call>::empty());
                }
            }
        },
    }
}

/// Counts the handles of every native object that it is told of, kind by
/// kind.
pub struct Manager {
    buffers: Table,
    array_buffers: Table,
    shaders: Table,
    programs: Table,
    frame_buffers: Table,
    surfaces: Table,
    textures: Table,
    samplers: Table,
}

impl View for Manager {
    type V = Counts;

    closed spec fn view(&self) -> Counts {
        Map::new(|k: ResourceKind| true, |k: ResourceKind| self.table(k))
    }
}

impl Manager {
    closed spec fn table(&self, kind: ResourceKind) -> Seq<Entry> {
        match kind {
            ResourceKind::Buffer => self.buffers@,
            ResourceKind::ArrayBuffer => self.array_buffers@,
            ResourceKind::Shader => self.shaders@,
            ResourceKind::Program => self.programs@,
            ResourceKind::FrameBuffer => self.frame_buffers@,
            ResourceKind::Surface => self.surfaces@,
            ResourceKind::Texture => self.textures@,
            ResourceKind::Sampler => self.samplers@,
        }
    }

    pub fn new() -> (manager: Manager)
        ensures
            manager@ == nothing(),
    {
        let manager = Manager {
            buffers: Table::new(),
            array_buffers: Table::new(),
            shaders: Table::new(),
            programs: Table::new(),
            frame_buffers: Table::new(),
            surfaces: Table::new(),
            textures: Table::new(),
            samplers: Table::new(),
        };
        assert(manager@ =~= nothing());
        manager
    }

    /// The number of handles counted for an object.
    pub fn refs(&self, kind: ResourceKind, name: Name) -> (n: usize)
        ensures
            n == refs_of(self@[kind], name),
    {
        match kind {
            ResourceKind::Buffer => self.buffers.refs(name),
            ResourceKind::ArrayBuffer => self.array_buffers.refs(name),
            ResourceKind::Shader => self.shaders.refs(name),
            ResourceKind::Program => self.programs.refs(name),
            ResourceKind::FrameBuffer => self.frame_buffers.refs(name),
            ResourceKind::Surface => self.surfaces.refs(name),
            ResourceKind::Texture => self.textures.refs(name),
            ResourceKind::Sampler => self.samplers.refs(name),
        }
    }

    /// Whether the manager has an entry for an object.
    pub fn contains(&self, kind: ResourceKind, name: Name) -> (found: bool)
        ensures
            found == tracks(self@[kind], name),
    {
        match kind {
            ResourceKind::Buffer => self.buffers.contains(name),
            ResourceKind::ArrayBuffer => self.array_buffers.contains(name),
            ResourceKind::Shader => self.shaders.contains(name),
            ResourceKind::Program => self.programs.contains(name),
            ResourceKind::FrameBuffer => self.frame_buffers.contains(name),
            ResourceKind::Surface => self.surfaces.contains(name),
            ResourceKind::Texture => self.textures.contains(name),
            ResourceKind::Sampler => self.samplers.contains(name),
        }
    }

    fn acquire(&mut self, kind: ResourceKind, name: Name)
        ensures
            final(self)@ == old(self)@.insert(kind, acquired(old(self)@[kind], name)),
    {
        match kind {
            ResourceKind::Buffer => self.buffers.acquire(name),
            ResourceKind::ArrayBuffer => self.array_buffers.acquire(name),
            ResourceKind::Shader => self.shaders.acquire(name),
            ResourceKind::Program => self.programs.acquire(name),
            ResourceKind::FrameBuffer => self.frame_buffers.acquire(name),
            ResourceKind::Surface => self.surfaces.acquire(name),
            ResourceKind::Texture => self.textures.acquire(name),
            ResourceKind::Sampler => self.samplers.acquire(name),
        }
        assert(self@ =~= old(self)@.insert(kind, acquired(old(self)@[kind], name)));
    }

    fn make<I>(&mut self, kind: ResourceKind, name: Name, info: I) -> (handle: Handle<I>)
        ensures
            handle@ == (Held { kind, name, info }),
            final(self)@ == old(self)@.insert(kind, acquired(old(self)@[kind], name)),
    {
        self.acquire(kind, name);
        Handle { kind, name, info }
    }

    /// Counts the first handle of a buffer, or one more handle where the
    /// name is counted already, and gives the handle.
    pub fn make_buffer(&mut self, name: Name, info: BufferInfo) -> (handle: RawBuffer)
        ensures
            handle@ == (Held { kind: ResourceKind::Buffer, name, info }),
            final(self)@ == old(self)@.insert(
                ResourceKind::Buffer,
                acquired(old(self)@[ResourceKind::Buffer], name),
            ),
    {
        self.make(ResourceKind::Buffer, name, info)
    }

    pub fn make_array_buffer(&mut self, name: Name) -> (handle: ArrayBuffer)
        ensures
            handle@ == (Held { kind: ResourceKind::ArrayBuffer, name, info: Plain }),
            final(self)@ == old(self)@.insert(
                ResourceKind::ArrayBuffer,
                acquired(old(self)@[ResourceKind::ArrayBuffer], name),
            ),
    {
        self.make(ResourceKind::ArrayBuffer, name, Plain)
    }

    pub fn make_shader(&mut self, name: Name, stage: Stage) -> (handle: Shader)
        ensures
            handle@ == (Held { kind: ResourceKind::Shader, name, info: stage }),
            final(self)@ == old(self)@.insert(
                ResourceKind::Shader,
                acquired(old(self)@[ResourceKind::Shader], name),
            ),
    {
        self.make(ResourceKind::Shader, name, stage)
    }

    pub fn make_program(&mut self, name: Name, info: ProgramInfo) -> (handle: Program)
        ensures
            handle@.kind == ResourceKind::Program,
            handle@.name == name,
            *handle@.info == info,
            final(self)@ == old(self)@.insert(
                ResourceKind::Program,
                acquired(old(self)@[ResourceKind::Program], name),
            ),
    {
        self.make(ResourceKind::Program, name, Rc::new(info))
    }

    pub fn make_frame_buffer(&mut self, name: Name) -> (handle: FrameBuffer)
        ensures
            handle@ == (Held { kind: ResourceKind::FrameBuffer, name, info: Plain }),
            final(self)@ == old(self)@.insert(
                ResourceKind::FrameBuffer,
                acquired(old(self)@[ResourceKind::FrameBuffer], name),
            ),
    {
        self.make(ResourceKind::FrameBuffer, name, Plain)
    }

    pub fn make_surface(&mut self, name: Name, info: SurfaceInfo) -> (handle: Surface)
        ensures
            handle@ == (Held { kind: ResourceKind::Surface, name, info }),
            final(self)@ == old(self)@.insert(
                ResourceKind::Surface,
                acquired(old(self)@[ResourceKind::Surface], name),
            ),
    {
        self.make(ResourceKind::Surface, name, info)
    }

    pub fn make_texture(&mut self, name: Name, info: TextureInfo) -> (handle: Texture)
        ensures
            handle@ == (Held { kind: ResourceKind::Texture, name, info }),
            final(self)@ == old(self)@.insert(
                ResourceKind::Texture,
                acquired(old(self)@[ResourceKind::Texture], name),
            ),
    {
        self.make(ResourceKind::Texture, name, info)
    }

    pub fn make_sampler(&mut self, name: Name, info: SamplerInfo) -> (handle: Sampler)
        ensures
            handle@ == (Held { kind: ResourceKind::Sampler, name, info }),
            final(self)@ == old(self)@.insert(
                ResourceKind::Sampler,
                acquired(old(self)@[ResourceKind::Sampler], name),
            ),
    {
        self.make(ResourceKind::Sampler, name, info)
    }

    /// Gives the native name of a handle's object and notes that it was
    /// looked up. No count changes; a name without an entry gets one that
    /// no handle is counted for. A manager that is cleaned takes such an
    /// entry for an object to destroy, so it is asked only for the names of
    /// handles that it made.
    pub fn ref_handle<I>(&mut self, handle: &Handle<I>) -> (name: Name)
        ensures
            name == handle@.name,
            final(self)@ == old(self)@.insert(
                handle@.kind,
                recorded(old(self)@[handle@.kind], handle@.name),
            ),
    {
        let name = handle.name;
        match handle.kind {
            ResourceKind::Buffer => self.buffers.record(name),
            ResourceKind::ArrayBuffer => self.array_buffers.record(name),
            ResourceKind::Shader => self.shaders.record(name),
            ResourceKind::Program => self.programs.record(name),
            ResourceKind::FrameBuffer => self.frame_buffers.record(name),
            ResourceKind::Surface => self.surfaces.record(name),
            ResourceKind::Texture => self.textures.record(name),
            ResourceKind::Sampler => self.samplers.record(name),
        }
        assert(self@ =~= old(self)@.insert(
            handle@.kind,
            recorded(old(self)@[handle@.kind], handle@.name),
        ));
        name
    }

    /// Gives a second handle to the object of `handle`, and counts it.
    pub fn clone_handle<I: Copy>(&mut self, handle: &Handle<I>) -> (copy: Handle<I>)
        ensures
            copy@ == handle@,
            final(self)@ == old(self)@.insert(
                handle@.kind,
                acquired(old(self)@[handle@.kind], handle@.name),
            ),
    {
        self.make(handle.kind, handle.name, handle.info)
    }

    /// Gives a second handle to the program of `handle`, and counts it.
    pub fn clone_program(&mut self, handle: &Program) -> (copy: Program)
        ensures
            copy@ == handle@,
            final(self)@ == old(self)@.insert(
                handle@.kind,
                acquired(old(self)@[handle@.kind], handle@.name),
            ),
    {
        self.make(handle.kind, handle.name, share(&handle.info))
    }

    /// Takes a handle back: its object has one reference less.
    pub fn drop_handle<I>(&mut self, handle: Handle<I>)
        ensures
            final(self)@ == old(self)@.insert(
                handle@.kind,
                released(old(self)@[handle@.kind], handle@.name),
            ),
    {
        let name = handle.name;
        match handle.kind {
            ResourceKind::Buffer => self.buffers.release(name),
            ResourceKind::ArrayBuffer => self.array_buffers.release(name),
            ResourceKind::Shader => self.shaders.release(name),
            ResourceKind::Program => self.programs.release(name),
            ResourceKind::FrameBuffer => self.frame_buffers.release(name),
            ResourceKind::Surface => self.surfaces.release(name),
            ResourceKind::Texture => self.textures.release(name),
            ResourceKind::Sampler => self.samplers.release(name),
        }
        assert(self@ =~= old(self)@.insert(
            handle@.kind,
            released(old(self)@[handle@.kind], handle@.name),
        ));
    }

    /// Takes out every object that no handle refers to, and gives the calls
    /// that destroy them.
    pub fn clean_with(&mut self) -> (calls: Vec<NativeCall>)
        ensures
            script(calls@) == destruction(old(self)@),
            final(self)@ == swept(old(self)@),
    {
        let mut calls: Vec<NativeCall> = Vec::new();
        proof {
            assert(script(calls@) =~= Seq::<Call>::empty());
        }
        let names = self.buffers.sweep();
        push_deletions(&mut calls, ResourceKind::Buffer, names);
        let names = self.array_buffers.sweep();
        push_deletions(&mut calls, ResourceKind::ArrayBuffer, names);
        let names = self.shaders.sweep();
        push_deletions(&mut calls, ResourceKind::Shader, names);
        let names = self.programs.sweep();
        push_deletions(&mut calls, ResourceKind::Program, names);
        let names = self.frame_buffers.sweep();
        push_deletions(&mut calls, ResourceKind::FrameBuffer, names);
        let names = self.surfaces.sweep();
        push_deletions(&mut calls, ResourceKind::Surface, names);
        let names = self.textures.sweep();
        push_deletions(&mut calls, ResourceKind::Texture, names);
        let names = self.samplers.sweep();
        push_deletions(&mut calls, ResourceKind::Sampler, names);
        proof {
            assert(script(calls@) =~= destruction(old(self)@));
            assert(self@ =~= swept(old(self)@));
        }
        calls
    }

    /// Forgets every entry. Nothing is destroyed.
    pub fn clear(&mut self)
        ensures
            final(self)@ == nothing(),
    {
        self.buffers.clear();
        self.array_buffers.clear();
        self.shaders.clear();
        self.programs.clear();
        self.frame_buffers.clear();
        self.surfaces.clear();
        self.textures.clear();
        self.samplers.clear();
        assert(self@ =~= nothing());
    }
}

} // verus!
