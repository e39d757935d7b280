use gfx_device_gl::caps::{Capabilities, ShaderModel};
use gfx_device_gl::factory::{create, update_sub_buffer, Factory};
use gfx_device_gl::handle::TypedBuffer;
use gfx_device_gl::info::{BufferInfo, BufferRole, BufferUpdateError, BufferUsage, MapAccess};
use gfx_device_gl::native::{NativeCall, ResourceKind};

fn buffer_caps() -> Capabilities {
    Capabilities {
        shader_model: ShaderModel::Version41,
        max_vertex_count: 1 << 20,
        max_index_count: 1 << 20,
        max_draw_buffers: 4,
        max_texture_size: 4096,
        max_vertex_attributes: 16,
        buffer_role_change_allowed: true,
        array_buffer_supported: true,
        fragment_output_supported: true,
        immutable_storage_supported: true,
        instance_base_supported: true,
        instance_call_supported: true,
        instance_rate_supported: true,
        render_targets_supported: true,
        sampler_objects_supported: true,
        srgb_color_supported: true,
        uniform_block_supported: true,
        vertex_base_supported: true,
    }
}

/// Storage of buffers as a device keeps it, for the calls that the factory
/// gives on buffers.
struct BufferMemory {
    bound: Vec<(u32, u32)>,
    stores: Vec<(u32, Vec<u8>)>,
    mapped: Option<u32>,
}

impl BufferMemory {
    fn new() -> BufferMemory {
        BufferMemory { bound: Vec::new(), stores: Vec::new(), mapped: None }
    }

    fn bound_at(&self, target: u32) -> u32 {
        self.bound.iter().rev().find(|b| b.0 == target).map(|b| b.1).unwrap()
    }

    fn store(&mut self, name: u32) -> &mut Vec<u8> {
        if !self.stores.iter().any(|s| s.0 == name) {
            self.stores.push((name, Vec::new()));
        }
        &mut self.stores.iter_mut().find(|s| s.0 == name).unwrap().1
    }

    fn run(&mut self, calls: &[NativeCall]) {
        for call in calls {
            match call {
                NativeCall::BindBuffer { target, buffer } => self.bound.push((*target, *buffer)),
                NativeCall::BufferData { target, size, .. } => {
                    let name = self.bound_at(*target);
                    *self.store(name) = vec![0; *size];
                }
                NativeCall::BufferSubData { target, offset, data } => {
                    let name = self.bound_at(*target);
                    let store = self.store(name);
                    assert!(offset + data.len() <= store.len());
                    store[*offset..*offset + data.len()].copy_from_slice(data);
                }
                NativeCall::MapBuffer { target, .. } => {
                    self.mapped = Some(self.bound_at(*target));
                }
                NativeCall::UnmapBuffer { .. } => self.mapped = None,
                _ => panic!("not a call on a buffer"),
            }
        }
    }

    fn read(&mut self, len: usize) -> Vec<u8> {
        let name = self.mapped.unwrap();
        self.store(name)[..len].to_vec()
    }
}

#[test]
fn update_sub_buffer_binds_then_loads() {
    let calls = update_sub_buffer(5, &[1, 2, 3], 8, BufferRole::Index);
    assert_eq!(
        calls,
        vec![
            NativeCall::BindBuffer { target: 0x8893, buffer: 5 },
            NativeCall::BufferSubData { target: 0x8893, offset: 8, data: vec![1, 2, 3] },
        ]
    );
    let calls = update_sub_buffer(6, &[], 0, BufferRole::Vertex);
    assert_eq!(
        calls,
        vec![
            NativeCall::BindBuffer { target: 0x8892, buffer: 6 },
            NativeCall::BufferSubData { target: 0x8892, offset: 0, data: vec![] },
        ]
    );
}

#[test]
fn init_buffer_binds_then_reserves() {
    let factory = create(buffer_caps());
    let info = BufferInfo { role: BufferRole::Index, usage: BufferUsage::Dynamic, size: 48 };
    assert_eq!(
        factory.init_buffer(9, &info),
        vec![
            NativeCall::BindBuffer { target: 0x8893, buffer: 9 },
            NativeCall::BufferData { target: 0x8893, size: 48, usage: 0x88E8 },
        ]
    );
    let info = BufferInfo { role: BufferRole::Vertex, usage: BufferUsage::Stream, size: 0 };
    assert_eq!(
        factory.init_buffer(1, &info),
        vec![
            NativeCall::BindBuffer { target: 0x8892, buffer: 1 },
            NativeCall::BufferData { target: 0x8892, size: 0, usage: 0x88E0 },
        ]
    );
}

#[test]
fn raw_buffer_is_a_vertex_buffer() {
    let mut factory = create(buffer_caps());
    assert_eq!(factory.buffer_request(), NativeCall::GenBuffer);
    let (handle, calls) = factory.create_buffer_raw(3, 128, BufferUsage::Dynamic);
    assert_eq!(handle.name(), 3);
    assert_eq!(handle.kind(), ResourceKind::Buffer);
    assert_eq!(
        *handle.get_info(),
        BufferInfo { role: BufferRole::Vertex, usage: BufferUsage::Dynamic, size: 128 }
    );
    assert_eq!(
        calls,
        vec![
            NativeCall::BindBuffer { target: 0x8892, buffer: 3 },
            NativeCall::BufferData { target: 0x8892, size: 128, usage: 0x88E8 },
        ]
    );
    assert_eq!(factory.refs(ResourceKind::Buffer, 3), 1);
    assert!(!factory.resolved(ResourceKind::Buffer, 3));
}

#[test]
fn static_vertex_buffer_of_64_bytes_holds_its_data() {
    let data: Vec<u8> = (0..64).map(|i| (i * 3 + 1) as u8).collect();
    let mut factory = create(buffer_caps());
    let (handle, calls) = factory.create_buffer_static_raw(11, &data, BufferRole::Vertex);
    assert_eq!(handle.get_info().role, BufferRole::Vertex);
    assert_eq!(handle.get_info().usage, BufferUsage::Static);
    assert_eq!(handle.get_info().size, 64);
    assert_eq!(
        calls,
        vec![
            NativeCall::BindBuffer { target: 0x8892, buffer: 11 },
            NativeCall::BufferData { target: 0x8892, size: 64, usage: 0x88E4 },
            NativeCall::BindBuffer { target: 0x8892, buffer: 11 },
            NativeCall::BufferSubData { target: 0x8892, offset: 0, data: data.clone() },
        ]
    );
    let mut memory = BufferMemory::new();
    memory.run(&calls);
    memory.run(&factory.mapping_request(&handle, MapAccess::Readable));
    assert_eq!(memory.read(64), data);
}

#[test]
fn static_index_buffer_is_as_large_as_its_data() {
    let mut factory = create(buffer_caps());
    let (handle, calls) = factory.create_buffer_static_raw(2, &[9, 8, 7, 6, 5, 4], BufferRole::Index);
    assert_eq!(
        *handle.get_info(),
        BufferInfo { role: BufferRole::Index, usage: BufferUsage::Static, size: 6 }
    );
    assert_eq!(calls.len(), 4);
    assert_eq!(calls[1], NativeCall::BufferData { target: 0x8893, size: 6, usage: 0x88E4 });
    assert_eq!(
        calls[3],
        NativeCall::BufferSubData { target: 0x8893, offset: 0, data: vec![9, 8, 7, 6, 5, 4] }
    );
}

#[test]
fn bytes_written_at_offset_zero_are_read_back() {
    let mut factory = create(buffer_caps());
    let mut memory = BufferMemory::new();
    let (handle, calls) = factory.create_buffer_raw(4, 16, BufferUsage::Stream);
    memory.run(&calls);
    let bytes = [10u8, 20, 30, 40, 50];
    memory.run(&factory.update_buffer_raw(&handle, &bytes, 0));
    memory.run(&factory.mapping_request(&handle, MapAccess::Readable));
    assert_eq!(memory.read(5), bytes.to_vec());
    assert!(factory.resolved(ResourceKind::Buffer, 4));
    assert_eq!(factory.refs(ResourceKind::Buffer, 4), 1);
}

#[test]
fn update_uses_the_target_of_the_buffers_role() {
    let mut factory = create(buffer_caps());
    let (handle, _) = factory.create_buffer_static_raw(8, &[0; 32], BufferRole::Index);
    assert_eq!(
        factory.update_buffer_raw(&handle, &[1, 2], 30),
        vec![
            NativeCall::BindBuffer { target: 0x8893, buffer: 8 },
            NativeCall::BufferSubData { target: 0x8893, offset: 30, data: vec![1, 2] },
        ]
    );
}

#[test]
fn update_past_the_end_is_detected() {
    let mut factory = create(buffer_caps());
    let (handle, _) = factory.create_buffer_raw(4, 16, BufferUsage::Static);
    assert!(Factory::update_fits(&handle, 16, 0));
    assert!(Factory::update_fits(&handle, 0, 16));
    assert!(Factory::update_fits(&handle, 6, 10));
    assert!(!Factory::update_fits(&handle, 17, 0));
    assert!(!Factory::update_fits(&handle, 7, 10));
    assert!(!Factory::update_fits(&handle, 1, 16));
    assert!(!Factory::update_fits(&handle, 2, usize::MAX));
    assert!(!Factory::update_fits(&handle, usize::MAX, 2));
    assert_eq!(
        factory.try_update_buffer_raw(&handle, &[0; 7], 10),
        Err(BufferUpdateError::OutOfBounds)
    );
    assert!(!factory.resolved(ResourceKind::Buffer, 4));
    assert_eq!(
        factory.try_update_buffer_raw(&handle, &[5; 6], 10),
        Ok(vec![
            NativeCall::BindBuffer { target: 0x8892, buffer: 4 },
            NativeCall::BufferSubData { target: 0x8892, offset: 10, data: vec![5; 6] },
        ])
    );
    assert!(factory.resolved(ResourceKind::Buffer, 4));
}

#[test]
fn mapping_binds_at_the_vertex_target_whatever_the_role() {
    let mut factory = create(buffer_caps());
    let (handle, _) = factory.create_buffer_static_raw(12, &[1, 2, 3, 4], BufferRole::Index);
    assert_eq!(
        factory.mapping_request(&handle, MapAccess::Writable),
        vec![
            NativeCall::BindBuffer { target: 0x8892, buffer: 12 },
            NativeCall::MapBuffer { target: 0x8892, access: 0x88B9 },
        ]
    );
    assert_eq!(
        factory.mapping_request(&handle, MapAccess::RW),
        vec![
            NativeCall::BindBuffer { target: 0x8892, buffer: 12 },
            NativeCall::MapBuffer { target: 0x8892, access: 0x88BA },
        ]
    );
    assert_eq!(
        factory.mapping_request(&handle, MapAccess::Readable)[1],
        NativeCall::MapBuffer { target: 0x8892, access: 0x88B8 }
    );
}

#[test]
fn a_mapping_is_in_use_until_it_is_unmapped() {
    let mut factory = create(buffer_caps());
    let map = factory.map_buffer_raw(0x1000);
    assert_eq!(map.pointer, 0x1000);
    assert_eq!(map.target, 0x8892);
    assert!(factory.is_mapped(&map));
    let other = factory.map_buffer_raw(0x2000);
    assert!(factory.is_mapped(&other));
    assert!(!factory.is_mapped(&map));
    assert_eq!(factory.unmap_buffer_raw(other), NativeCall::UnmapBuffer { target: 0x8892 });
    assert!(!factory.is_mapped(&other));
}

#[test]
fn typed_mappings_count_whole_elements() {
    let mut factory = create(buffer_caps());
    let (handle, _) = factory.create_buffer_raw(1, 26, BufferUsage::Dynamic);
    let buffer = TypedBuffer::from_raw(handle, 8);
    assert_eq!(buffer.len(), 3);
    assert_eq!(buffer.stride(), 8);
    assert_eq!(buffer.raw().name(), 1);
    assert_eq!(buffer.get_info().size, 26);

    let map = factory.map_buffer_readable(&buffer, 64);
    assert_eq!((map.raw.pointer, map.len, map.access), (64, 3, MapAccess::Readable));
    assert!(factory.is_mapped(&map.raw));
    assert!(map.readable(0) && map.readable(2) && !map.readable(3));
    assert!(!map.writable(0));

    let map = factory.map_buffer_writable(&buffer, 72);
    assert_eq!((map.raw.pointer, map.len, map.access), (72, 3, MapAccess::Writable));
    assert!(map.writable(2) && !map.writable(3) && !map.readable(0));

    let map = factory.map_buffer_rw(&buffer, 80);
    assert_eq!((map.raw.pointer, map.len, map.access), (80, 3, MapAccess::RW));
    assert!(map.writable(1) && map.readable(1) && !map.readable(3) && !map.writable(7));
}
