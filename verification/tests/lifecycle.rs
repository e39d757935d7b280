use gfx_device_gl::caps::{Capabilities, ShaderModel};
use gfx_device_gl::factory::create;
use gfx_device_gl::handle::Manager;
use gfx_device_gl::info::{BufferInfo, BufferRole, BufferUsage, FilterMethod, SamplerInfo, WrapMode};
use gfx_device_gl::native::{NativeCall, ResourceKind};
use gfx_device_gl::shade::{ProgramInfo, Stage};
use gfx_device_gl::table::Table;

fn lifecycle_caps() -> Capabilities {
    Capabilities {
        shader_model: ShaderModel::Version30,
        max_vertex_count: 65536,
        max_index_count: 65536,
        max_draw_buffers: 1,
        max_texture_size: 1024,
        max_vertex_attributes: 8,
        buffer_role_change_allowed: false,
        array_buffer_supported: true,
        fragment_output_supported: false,
        immutable_storage_supported: false,
        instance_base_supported: false,
        instance_call_supported: false,
        instance_rate_supported: false,
        render_targets_supported: true,
        sampler_objects_supported: false,
        srgb_color_supported: false,
        uniform_block_supported: false,
        vertex_base_supported: false,
    }
}

fn plain_sampler() -> SamplerInfo {
    SamplerInfo {
        filtering: FilterMethod::Bilinear,
        wrap_mode: (WrapMode::Clamp, WrapMode::Clamp, WrapMode::Tile),
        lod_bias_bits: 0,
        lod_range_bits: (0xC47A_0000, 0x447A_0000),
        comparison: None,
    }
}

fn deletes(kind: ResourceKind, names: &[u32]) -> NativeCall {
    NativeCall::Delete { kind, names: names.to_vec() }
}

#[test]
fn a_new_factory_holds_the_default_frame_buffer() {
    let mut factory = create(lifecycle_caps());
    assert_eq!(factory.refs(ResourceKind::FrameBuffer, 0), 1);
    assert!(factory.tracks(ResourceKind::FrameBuffer, 0));
    assert!(!factory.tracks(ResourceKind::Buffer, 0));
    assert!(!factory.get_capabilities().srgb_color_supported);
    assert_eq!(factory.get_capabilities().max_texture_size, 1024);
    assert_eq!(factory.cleanup(), vec![]);
    assert_eq!(factory.refs(ResourceKind::FrameBuffer, 0), 1);
}

#[test]
fn the_default_frame_buffer_is_shared() {
    let mut factory = create(lifecycle_caps());
    let main = factory.get_main_frame_buffer();
    assert_eq!(main.name(), 0);
    assert_eq!(main.kind(), ResourceKind::FrameBuffer);
    assert_eq!(factory.refs(ResourceKind::FrameBuffer, 0), 2);
    factory.drop_handle(main);
    assert_eq!(factory.refs(ResourceKind::FrameBuffer, 0), 1);
    assert_eq!(factory.cleanup(), vec![]);
}

#[test]
fn a_fake_output_draws_to_the_default_frame_buffer() {
    let mut factory = create(lifecycle_caps());
    let output = factory.make_fake_output(640, 480);
    assert_eq!(output.get_size(), (640, 480));
    assert_eq!(output.get_handle().unwrap().name(), 0);
    assert_eq!(output.get_mask().bits, 0xC1);
    assert_eq!(factory.refs(ResourceKind::FrameBuffer, 0), 2);
}

#[test]
fn a_buffer_is_destroyed_once_after_its_last_handle() {
    let mut factory = create(lifecycle_caps());
    let (first, _) = factory.create_buffer_raw(21, 4, BufferUsage::Static);
    let second = factory.clone_handle(&first);
    let third = factory.clone_handle(&second);
    assert_eq!(third.name(), 21);
    assert_eq!(*third.get_info(), *first.get_info());
    assert_eq!(factory.refs(ResourceKind::Buffer, 21), 3);

    factory.drop_handle(first);
    assert_eq!(factory.cleanup(), vec![]);
    factory.drop_handle(third);
    assert_eq!(factory.refs(ResourceKind::Buffer, 21), 1);
    assert_eq!(factory.cleanup(), vec![]);
    assert!(factory.tracks(ResourceKind::Buffer, 21));

    factory.drop_handle(second);
    assert_eq!(factory.refs(ResourceKind::Buffer, 21), 0);
    assert!(factory.tracks(ResourceKind::Buffer, 21));
    assert_eq!(factory.cleanup(), vec![deletes(ResourceKind::Buffer, &[21])]);
    assert!(!factory.tracks(ResourceKind::Buffer, 21));
    assert_eq!(factory.cleanup(), vec![]);
}

#[test]
fn each_kind_is_destroyed_by_its_own_call() {
    let mut factory = create(lifecycle_caps());
    let a = factory.create_buffer_raw(1, 4, BufferUsage::Static).0;
    let b = factory.create_buffer_raw(2, 4, BufferUsage::Static).0;
    let kept = factory.create_buffer_raw(3, 4, BufferUsage::Static).0;
    let arrays = factory.create_array_buffer(4).unwrap();
    let vertex = factory.create_shader(Stage::Vertex, Ok(5), None).0.unwrap();
    let fragment = factory.create_shader(Stage::Fragment, Ok(6), None).0.unwrap();
    let info = ProgramInfo { attributes: vec![], uniforms: vec![], blocks: vec![], textures: vec![] };
    let program = factory.create_program(Ok((7, info)), None).0.unwrap();
    let second = factory.create_program(
        Ok((8, ProgramInfo { attributes: vec![], uniforms: vec![], blocks: vec![], textures: vec![] })),
        None,
    ).0.unwrap();
    let target = factory.create_frame_buffer(9);
    let sampler = factory.create_sampler(plain_sampler(), None);
    assert_eq!(sampler.name(), 0);

    factory.drop_handle(b);
    factory.drop_handle(a);
    factory.drop_handle(arrays);
    factory.drop_handle(fragment);
    factory.drop_handle(vertex);
    factory.drop_handle(program);
    factory.drop_handle(second);
    factory.drop_handle(target);
    factory.drop_handle(sampler);

    assert_eq!(
        factory.cleanup(),
        vec![
            deletes(ResourceKind::Buffer, &[1, 2]),
            deletes(ResourceKind::ArrayBuffer, &[4]),
            deletes(ResourceKind::Shader, &[5]),
            deletes(ResourceKind::Shader, &[6]),
            deletes(ResourceKind::Program, &[7]),
            deletes(ResourceKind::Program, &[8]),
            deletes(ResourceKind::FrameBuffer, &[9]),
            deletes(ResourceKind::Sampler, &[0]),
        ]
    );
    assert_eq!(factory.refs(ResourceKind::Buffer, 3), 1);
    assert_eq!(factory.refs(ResourceKind::FrameBuffer, 0), 1);
    assert_eq!(factory.cleanup(), vec![]);
    factory.drop_handle(kept);
    assert_eq!(factory.cleanup(), vec![deletes(ResourceKind::Buffer, &[3])]);
}

#[test]
fn cleanup_forgets_the_names_looked_up() {
    let mut factory = create(lifecycle_caps());
    let (handle, _) = factory.create_buffer_raw(30, 8, BufferUsage::Dynamic);
    factory.update_buffer_raw(&handle, &[1], 0);
    assert!(factory.resolved(ResourceKind::Buffer, 30));
    assert!(!factory.resolved(ResourceKind::Texture, 30));
    assert_eq!(factory.cleanup(), vec![]);
    assert!(!factory.resolved(ResourceKind::Buffer, 30));
    assert_eq!(factory.refs(ResourceKind::Buffer, 30), 1);
}

#[test]
fn handles_of_one_name_share_its_count() {
    let mut factory = create(lifecycle_caps());
    let one = factory.create_sampler(plain_sampler(), None);
    let mut other_info = plain_sampler();
    other_info.filtering = FilterMethod::Anisotropic(4);
    let two = factory.create_sampler(other_info, None);
    assert_eq!((one.name(), two.name()), (0, 0));
    assert_eq!(one.get_info().filtering, FilterMethod::Bilinear);
    assert_eq!(two.get_info().filtering, FilterMethod::Anisotropic(4));
    assert_eq!(factory.refs(ResourceKind::Sampler, 0), 2);
    factory.drop_handle(one);
    assert_eq!(factory.cleanup(), vec![]);
    factory.drop_handle(two);
    assert_eq!(factory.cleanup(), vec![deletes(ResourceKind::Sampler, &[0])]);
}

#[test]
fn a_program_handle_is_copied_with_its_record() {
    let mut factory = create(lifecycle_caps());
    let info = ProgramInfo {
        attributes: vec![gfx_device_gl::shade::Attribute {
            name: String::from("a_Pos"),
            location: 1,
            count: 1,
            base_type: gfx_device_gl::shade::BaseType::F32,
            container: gfx_device_gl::shade::ContainerType::Vector(3),
        }],
        uniforms: vec![],
        blocks: vec![],
        textures: vec![],
    };
    let program = factory.create_program(Ok((14, info.clone())), None).0.unwrap();
    let copy = factory.clone_program(&program);
    assert_eq!(copy.name(), 14);
    assert_eq!(copy.kind(), ResourceKind::Program);
    assert_eq!(**copy.get_info(), info);
    assert_eq!(**program.get_info(), info);
    assert_eq!(factory.refs(ResourceKind::Program, 14), 2);
    factory.drop_handle(program);
    assert_eq!(factory.cleanup(), vec![]);
    assert_eq!(copy.get_info().attributes[0].name, "a_Pos");
    factory.drop_handle(copy);
    assert_eq!(factory.cleanup(), vec![deletes(ResourceKind::Program, &[14])]);
}

#[test]
fn a_manager_counts_makes_copies_and_drops() {
    let mut manager = Manager::new();
    let info = BufferInfo { role: BufferRole::Vertex, usage: BufferUsage::Static, size: 1 };
    let a = manager.make_buffer(5, info);
    let b = manager.make_buffer(6, info);
    let a2 = manager.clone_handle(&a);
    assert_eq!(manager.refs(ResourceKind::Buffer, 5), 2);
    assert_eq!(manager.refs(ResourceKind::Buffer, 6), 1);
    assert_eq!(manager.refs(ResourceKind::Buffer, 7), 0);
    assert_eq!(manager.refs(ResourceKind::Texture, 5), 0);
    assert!(manager.contains(ResourceKind::Buffer, 6));
    assert!(!manager.contains(ResourceKind::Buffer, 7));
    manager.drop_handle(a);
    manager.drop_handle(b);
    assert_eq!(manager.clean_with(), vec![deletes(ResourceKind::Buffer, &[6])]);
    assert!(!manager.contains(ResourceKind::Buffer, 6));
    assert_eq!(manager.refs(ResourceKind::Buffer, 5), 1);
    manager.drop_handle(a2);
    manager.clear();
    assert!(!manager.contains(ResourceKind::Buffer, 5));
    assert_eq!(manager.clean_with(), vec![]);
}

#[test]
fn looking_a_name_up_changes_no_count() {
    let mut owner = Manager::new();
    let mut frame = Manager::new();
    let texture = owner.make_shader(40, Stage::Geometry);
    assert_eq!(*texture.get_info(), Stage::Geometry);
    assert_eq!(frame.ref_handle(&texture), 40);
    assert_eq!(frame.ref_handle(&texture), 40);
    assert!(frame.contains(ResourceKind::Shader, 40));
    assert_eq!(frame.refs(ResourceKind::Shader, 40), 0);
    assert_eq!(owner.ref_handle(&texture), 40);
    assert_eq!(owner.refs(ResourceKind::Shader, 40), 1);
    frame.clear();
    assert!(!frame.contains(ResourceKind::Shader, 40));
    assert_eq!(owner.refs(ResourceKind::Shader, 40), 1);
}

#[test]
fn a_table_keeps_one_entry_for_each_name() {
    let mut table = Table::new();
    assert_eq!(table.len(), 0);
    table.acquire(3);
    table.acquire(4);
    table.acquire(3);
    assert_eq!(table.len(), 2);
    assert_eq!(table.refs(3), 2);
    assert_eq!(table.refs(4), 1);
    table.release(4);
    table.release(4);
    table.release(9);
    assert_eq!(table.refs(4), 0);
    assert!(table.contains(4));
    assert!(!table.contains(9));
    table.record(3);
    table.record(8);
    assert_eq!(table.len(), 3);
    assert_eq!(table.refs(3), 2);
    assert_eq!(table.sweep(), vec![4, 8]);
    assert_eq!(table.len(), 1);
    assert_eq!(table.sweep(), Vec::<u32>::new());
    table.clear();
    assert_eq!(table.len(), 0);
    assert_eq!(table.refs(3), 0);
}
