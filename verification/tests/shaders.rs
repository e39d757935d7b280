use gfx_device_gl::caps::{Capabilities, ShaderModel};
use gfx_device_gl::factory::create;
use gfx_device_gl::native::{NativeCall, ResourceKind};
use gfx_device_gl::shade::{
    diagnose, BaseType, BlockVar, ContainerType, CreateProgramError, CreateShaderError, IsArray,
    IsMultiSample, IsRect, IsShadow, LogEntry, ProgramInfo, SamplerType, SamplerVar, Severity, Stage,
    UniformVar,
};

fn shader_caps() -> Capabilities {
    Capabilities {
        shader_model: ShaderModel::Version50,
        max_vertex_count: 1 << 24,
        max_index_count: 1 << 24,
        max_draw_buffers: 8,
        max_texture_size: 16384,
        max_vertex_attributes: 32,
        buffer_role_change_allowed: true,
        array_buffer_supported: true,
        fragment_output_supported: true,
        immutable_storage_supported: true,
        instance_base_supported: true,
        instance_call_supported: true,
        instance_rate_supported: true,
        render_targets_supported: true,
        sampler_objects_supported: true,
        srgb_color_supported: true,
        uniform_block_supported: true,
        vertex_base_supported: true,
    }
}

fn entry(severity: Severity, text: &str) -> Option<LogEntry> {
    Some(LogEntry { severity, text: String::from(text) })
}

#[test]
fn a_failure_is_an_error_and_a_log_on_success_a_warning() {
    assert_eq!(diagnose(true, Some(String::from("0:1 syntax error"))), entry(Severity::Error, "0:1 syntax error"));
    assert_eq!(diagnose(true, Some(String::new())), entry(Severity::Error, ""));
    assert_eq!(diagnose(true, None), entry(Severity::Error, ""));
    assert_eq!(diagnose(false, Some(String::from("unused variable"))), entry(Severity::Warn, "unused variable"));
    assert_eq!(diagnose(false, Some(String::new())), None);
    assert_eq!(diagnose(false, None), None);
}

#[test]
fn a_shader_is_compiled_for_its_stage() {
    let factory = create(shader_caps());
    assert_eq!(
        factory.shader_request(Stage::Fragment, b"void main() {}"),
        NativeCall::CompileShader { stage: Stage::Fragment, code: b"void main() {}".to_vec() }
    );
    assert_eq!(
        factory.shader_request(Stage::Vertex, b""),
        NativeCall::CompileShader { stage: Stage::Vertex, code: vec![] }
    );
}

#[test]
fn a_compiled_shader_is_tagged_with_its_stage() {
    let mut factory = create(shader_caps());
    let (made, log) = factory.create_shader(Stage::Geometry, Ok(17), Some(String::from("note")));
    let handle = made.unwrap();
    assert_eq!((handle.name(), handle.kind(), *handle.get_info()), (17, ResourceKind::Shader, Stage::Geometry));
    assert_eq!(log, entry(Severity::Warn, "note"));
    assert_eq!(factory.refs(ResourceKind::Shader, 17), 1);
    let (made, log) = factory.create_shader(Stage::Vertex, Ok(18), None);
    assert_eq!(made.unwrap().name(), 18);
    assert_eq!(log, None);
}

#[test]
fn a_shader_that_does_not_compile_gives_its_error() {
    let mut factory = create(shader_caps());
    let error = CreateShaderError::ShaderCompilationFailed(String::from("bad"));
    let (made, log) = factory.create_shader(Stage::Vertex, Err(error.clone()), Some(String::from("0:3 bad")));
    assert_eq!(made.err(), Some(error));
    assert_eq!(log, entry(Severity::Error, "0:3 bad"));
    let (made, log) = factory.create_shader(Stage::Vertex, Err(CreateShaderError::ModelNotSupported), None);
    assert_eq!(made.err(), Some(CreateShaderError::ModelNotSupported));
    assert_eq!(log, entry(Severity::Error, ""));
    assert_eq!(factory.cleanup(), vec![]);
}

#[test]
fn a_program_links_the_names_of_its_shaders_in_order() {
    let mut factory = create(shader_caps());
    let vertex = factory.create_shader(Stage::Vertex, Ok(3), None).0.unwrap();
    let fragment = factory.create_shader(Stage::Fragment, Ok(9), None).0.unwrap();
    let shaders = [fragment, vertex];
    assert_eq!(
        factory.program_request(&shaders, None),
        NativeCall::LinkProgram { shaders: vec![9, 3], targets: None }
    );
    assert!(factory.resolved(ResourceKind::Shader, 3));
    assert!(factory.resolved(ResourceKind::Shader, 9));
    assert!(!factory.resolved(ResourceKind::Program, 3));
    let targets = vec![String::from("o_Color"), String::from("o_Normal")];
    assert_eq!(
        factory.program_request(&shaders, Some(targets.clone())),
        NativeCall::LinkProgram { shaders: vec![9, 3], targets: Some(targets) }
    );
    assert_eq!(
        factory.program_request(&[], None),
        NativeCall::LinkProgram { shaders: vec![], targets: None }
    );
    assert_eq!(factory.refs(ResourceKind::Shader, 3), 1);
    assert_eq!(factory.refs(ResourceKind::Shader, 9), 1);
}

#[test]
fn a_linked_program_keeps_what_the_linker_found() {
    let mut factory = create(shader_caps());
    let info = ProgramInfo {
        attributes: vec![],
        uniforms: vec![UniformVar {
            name: String::from("u_Transform"),
            location: 2,
            count: 1,
            base_type: BaseType::F32,
            container: ContainerType::Matrix(gfx_device_gl::shade::MatrixFormat::ColumnMajor, 4, 4),
        }],
        blocks: vec![BlockVar { name: String::from("b_Locals"), size: 64, usage: 3 }],
        textures: vec![SamplerVar {
            name: String::from("t_Color"),
            location: 0,
            base_type: BaseType::F32,
            sampler_type: SamplerType::Sampler2D(
                IsArray::NoArray,
                IsShadow::NoShadow,
                IsMultiSample::NoMultiSample,
                IsRect::NoRect,
            ),
        }],
    };
    let (made, log) = factory.create_program(Ok((23, info.clone())), Some(String::from("linked with care")));
    let handle = made.unwrap();
    assert_eq!((handle.name(), handle.kind()), (23, ResourceKind::Program));
    assert_eq!(**handle.get_info(), info);
    assert_eq!(log, entry(Severity::Warn, "linked with care"));
    assert_eq!(factory.refs(ResourceKind::Program, 23), 1);
}

#[test]
fn a_failed_compilation_leaves_nothing_to_link() {
    let mut factory = create(shader_caps());
    let vertex = factory.create_shader(Stage::Vertex, Ok(3), None).0.unwrap();
    let error = CreateShaderError::ShaderCompilationFailed(String::from("no main"));
    let (fragment, log) = factory.create_shader(Stage::Fragment, Err(error.clone()), Some(String::from("no main")));
    assert_eq!(log, entry(Severity::Error, "no main"));
    assert_eq!(fragment.err(), Some(error));

    let call = factory.program_request(&[vertex], None);
    assert_eq!(call, NativeCall::LinkProgram { shaders: vec![3], targets: None });
    let failure = CreateProgramError::LinkFail(String::from("missing fragment stage"));
    let (made, log) = factory.create_program(Err(failure.clone()), Some(String::from("missing fragment stage")));
    assert_eq!(made.err(), Some(failure));
    assert_eq!(log, entry(Severity::Error, "missing fragment stage"));
    assert!(!factory.tracks(ResourceKind::Program, 0));

    let mismatch = CreateProgramError::TargetMismatch(vec![String::from("o_Color")]);
    let (made, log) = factory.create_program(Err(mismatch.clone()), None);
    assert_eq!(made.err(), Some(mismatch));
    assert_eq!(log, entry(Severity::Error, ""));
}
