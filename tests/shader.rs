use gfx_core::device::RenderDevice;
use gfx_core::error::LifecycleError;
use gfx_core::prebuild_shader::{
    FontShader, MeshShader, PrebuildShaderProgram, RectShader, ScreenShader, Texture2DBatchShader,
    Texture2DShader, FONT_FRAGMENT, FONT_VERTEX, TEXTURE2D_VERTEX,
};
use gfx_core::shader::ShaderProgram;

#[test]
fn sources_are_set_in_source_state() {
    let mut p = ShaderProgram::new();
    assert_eq!(p.load_vertex_shader(String::from("void main() {}")), Ok(()));
    assert_eq!(p.load_fragment_shader(String::from("out vec4 c;")), Ok(()));
    match &p {
        ShaderProgram::PreBuild { vertex_shader, fragment_shader } => {
            assert_eq!(vertex_shader.source, "void main() {}");
            assert_eq!(fragment_shader.source, "out vec4 c;");
        }
        _ => panic!("expected the source state"),
    }
}

#[test]
fn build_bind_and_dispose() {
    let mut device = RenderDevice::new();
    let mut p = Texture2DShader::build_shader_program();
    assert_eq!(device.bind_shader_program(&p), Err(LifecycleError::NotBuilt));
    assert_eq!(device.build_shader_program(&mut p, 7, false), Err(LifecycleError::LinkFailed));
    assert!(matches!(p, ShaderProgram::PreBuild { .. }));
    assert_eq!(device.build_shader_program(&mut p, 0, true), Err(LifecycleError::NullHandle));
    assert_eq!(device.build_shader_program(&mut p, 7, true), Ok(()));
    assert!(matches!(p, ShaderProgram::Builded { program_id: 7 }));
    assert_eq!(device.build_shader_program(&mut p, 8, true), Err(LifecycleError::NotPreBuild));
    assert_eq!(
        p.load_vertex_shader(String::from("x")),
        Err(LifecycleError::NotPreBuild)
    );
    assert_eq!(device.bind_shader_program(&p), Ok(7));
    assert_eq!(device.shader_program, 7);
    device.unbind_shader_program();
    assert_eq!(device.shader_program, 0);
    assert_eq!(device.dispose_shader_program(&mut p), Ok(Some(7)));
    assert!(matches!(p, ShaderProgram::Disposed));
    assert_eq!(device.dispose_shader_program(&mut p), Err(LifecycleError::AlreadyDisposed));
    assert_eq!(device.bind_shader_program(&p), Err(LifecycleError::AlreadyDisposed));
    assert_eq!(device.build_shader_program(&mut p, 9, true), Err(LifecycleError::AlreadyDisposed));
    assert_eq!(
        p.load_fragment_shader(String::from("x")),
        Err(LifecycleError::AlreadyDisposed)
    );
}

#[test]
fn disposing_a_source_program_frees_nothing() {
    let mut device = RenderDevice::new();
    let mut p = ShaderProgram::new();
    assert_eq!(device.dispose_shader_program(&mut p), Ok(None));
    assert!(matches!(p, ShaderProgram::Disposed));
}

#[test]
fn builtin_programs_carry_their_sources() {
    match Texture2DShader::build_shader_program() {
        ShaderProgram::PreBuild { vertex_shader, .. } => assert_eq!(vertex_shader.source, TEXTURE2D_VERTEX),
        _ => panic!("expected the source state"),
    }
    match FontShader::build_shader_program() {
        ShaderProgram::PreBuild { vertex_shader, fragment_shader } => {
            assert_eq!(vertex_shader.source, FONT_VERTEX);
            assert_eq!(fragment_shader.source, FONT_FRAGMENT);
            assert!(fragment_shader.source.contains("sampler2D"));
        }
        _ => panic!("expected the source state"),
    }
    for p in [
        ScreenShader::build_shader_program(),
        Texture2DBatchShader::build_shader_program(),
        RectShader::build_shader_program(),
        MeshShader::build_shader_program(),
    ] {
        match p {
            ShaderProgram::PreBuild { vertex_shader, fragment_shader } => {
                assert!(vertex_shader.source.contains("#version"));
                assert!(fragment_shader.source.contains("#version"));
            }
            _ => panic!("expected the source state"),
        }
    }
}
