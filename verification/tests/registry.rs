use probriquegl::gl_def::{GL_FRAGMENT_SHADER, GL_VERTEX_SHADER};
use probriquegl::registry::{
    shader_kind, AttachError, Relink, ReloadError, ShaderKind, ShaderRegistry,
};

fn registry_with_program() -> ShaderRegistry {
    let mut r = ShaderRegistry::new();
    r.register_shader(1, GL_VERTEX_SHADER);
    r.register_shader(2, GL_FRAGMENT_SHADER);
    assert_eq!(r.attach_shader(10, 1), Ok(()));
    assert_eq!(r.attach_shader(10, 2), Ok(()));
    r
}

#[test]
fn shader_kinds() {
    assert_eq!(shader_kind(GL_VERTEX_SHADER), Some(ShaderKind::Vertex));
    assert_eq!(shader_kind(GL_FRAGMENT_SHADER), Some(ShaderKind::Fragment));
    assert_eq!(shader_kind(0x8DD9), None);
}

#[test]
fn registered_shader_type_reads_back() {
    let mut r = ShaderRegistry::new();
    assert_eq!(r.shader_type(4), None);
    r.register_shader(4, GL_FRAGMENT_SHADER);
    assert_eq!(r.shader_type(4), Some(GL_FRAGMENT_SHADER));
}

#[test]
fn attach_unknown_shader_fails() {
    let mut r = ShaderRegistry::new();
    assert_eq!(r.attach_shader(10, 1), Err(AttachError::UnknownShader));
}

#[test]
fn attach_shader_of_other_type_fails() {
    let mut r = ShaderRegistry::new();
    r.register_shader(3, 0x8DD9);
    assert_eq!(r.attach_shader(10, 3), Err(AttachError::UnknownShaderType));
    r.register_shader(4, GL_VERTEX_SHADER);
    assert_eq!(r.attach_shader(10, 4), Ok(()));
}

#[test]
fn unreplaced_program_is_used_as_is() {
    let r = registry_with_program();
    assert_eq!(r.program_to_use(10), 10);
    assert_eq!(r.program_to_use(11), 11);
}

#[test]
fn reload_vertex_shader_relinks_program() {
    let mut r = registry_with_program();
    assert_eq!(
        r.retarget_shader(1, 20),
        Ok(Relink { program: 10, vertex_shader: 20, fragment_shader: 2, retired_shader: 1 })
    );
    // Reloading by the original number again rebuilds the same program.
    assert_eq!(
        r.retarget_shader(1, 30),
        Ok(Relink { program: 10, vertex_shader: 30, fragment_shader: 2, retired_shader: 20 })
    );
}

#[test]
fn reload_fragment_shader_relinks_program() {
    let mut r = registry_with_program();
    assert_eq!(
        r.retarget_shader(2, 21),
        Ok(Relink { program: 10, vertex_shader: 1, fragment_shader: 21, retired_shader: 2 })
    );
}

#[test]
fn reload_errors() {
    let mut r = registry_with_program();
    assert_eq!(r.retarget_shader(99, 5), Err(ReloadError::UnknownShader));
    r.register_shader(3, 0x8DD9);
    assert_eq!(r.retarget_shader(3, 5), Err(ReloadError::UnknownShaderType));
    r.register_shader(4, GL_VERTEX_SHADER);
    assert_eq!(r.retarget_shader(4, 5), Err(ReloadError::NoProgram));
    // A rebuilt shader is not itself registered.
    r.retarget_shader(1, 20).unwrap();
    assert_eq!(r.retarget_shader(20, 5), Err(ReloadError::UnknownShader));
}

#[test]
fn program_zero_is_never_rebuilt() {
    let mut r = ShaderRegistry::new();
    r.register_shader(1, GL_VERTEX_SHADER);
    assert_eq!(r.attach_shader(0, 1), Ok(()));
    assert_eq!(r.retarget_shader(1, 5), Err(ReloadError::NoProgram));
}

#[test]
fn hot_reload_redirects_program() {
    let mut r = registry_with_program();
    let link = r.retarget_shader(1, 20).unwrap();
    assert_eq!(r.record_replacement(link.program, 40), None);
    assert_eq!(r.program_to_use(10), 40);
    assert_eq!(r.program_to_use(40), 40);
    let link = r.retarget_shader(1, 21).unwrap();
    assert_eq!(r.record_replacement(link.program, 41), Some(40));
    assert_eq!(r.program_to_use(10), 41);
}
