use probriquegl::dump::{dumped_source_extent, shader_dump_path, SourceExtent};
use probriquegl::proc_address::{route_proc_address, ProcRoute};

#[test]
fn dump_path_names_the_shader() {
    assert_eq!(
        shader_dump_path(7),
        b"/home/vincent/Projects/probriquegl/shaders/shader_n7.glsl".to_vec()
    );
    assert_eq!(
        shader_dump_path(-3),
        b"/home/vincent/Projects/probriquegl/shaders/shader_n-3.glsl".to_vec()
    );
}

#[test]
fn source_extents() {
    assert_eq!(dumped_source_extent(0), Some(SourceExtent::NulTerminated));
    assert_eq!(dumped_source_extent(1), Some(SourceExtent::Counted(0)));
    assert_eq!(dumped_source_extent(12), Some(SourceExtent::Counted(11)));
    assert_eq!(dumped_source_extent(-1), None);
}

#[test]
fn proc_routes() {
    assert_eq!(route_proc_address(b"glXCreateContextAttribsARB"), ProcRoute::CreateContextAttribsHook);
    assert_eq!(route_proc_address(b"glGetString"), ProcRoute::GetStringHook);
    assert_eq!(route_proc_address(b"glGetStringi"), ProcRoute::Lookup);
    assert_eq!(route_proc_address(b"glClear"), ProcRoute::Lookup);
    assert_eq!(route_proc_address(b""), ProcRoute::Lookup);
}
