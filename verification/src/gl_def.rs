use vstd::prelude::*;

verus! {

/// `glGetString` name of the version string.
pub const GL_VERSION: u32 = 0x1F02;

/// Shader type of a vertex shader.
pub const GL_VERTEX_SHADER: i32 = 0x8B31;

/// Shader type of a fragment shader.
pub const GL_FRAGMENT_SHADER: i32 = 0x8B30;

/// Program parameter that marks a program separable.
pub const GL_PROGRAM_SEPARABLE: u32 = 0x8258;

/// GL boolean true.
pub const GL_TRUE: i32 = 1;

/// GL boolean false.
pub const GL_FALSE: i32 = 0;

/// Shader parameter: whether the last compilation succeeded.
pub const GL_COMPILE_STATUS: u32 = 0x8B81;

/// Shader parameter: length of the information log.
pub const GL_INFO_LOG_LENGTH: u32 = 0x8B84;

/// GLX context attribute: requested major version.
pub const GLX_CONTEXT_MAJOR_VERSION_ARB: i32 = 0x2091;

/// GLX context attribute: requested minor version.
pub const GLX_CONTEXT_MINOR_VERSION_ARB: i32 = 0x2092;

} // verus!
