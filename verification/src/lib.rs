//! Decisions of an OpenGL/GLX interposer: which program a game really uses
//! after a shader was hot-reloaded, how console commands are read, how the
//! requested context version is rewritten and reported.

pub mod gl_def;
pub mod text;
pub mod decimal;
pub mod console;
pub mod registry;
pub mod context;
pub mod dump;
pub mod proc_address;

pub use console::Action;
pub use registry::Program;
