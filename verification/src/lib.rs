//! Resource layer of a real-time renderer.
//!
//! The crate covers the two subsystems where correctness is actually
//! engineered: a frame-scoped arena for short-lived GPU-visible buffers, and
//! a shader-variant resolver that turns a shader template plus a set of
//! feature keywords into a compiled pipeline state, compiling at most once
//! per distinct configuration.

pub mod arena;
pub mod attrib;
pub mod buffer;
pub mod compiler;
pub mod draw_state;
pub mod input;
pub mod keywords;
pub mod parser;
pub mod pass;
pub mod resolver;
pub mod sampler;
pub mod shader;
pub mod text;
pub mod window;
