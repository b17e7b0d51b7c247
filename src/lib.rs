//! Shader, mesh and model plumbing for small OpenGL programs.
//!
//! The library decides what is sent to the graphics driver: the commands of
//! a draw, the layout of a vertex buffer, the steps of a shader build, and
//! which texture files must be decoded. The host program performs the calls.

pub mod decimal;
pub mod gl_command;
pub mod mesh;
pub mod model;
pub mod shader;
