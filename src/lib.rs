//! A batched 2D renderer core: draw calls that each own a texture, a shader
//! program and a vertex buffer; quads are queued per draw call during a
//! frame and submitted together, one draw per non-empty draw call.
pub mod buffer;
pub mod error;
pub mod geometry;
pub mod image;
pub mod renderer;
pub mod shader;
