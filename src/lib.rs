//! A two-pass sprite renderer: the decisions that drive the GPU, stated and proved.
pub mod frame;
pub mod pipeline;
pub mod record;
pub mod renderer;
pub mod resources;
pub mod sprite;
pub mod surface;
pub mod uniforms;
