//! The rendering core of a generative-art toolkit.
//!
//! A scene is an ordered stack of layers, each a mesh drawn with a shader.
//! The core says how each outline is to be tessellated, checks and colors
//! the triangle meshes that come back, gates shaders by frame, and decides,
//! frame by frame, which draws reach a ping-pong pair of render targets and
//! in what order. The tessellator and the GPU are driven from outside: the
//! core is handed what they made and hands back what to do next.
//!
//! Numbers that the GPU reads as single-precision values are carried here
//! by their bit patterns; the core never does arithmetic on them.

pub mod composition;
pub mod errors;
pub mod geom;
pub mod gpu;
pub mod mesh;
pub mod rainier;
pub mod tween;
