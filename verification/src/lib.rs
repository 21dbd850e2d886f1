//! Quad-batch geometry builder for a small 2-D renderer.
//!
//! The library accumulates axis-aligned quads into a vertex array and a
//! triangle-list index array, and serialises both into the raw byte form a
//! graphics API consumes. Scalar attributes (coordinates, colour channels)
//! are carried as opaque 32-bit words — the bit patterns of the 32-bit
//! floats the GPU will read — and the builder never computes with them, so
//! every step of the batching and the serialisation is verified exactly.

pub mod encode;
pub mod quad;
pub mod renderer;
pub mod vertex;

pub use crate::quad::Quad;
pub use crate::renderer::Renderer;
pub use crate::vertex::Color;
pub use crate::vertex::Vertex;
