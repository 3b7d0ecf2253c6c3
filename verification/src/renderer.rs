//! The rendering bridge: from renderable batches to draw calls.

pub mod blend;
pub mod bytes;
pub mod cache;
pub mod frame;
pub mod meshes;
pub mod registry;
pub mod sampler;
pub mod texture;
pub mod vertex;
