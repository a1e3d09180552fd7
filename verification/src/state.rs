//! What the render state is built from at startup.

pub mod resources;
pub mod texture;
