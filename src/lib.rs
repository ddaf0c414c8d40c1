//! Host-side logic of a ray-traced mesh viewer: memory-type selection,
//! acceleration-structure descriptions and instance records, and the
//! byte-exact layout of the shader binding table.

pub mod align;
pub mod bytes;
pub mod memory;
pub mod device_mesh;
pub mod sbt;
pub mod acceleration_structure;
pub mod renderers;
pub mod mesh;
pub mod draw_impls;
pub mod vulkan_app;
