//! Resource registry and binding resolution for a GPU scene inspector.
//!
//! The crate keeps the shaders, textures, uniforms and bind groups of one
//! project in generational stores, lays uniform data out byte for byte as the
//! GPU expects it, resolves bind groups against the registry, and turns a
//! declarative render-pass description into the ordered list of commands that
//! a graphics device has to run.

pub mod bindgroup;
pub mod description;
pub mod inspect;
pub mod model;
pub mod project;
pub mod render;
pub mod shader;
pub mod size;
pub mod store;
pub mod texture;
pub mod uniform;
