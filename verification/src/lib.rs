//! Resource factory for an OpenGL device: the decisions behind creating,
//! updating, mapping and destroying device objects, with the native calls
//! described as values.

pub mod caps;
pub mod info;
pub mod laws;
pub mod native;
pub mod shade;
pub mod factory;
pub mod handle;
pub mod table;
