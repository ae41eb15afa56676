//! Core of an entity-component 3D renderer: frame pacing, compilation of a
//! scene into per-frame render tasks and draw commands, and name-keyed
//! tables of GPU resources that those commands refer to by handle.
pub mod pacer;
pub mod resource;
pub mod render_functions;
pub mod loader;
pub mod component;
pub mod system;
