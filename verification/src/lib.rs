//! The core of a mesh viewer: the wireframe of a triangle mesh as instances of
//! an edge and a vertex template, model entries with their render mode, the
//! rules by which the outcome of reading a file or a directory becomes
//! entries, and the store that collects them.
//!
//! Nothing here reads a file or talks to a graphics card. The program around
//! this library parses the meshes, uploads the forms that an entry lists and
//! evaluates the instance transforms.
pub mod entry;
pub mod gui;
pub mod loader;
pub mod material;
pub mod store;
pub mod wireframe;

pub use crate::entry::{ModelEntry, RenderMode};
pub use crate::loader::load_models;
pub use crate::store::Resources;
