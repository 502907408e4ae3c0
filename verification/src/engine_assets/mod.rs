//! Asset identity and metadata, the asset database, and the glTF / GLB
//! import pipeline's byte-level logic.

pub mod database;
pub mod glb;
pub mod glb_document;
pub mod gltf;
pub mod gltf_material;
pub mod gltf_mesh;
pub mod gltf_primitive;
pub mod gltf_scene;
pub mod gltf_sources;
pub mod json;
pub mod types;
