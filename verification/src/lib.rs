//! FinalEngine: the engine's verified core logic.
//!
//! Each module mirrors one engine subsystem: the app lifecycle, entity
//! identity, the editor shell, the scripting host, asset metadata and glTF
//! import, and the renderer's configuration and feature negotiation.

pub mod identifiers;
pub mod chars;
pub mod paths;
pub mod text;

pub mod engine_audio;
pub mod engine_assets;
pub mod engine_core;
pub mod engine_ecs;
pub mod engine_editor;
pub mod engine_physics;
pub mod engine_scripting;
pub mod engine_render;
