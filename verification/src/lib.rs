//! Core of a deferred renderer, modeled at the resource-descriptor level.
//!
//! The library owns the render-graph logic of the engine: texture and buffer
//! descriptors with format-derived metadata, bind-group layouts and their
//! binding order, the scene resource model (meshes, materials, uniforms),
//! DDS cubemap layout, shader hot-reload and cubemap hot-swap rules, and the
//! fixed per-frame pass sequence. Live GPU objects are represented by handles
//! tracked by a [`gpu::Gpu`] context; the thin executable shell that owns a
//! real device performs the recorded commands.

use vstd::prelude::*;

pub mod common;
pub mod cubemap;
pub mod gbuffers;
pub mod gpu;
pub mod loader;
pub mod mat4;
pub mod passes;
pub mod pipelines;
pub mod renderer;
pub mod resource_manager;
pub mod resources;
pub mod shadowmap;
pub mod tangent_generation;
pub mod texture;
pub mod uniform;

verus! {

/// Start-up choices: optional paths for the scene and for the skybox,
/// irradiance and prefiltered-specular cubemaps; absent values fall back to
/// built-in default assets.
pub struct RendererConfig {
    pub gltf: Option<String>,
    pub skybox: Option<String>,
    pub irradiance: Option<String>,
    pub prefilter: Option<String>,
}


} // verus!
