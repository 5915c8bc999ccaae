//! Conversion of a parsed FBX scene description into a renderer-agnostic
//! scene graph: a pruned node hierarchy, triangle meshes split per material,
//! and label-keyed caches for materials and textures.

pub mod error;
pub mod text;
pub mod label;
pub mod cache;
pub mod data;
pub mod mesh;
pub mod hierarchy;
pub mod scene;
pub mod texture;
pub mod image;
pub mod document;
pub mod material;
pub mod loader;
