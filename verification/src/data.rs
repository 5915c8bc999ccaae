//! The scene aggregate that a load produces, and the handles that tie its
//! parts together.
//!
//! A handle is an index that the load hands out when an asset is registered
//! under its label. Two handles of one kind are the same asset exactly when
//! they are equal.

use vstd::prelude::*;
use std::collections::HashMap;
use crate::cache::LabelCache;
use crate::label::name_text;

verus! {

/// The handle of a primitive: one index list over the vertex buffer of a
/// mesh, drawn with one material.
#[derive(Clone, Copy, Debug, PartialEq, Eq, Hash)]
pub struct PrimitiveHandle(pub usize);

/// The handle of a texture.
#[derive(Clone, Copy, Debug, PartialEq, Eq, Hash)]
pub struct TextureHandle(pub usize);

/// The handle of a mesh asset.
#[derive(Clone, Copy, Debug, PartialEq, Eq, Hash)]
pub struct MeshHandle(pub usize);

/// The handle of a material.
#[derive(Clone, Copy, Debug, PartialEq, Eq, Hash)]
pub enum MaterialHandle {
    /// The renderer's default material, which stands in where a mesh has no
    /// material of its own.
    Default,
    /// A material of the document, as registered in the material cache.
    Cached(usize),
}

/// A node of the pruned hierarchy.
pub struct FbxObject<T> {
    /// The node's name.
    pub name: Option<String>,
    /// The node's transform relative to its parent.
    pub transform: T,
    /// The ids of all children of the node in the document, whether or not
    /// they were retained: a reader looks each one up and skips those that
    /// are absent.
    pub children: Vec<i64>,
}

/// What a node of the pruned hierarchy holds.
pub ghost struct ObjectView<T> {
    pub name: Option<Seq<char>>,
    pub transform: T,
    pub children: Seq<i64>,
}

impl<T> View for FbxObject<T> {
    type V = ObjectView<T>;

    open spec fn view(&self) -> ObjectView<T> {
        ObjectView {
            name: name_text(self.name),
            transform: self.transform,
            children: self.children@,
        }
    }
}

/// The views of the nodes of a hierarchy, by node id.
pub open spec fn objects_view<T>(hierarchy: Map<i64, FbxObject<T>>) -> Map<i64, ObjectView<T>> {
    Map::new(|id: i64| hierarchy.dom().contains(id), |id: i64| hierarchy[id]@)
}

/// A mesh: its primitives, and for each primitive its material.
pub struct FbxMesh {
    /// The mesh node's name.
    pub name: Option<String>,
    /// One primitive per material slot.
    pub bevy_mesh_handles: Vec<PrimitiveHandle>,
    /// The material of each primitive.
    pub materials: Vec<MaterialHandle>,
}

/// What a mesh holds.
pub ghost struct MeshView {
    pub name: Option<Seq<char>>,
    pub primitives: Seq<PrimitiveHandle>,
    pub materials: Seq<MaterialHandle>,
}

impl View for FbxMesh {
    type V = MeshView;

    open spec fn view(&self) -> MeshView {
        MeshView {
            name: name_text(self.name),
            primitives: self.bevy_mesh_handles@,
            materials: self.materials@,
        }
    }
}

impl FbxMesh {
    /// Every primitive has its material: the two lists are equally long and
    /// not empty.
    pub open spec fn well_formed(self) -> bool {
        self.bevy_mesh_handles@.len() == self.materials@.len() && self.materials@.len() >= 1
    }
}

/// The views of the meshes of a load, by the id of their node.
pub open spec fn meshes_view(meshes: Map<i64, FbxMesh>) -> Map<i64, MeshView> {
    Map::new(|id: i64| meshes.dom().contains(id), |id: i64| meshes[id]@)
}

/// Everything that one load produced.
pub struct FbxScene<T> {
    /// The label of every primitive, by its handle.
    pub bevy_meshes: LabelCache,
    /// The material cache: the handle of every material, by its label.
    pub materials: LabelCache,
    /// The texture cache: the handle of every texture, by its label.
    pub textures: LabelCache,
    /// The labels under which the mesh assets are registered.
    pub mesh_labels: LabelCache,
    /// The handle of the mesh asset of every mesh node, by node id.
    pub meshes: HashMap<i64, MeshHandle>,
    /// The pruned hierarchy, by node id.
    pub hierarchy: HashMap<i64, FbxObject<T>>,
    /// The ids of the root nodes.
    pub roots: Vec<i64>,
}

impl<T> FbxScene<T> {
    /// A scene without any content.
    pub fn new() -> (scene: Self)
        ensures
            scene.bevy_meshes@.len() == 0,
            scene.materials@.len() == 0,
            scene.textures@.len() == 0,
            scene.mesh_labels@.len() == 0,
            scene.meshes@ == Map::<i64, MeshHandle>::empty(),
            scene.hierarchy@ == Map::<i64, FbxObject<T>>::empty(),
            scene.roots@.len() == 0,
    {
        FbxScene {
            bevy_meshes: LabelCache::new(),
            materials: LabelCache::new(),
            textures: LabelCache::new(),
            mesh_labels: LabelCache::new(),
            meshes: HashMap::new(),
            hierarchy: HashMap::new(),
            roots: Vec::new(),
        }
    }
}

/// Copies an optional name.
pub fn clone_name(name: &Option<String>) -> (copy: Option<String>)
    ensures
        name_text(copy) == name_text(*name),
{
    match name {
        Some(n) => Some(n.clone()),
        None => None,
    }
}

} // verus!
