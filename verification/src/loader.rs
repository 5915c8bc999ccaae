//! The loader: the owner of the caches of one load, through which meshes,
//! materials and textures are registered, and which assembles the scene at
//! the end.
//!
//! Reading files, decoding images and running the material loaders is the
//! caller's part. The loader decides what is to be done, and in which
//! order; the caller does it and comes back with the outcome. The caches
//! are read and written by one caller at a time.

use vstd::prelude::*;
use std::collections::HashMap;
use bevy::image::CompressedImageFormats;
use fbxcel_dom::v7400::Document;
use crate::cache::{distinct_labels, extends, inserted, LabelCache};
use crate::data::{
    clone_name, meshes_view, objects_view, FbxMesh, FbxObject, FbxScene, MaterialHandle,
    MeshHandle, ObjectView, PrimitiveHandle, TextureHandle,
};
use crate::document::{document_from, loading_error, ParseFailure};
use crate::error::FbxLoadingError;
use crate::hierarchy::{retain_forest, traverse_hierarchy, ModelNode};
use crate::label::{
    lemma_primitive_labels_differ, material_label, material_label_text, mesh_label,
    mesh_label_text, name_text, primitive_label, primitive_label_text, primitive_labels,
};
use crate::material::{slot_names, ChainState, MaterialLoader, MaterialObject};
use crate::mesh::{reconstruct_mesh, ReconstructedMesh, TriangulatedGeometry};
use crate::scene::{entity_views, spawn_scene, spawned_all, SceneTree};

verus! {

/// A mesh node of the document.
pub struct MeshObject<V3, V2> {
    /// The node's name.
    pub name: Option<String>,
    /// The node's id.
    pub id: i64,
    /// The geometry of the mesh, triangulated, where the node has one.
    pub geometry: Option<TriangulatedGeometry<V3, V2>>,
}

/// What the material cache says of a material.
pub enum MaterialLookup {
    /// The material was loaded before; this is its handle.
    Cached(MaterialHandle),
    /// The material is not cached; the loaders are to be run, and what they
    /// build is to be registered under this label.
    Load(String),
}

/// The state of one load.
pub struct Loader {
    /// The label of every primitive registered so far, by its handle.
    pub bevy_meshes: LabelCache,
    /// The material cache.
    pub materials: LabelCache,
    /// The texture cache.
    pub textures: LabelCache,
    /// The labels of the mesh assets.
    pub mesh_labels: LabelCache,
    /// The handle of the mesh asset of every mesh loaded so far, by node id.
    pub mesh_handles: HashMap<i64, MeshHandle>,
    /// Every mesh loaded so far, by node id.
    pub meshes: HashMap<i64, FbxMesh>,
    /// The material loaders, in the order in which they are tried.
    pub material_loaders: Vec<MaterialLoader>,
    /// The asset path of the document.
    pub document_path: String,
    /// The compressed image formats that the render device can take.
    pub supported_compressed_formats: CompressedImageFormats,
}

/// The loader of FBX documents, as configured by the host.
pub struct FbxLoader {
    /// The compressed image formats that the render device can take.
    pub supported: CompressedImageFormats,
    /// The material loaders, in the order in which they are tried.
    pub material_loaders: Vec<MaterialLoader>,
}

/// The handle of every slot is registered in `cache`, under the label of
/// the primitive of that slot of the mesh labelled `mesh_label`.
pub open spec fn primitives_registered(
    cache: Seq<Seq<char>>,
    mesh_label: Seq<char>,
    handles: Seq<PrimitiveHandle>,
) -> bool {
    forall|s: int|
        0 <= s < handles.len() ==> {
            &&& (#[trigger] handles[s]).0 < cache.len()
            &&& cache[handles[s].0 as int] == primitive_label_text(mesh_label, s as nat)
        }
}

/// The primitive cache after the primitives of the first `count` slots of
/// the mesh labelled `mesh_label` have been registered, slot by slot.
pub open spec fn with_primitives(cache: Seq<Seq<char>>, mesh_label: Seq<char>, count: nat) -> Seq<
    Seq<char>,
>
    decreases count,
{
    if count == 0 {
        cache
    } else {
        inserted(
            with_primitives(cache, mesh_label, (count - 1) as nat),
            primitive_label_text(mesh_label, (count - 1) as nat),
        )
    }
}

/// The cache holds none of the labels of the primitives of the first
/// `count` slots of the mesh labelled `mesh_label`.
pub open spec fn fresh_primitives(
    cache: Seq<Seq<char>>,
    mesh_label: Seq<char>,
    count: nat,
) -> bool {
    forall|slot: int|
        0 <= slot < count ==> !cache.contains(
            #[trigger] primitive_label_text(mesh_label, slot as nat),
        )
}

/// Registering the primitives of a mesh that the cache does not know yet
/// puts their labels behind the others, in slot order, and nothing else: the
/// cache grows by exactly one label per slot.
pub proof fn lemma_with_fresh_primitives(cache: Seq<Seq<char>>, mesh_label: Seq<char>, count: nat)
    requires
        fresh_primitives(cache, mesh_label, count),
    ensures
        with_primitives(cache, mesh_label, count) == cache + primitive_labels(mesh_label, count),
    decreases count,
{
    if count == 0 {
        assert(cache + primitive_labels(mesh_label, 0) =~= cache);
    } else {
        let fewer = (count - 1) as nat;
        let label = primitive_label_text(mesh_label, fewer);
        lemma_with_fresh_primitives(cache, mesh_label, fewer);
        let before = cache + primitive_labels(mesh_label, fewer);
        assert(!before.contains(label)) by {
            if before.contains(label) {
                let i = choose|i: int| 0 <= i < before.len() && before[i] == label;
                if i < cache.len() {
                    assert(cache.contains(cache[i]));
                } else {
                    lemma_primitive_labels_differ(mesh_label, (i - cache.len()) as nat, fewer);
                }
            }
        }
        assert(before.push(label) =~= cache + primitive_labels(mesh_label, count));
    }
}

/// The number of primitives of a mesh with `num_materials` materials.
pub open spec fn primitive_count(num_materials: nat) -> nat {
    if num_materials == 0 {
        1
    } else {
        num_materials
    }
}

impl FbxMesh {
    /// A copy of the mesh.
    pub fn duplicate(&self) -> (copy: FbxMesh)
        ensures
            copy@ == self@,
    {
        let mut bevy_mesh_handles: Vec<PrimitiveHandle> = Vec::new();
        let mut i: usize = 0;
        while i < self.bevy_mesh_handles.len()
            invariant
                i <= self.bevy_mesh_handles@.len(),
                bevy_mesh_handles@ == self.bevy_mesh_handles@.take(i as int),
            decreases self.bevy_mesh_handles@.len() - i,
        {
            bevy_mesh_handles.push(self.bevy_mesh_handles[i]);
            i = i + 1;
            assert(bevy_mesh_handles@ =~= self.bevy_mesh_handles@.take(i as int));
        }
        assert(bevy_mesh_handles@ =~= self.bevy_mesh_handles@);
        let mut materials: Vec<MaterialHandle> = Vec::new();
        let mut k: usize = 0;
        while k < self.materials.len()
            invariant
                k <= self.materials@.len(),
                materials@ == self.materials@.take(k as int),
            decreases self.materials@.len() - k,
        {
            materials.push(self.materials[k]);
            k = k + 1;
            assert(materials@ =~= self.materials@.take(k as int));
        }
        assert(materials@ =~= self.materials@);
        FbxMesh { name: clone_name(&self.name), bevy_mesh_handles, materials }
    }
}

impl Loader {
    /// A loader for the document at `document_path`, with empty caches.
    pub fn new(
        formats: CompressedImageFormats,
        material_loaders: Vec<MaterialLoader>,
        document_path: String,
    ) -> (loader: Self)
        ensures
            loader.bevy_meshes@.len() == 0,
            loader.materials@.len() == 0,
            loader.textures@.len() == 0,
            loader.mesh_labels@.len() == 0,
            loader.mesh_handles@ == Map::<i64, MeshHandle>::empty(),
            loader.meshes@ == Map::<i64, FbxMesh>::empty(),
            loader.material_loaders == material_loaders,
            loader.document_path == document_path,
            loader.supported_compressed_formats == formats,
    {
        Loader {
            bevy_meshes: LabelCache::new(),
            materials: LabelCache::new(),
            textures: LabelCache::new(),
            mesh_labels: LabelCache::new(),
            mesh_handles: HashMap::new(),
            meshes: HashMap::new(),
            material_loaders,
            document_path,
            supported_compressed_formats: formats,
        }
    }

    /// The two loaders are set up alike: for the same document, with the
    /// same material loaders and image formats.
    pub open spec fn set_up_as(self, other: Loader) -> bool {
        &&& self.material_loaders == other.material_loaders
        &&& self.document_path == other.document_path
        &&& self.supported_compressed_formats == other.supported_compressed_formats
    }

    /// Looks `material` up in the material cache. A material that was
    /// registered before is never loaded again: the handle under which its
    /// label was registered is returned, and it is the only handle that the
    /// cache has for that label.
    pub fn load_material(&self, material: &MaterialObject) -> (lookup: MaterialLookup)
        ensures
            distinct_labels(self.materials@),
            match lookup {
                MaterialLookup::Cached(handle) => handle matches MaterialHandle::Cached(h) && h
                    < self.materials@.len() && self.materials@[h as int] == material_label_text(
                    name_text(material.name),
                    material.id as int,
                ),
                MaterialLookup::Load(label) => label@ == material_label_text(
                    name_text(material.name),
                    material.id as int,
                ) && !self.materials@.contains(label@),
            },
    {
        let label = material_label(&material.name, material.id);
        match self.materials.get(label.as_str()) {
            Some(h) => MaterialLookup::Cached(MaterialHandle::Cached(h)),
            None => MaterialLookup::Load(label),
        }
    }

    /// Ends the run of the loader chain for the material labelled `label`.
    /// Where a loader built the material, the material is registered under
    /// the label and its handle returned. In every other state of the chain
    /// no loader has built the material: it cannot be loaded, and the cache
    /// stays as it is.
    pub fn finish_material(&mut self, label: String, chain: ChainState) -> (result: Result<
        MaterialHandle,
        FbxLoadingError,
    >)
        ensures
            final(self).bevy_meshes == old(self).bevy_meshes,
            final(self).textures == old(self).textures,
            final(self).mesh_labels == old(self).mesh_labels,
            final(self).mesh_handles == old(self).mesh_handles,
            final(self).meshes == old(self).meshes,
            final(self).set_up_as(*old(self)),
            result is Ok <==> chain is Built,
            match result {
                Ok(handle) => {
                    &&& handle matches MaterialHandle::Cached(h) && h < final(self).materials@.len()
                        && final(self).materials@[h as int] == label@
                    &&& final(self).materials@ == inserted(old(self).materials@, label@)
                    &&& extends(old(self).materials@, final(self).materials@)
                    &&& distinct_labels(final(self).materials@)
                },
                Err(e) => {
                    &&& e == FbxLoadingError::NoMaterialLoaderSucceeded
                    &&& final(self).materials == old(self).materials
                },
            },
    {
        match chain {
            ChainState::Built(_) => {
                let h = self.materials.insert(label);
                Ok(MaterialHandle::Cached(h))
            },
            _ => Err(FbxLoadingError::NoMaterialLoaderSucceeded),
        }
    }

    /// Looks a texture label up in the texture cache.
    pub fn lookup_texture(&self, label: &str) -> (found: Option<TextureHandle>)
        ensures
            distinct_labels(self.textures@),
            match found {
                Some(handle) => handle.0 < self.textures@.len() && self.textures@[handle.0 as int]
                    == label@,
                None => !self.textures@.contains(label@),
            },
    {
        match self.textures.get(label) {
            Some(h) => Some(TextureHandle(h)),
            None => None,
        }
    }

    /// Registers a texture under `label` and returns its handle; the handle
    /// that the label already has, where it has one.
    pub fn register_texture(&mut self, label: String) -> (handle: TextureHandle)
        ensures
            final(self).bevy_meshes == old(self).bevy_meshes,
            final(self).materials == old(self).materials,
            final(self).mesh_labels == old(self).mesh_labels,
            final(self).mesh_handles == old(self).mesh_handles,
            final(self).meshes == old(self).meshes,
            final(self).set_up_as(*old(self)),
            handle.0 < final(self).textures@.len(),
            final(self).textures@[handle.0 as int] == label@,
            final(self).textures@ == inserted(old(self).textures@, label@),
            extends(old(self).textures@, final(self).textures@),
            distinct_labels(final(self).textures@),
            !old(self).textures@.contains(label@) ==> handle.0 == old(self).textures@.len(),
    {
        TextureHandle(self.textures.insert(label))
    }

    /// Reconstructs the buffers of a geometry for `num_materials` material
    /// slots and registers one primitive per index list, each under the
    /// label of the geometry and its slot. Where reconstruction fails,
    /// nothing is registered.
    pub fn load_bevy_mesh<V3: Copy, V2>(
        &mut self,
        geometry: TriangulatedGeometry<V3, V2>,
        num_materials: usize,
    ) -> (result: Result<(ReconstructedMesh<V3, V2>, Vec<PrimitiveHandle>), FbxLoadingError>)
        requires
            geometry.vertex_count() <= u32::MAX,
        ensures
            final(self).materials == old(self).materials,
            final(self).textures == old(self).textures,
            final(self).mesh_labels == old(self).mesh_labels,
            final(self).mesh_handles == old(self).mesh_handles,
            final(self).meshes == old(self).meshes,
            final(self).set_up_as(*old(self)),
            match result {
                Ok((mesh, handles)) => {
                    &&& geometry.reconstruction_error(num_materials as nat) is None
                    &&& mesh.reconstructs(geometry, num_materials as nat)
                    &&& handles@.len() == primitive_count(num_materials as nat)
                    &&& final(self).bevy_meshes@ == with_primitives(
                        old(self).bevy_meshes@,
                        mesh.label@,
                        primitive_count(num_materials as nat),
                    )
                    &&& fresh_primitives(
                        old(self).bevy_meshes@,
                        mesh.label@,
                        primitive_count(num_materials as nat),
                    ) ==> final(self).bevy_meshes@ == old(self).bevy_meshes@ + primitive_labels(
                        mesh.label@,
                        primitive_count(num_materials as nat),
                    )
                    &&& distinct_labels(final(self).bevy_meshes@)
                    &&& extends(old(self).bevy_meshes@, final(self).bevy_meshes@)
                    &&& primitives_registered(final(self).bevy_meshes@, mesh.label@, handles@)
                },
                Err(e) => {
                    &&& geometry.reconstruction_error(num_materials as nat) == Some(e)
                    &&& final(self).bevy_meshes == old(self).bevy_meshes
                },
            },
    {
        let mesh = match reconstruct_mesh(geometry, num_materials) {
            Ok(mesh) => mesh,
            Err(e) => {
                return Err(e);
            },
        };
        let mut handles: Vec<PrimitiveHandle> = Vec::new();
        let mut slot: usize = 0;
        while slot < mesh.primitives.len()
            invariant
                slot <= mesh.primitives@.len(),
                handles@.len() == slot,
                self.bevy_meshes@ == with_primitives(
                    old(self).bevy_meshes@,
                    mesh.label@,
                    slot as nat,
                ),
                slot > 0 ==> distinct_labels(self.bevy_meshes@),
                extends(old(self).bevy_meshes@, self.bevy_meshes@),
                primitives_registered(self.bevy_meshes@, mesh.label@, handles@),
                self.materials == old(self).materials,
                self.textures == old(self).textures,
                self.mesh_labels == old(self).mesh_labels,
                self.mesh_handles == old(self).mesh_handles,
                self.meshes == old(self).meshes,
                self.set_up_as(*old(self)),
            decreases mesh.primitives@.len() - slot,
        {
            let label = primitive_label(mesh.label.as_str(), slot);
            let ghost cache = self.bevy_meshes@;
            let ghost before = handles@;
            let h = self.bevy_meshes.insert(label);
            handles.push(PrimitiveHandle(h));
            proof {
                assert(extends(cache, self.bevy_meshes@));
                assert forall|s: int| 0 <= s < handles@.len() implies (#[trigger] handles@[s]).0
                    < self.bevy_meshes@.len() && self.bevy_meshes@[handles@[s].0 as int]
                    == primitive_label_text(mesh.label@, s as nat) by {
                    if s < before.len() {
                        assert(handles@[s] == before[s]);
                    }
                }
            }
            slot = slot + 1;
        }
        proof {
            let count = primitive_count(num_materials as nat);
            if fresh_primitives(old(self).bevy_meshes@, mesh.label@, count) {
                lemma_with_fresh_primitives(old(self).bevy_meshes@, mesh.label@, count);
            }
        }
        Ok((mesh, handles))
    }

    /// Loads a mesh node whose materials `materials` have been resolved, in
    /// the order in which the node names them.
    ///
    /// A mesh without materials is bound to the default material, so every
    /// mesh has as many primitives as materials, and at least one. The mesh
    /// asset is registered under the label of the node, and the mesh is kept
    /// under the node's id. Where the mesh has no geometry or its buffers
    /// cannot be reconstructed, nothing is registered.
    pub fn load_mesh<V3: Copy, V2>(
        &mut self,
        mesh: MeshObject<V3, V2>,
        materials: Vec<MaterialHandle>,
    ) -> (result: Result<(FbxMesh, ReconstructedMesh<V3, V2>), FbxLoadingError>)
        requires
            mesh.geometry matches Some(g) ==> g.vertex_count() <= u32::MAX,
        ensures
            final(self).materials == old(self).materials,
            final(self).textures == old(self).textures,
            final(self).set_up_as(*old(self)),
            match result {
                Ok((loaded, buffers)) => {
                    &&& mesh.geometry matches Some(g) && g.reconstruction_error(
                        materials@.len(),
                    ) is None && buffers.reconstructs(g, materials@.len())
                    &&& loaded@.name == name_text(mesh.name)
                    &&& loaded@.materials == if materials@.len() == 0 {
                        seq![MaterialHandle::Default]
                    } else {
                        materials@
                    }
                    &&& loaded.well_formed()
                    &&& loaded@.primitives.len() == loaded@.materials.len() == primitive_count(
                        materials@.len(),
                    )
                    &&& final(self).bevy_meshes@ == with_primitives(
                        old(self).bevy_meshes@,
                        buffers.label@,
                        primitive_count(materials@.len()),
                    )
                    &&& fresh_primitives(
                        old(self).bevy_meshes@,
                        buffers.label@,
                        primitive_count(materials@.len()),
                    ) ==> final(self).bevy_meshes@ == old(self).bevy_meshes@ + primitive_labels(
                        buffers.label@,
                        primitive_count(materials@.len()),
                    )
                    &&& distinct_labels(final(self).bevy_meshes@)
                    &&& extends(old(self).bevy_meshes@, final(self).bevy_meshes@)
                    &&& primitives_registered(
                        final(self).bevy_meshes@,
                        buffers.label@,
                        loaded@.primitives,
                    )
                    &&& final(self).mesh_labels@ == inserted(
                        old(self).mesh_labels@,
                        mesh_label_text(name_text(mesh.name), mesh.id as int),
                    )
                    &&& extends(old(self).mesh_labels@, final(self).mesh_labels@)
                    &&& final(self).mesh_handles@ == old(self).mesh_handles@.insert(
                        mesh.id,
                        final(self).mesh_handles@[mesh.id],
                    )
                    &&& final(self).mesh_handles@[mesh.id].0 < final(self).mesh_labels@.len()
                    &&& final(self).mesh_labels@[final(self).mesh_handles@[mesh.id].0 as int]
                        == mesh_label_text(name_text(mesh.name), mesh.id as int)
                    &&& meshes_view(final(self).meshes@) == meshes_view(old(self).meshes@).insert(
                        mesh.id,
                        loaded@,
                    )
                },
                Err(e) => {
                    &&& match mesh.geometry {
                        None => e == FbxLoadingError::MissingGeometryData,
                        Some(g) => g.reconstruction_error(materials@.len()) == Some(e),
                    }
                    &&& *final(self) == *old(self)
                },
            },
    {
        broadcast use vstd::std_specs::hash::group_hash_axioms;

        let label = mesh_label(&mesh.name, mesh.id);
        let geometry = match mesh.geometry {
            Some(g) => g,
            None => {
                return Err(FbxLoadingError::MissingGeometryData);
            },
        };
        let mut materials = materials;
        let material_count = materials.len();
        if material_count == 0 {
            materials.push(MaterialHandle::Default);
            assert(materials@ =~= seq![MaterialHandle::Default]);
        }
        let (buffers, bevy_mesh_handles) = match self.load_bevy_mesh(geometry, material_count) {
            Ok(loaded) => loaded,
            Err(e) => {
                return Err(e);
            },
        };
        let loaded = FbxMesh { name: clone_name(&mesh.name), bevy_mesh_handles, materials };
        let h = self.mesh_labels.insert(label);
        self.mesh_handles.insert(mesh.id, MeshHandle(h));
        let ghost before = self.meshes@;
        self.meshes.insert(mesh.id, loaded.duplicate());
        assert(meshes_view(self.meshes@) =~= meshes_view(before).insert(mesh.id, loaded@));
        Ok((loaded, buffers))
    }

    /// Ends the load: walks the model trees under `roots` into the pruned
    /// hierarchy, builds the scene tree from the hierarchy and the meshes
    /// loaded so far, and hands out the scene with the caches of the load.
    pub fn load<T: Copy>(self, roots: &Vec<ModelNode<T>>) -> (result: (FbxScene<T>, SceneTree<T>))
        ensures
            result.0.bevy_meshes == self.bevy_meshes,
            result.0.materials == self.materials,
            result.0.textures == self.textures,
            result.0.mesh_labels == self.mesh_labels,
            result.0.meshes == self.mesh_handles,
            objects_view(result.0.hierarchy@) == retain_forest(
                roots@,
                roots@.len(),
                Map::<i64, ObjectView<T>>::empty(),
            ),
            result.0.roots@ == Seq::new(roots@.len(), |i: int| roots@[i].id),
            result.1.name@ == "FbxScene"@,
            entity_views(result.1.roots@, result.1.roots@.len()) == spawned_all(
                objects_view(result.0.hierarchy@),
                meshes_view(self.meshes@),
                result.0.roots@,
                roots@.len(),
                Seq::<i64>::empty(),
            ),
    {
        broadcast use vstd::std_specs::hash::group_hash_axioms;

        let mut hierarchy: HashMap<i64, FbxObject<T>> = HashMap::new();
        let mut root_ids: Vec<i64> = Vec::new();
        assert(objects_view(hierarchy@) =~= Map::<i64, ObjectView<T>>::empty());
        let mut i: usize = 0;
        while i < roots.len()
            invariant
                i <= roots@.len(),
                root_ids@ == Seq::new(i as nat, |j: int| roots@[j].id),
                objects_view(hierarchy@) == retain_forest(
                    roots@,
                    i as nat,
                    Map::<i64, ObjectView<T>>::empty(),
                ),
            decreases roots@.len() - i,
        {
            traverse_hierarchy(&roots[i], &mut hierarchy);
            root_ids.push(roots[i].id);
            i = i + 1;
            assert(root_ids@ =~= Seq::new(i as nat, |j: int| roots@[j].id));
        }
        let tree = spawn_scene(&root_ids, &hierarchy, &self.meshes);
        let scene = FbxScene {
            bevy_meshes: self.bevy_meshes,
            materials: self.materials,
            textures: self.textures,
            mesh_labels: self.mesh_labels,
            meshes: self.mesh_handles,
            hierarchy,
            roots: root_ids,
        };
        (scene, tree)
    }
}

impl MaterialLoader {
    /// A copy of the loader.
    pub fn duplicate(&self) -> (copy: MaterialLoader)
        ensures
            slot_names(copy.static_load@) == slot_names(self.static_load@),
            slot_names(copy.dynamic_load@) == slot_names(self.dynamic_load@),
    {
        MaterialLoader {
            static_load: clone_names(&self.static_load),
            dynamic_load: clone_names(&self.dynamic_load),
        }
    }
}

/// Copies a list of slot names.
pub fn clone_names(names: &Vec<String>) -> (copy: Vec<String>)
    ensures
        slot_names(copy@) == slot_names(names@),
{
    let mut copy: Vec<String> = Vec::new();
    let mut i: usize = 0;
    while i < names.len()
        invariant
            i <= names@.len(),
            copy@.len() == i,
            forall|j: int| 0 <= j < i ==> copy@[j]@ == names@[j]@,
        decreases names@.len() - i,
    {
        copy.push(names[i].clone());
        i = i + 1;
    }
    assert(slot_names(copy@) =~= slot_names(names@));
    copy
}

impl FbxLoader {
    /// The file extensions of the documents that the loader takes.
    pub fn extensions(&self) -> (extensions: Vec<&'static str>)
        ensures
            extensions@.len() == 1,
            extensions@[0]@ == "fbx"@,
    {
        let mut extensions: Vec<&'static str> = Vec::new();
        extensions.push("fbx");
        extensions
    }

    /// A fresh loader for the document at `document_path`, with the
    /// material loaders of the host.
    pub fn new_loader(&self, document_path: String) -> (loader: Loader)
        ensures
            self.configures(loader),
            loader.document_path == document_path,
            loader.supported_compressed_formats == self.supported,
    {
        let mut loaders: Vec<MaterialLoader> = Vec::new();
        let mut i: usize = 0;
        while i < self.material_loaders.len()
            invariant
                i <= self.material_loaders@.len(),
                loaders@.len() == i,
                forall|j: int|
                    0 <= j < i ==> {
                        &&& slot_names((#[trigger] loaders@[j]).static_load@) == slot_names(
                            self.material_loaders@[j].static_load@,
                        )
                        &&& slot_names(loaders@[j].dynamic_load@) == slot_names(
                            self.material_loaders@[j].dynamic_load@,
                        )
                    },
            decreases self.material_loaders@.len() - i,
        {
            loaders.push(self.material_loaders[i].duplicate());
            i = i + 1;
        }
        Loader::new(self.supported, loaders, document_path)
    }

    /// `loader` is a fresh loader as the host configured it: its caches are
    /// empty and its material loaders want the same slots, in the same
    /// order, as those of the host.
    pub open spec fn configures(self, loader: Loader) -> bool {
        &&& loader.bevy_meshes@.len() == 0
        &&& loader.materials@.len() == 0
        &&& loader.textures@.len() == 0
        &&& loader.mesh_labels@.len() == 0
        &&& loader.mesh_handles@ == Map::<i64, MeshHandle>::empty()
        &&& loader.meshes@ == Map::<i64, FbxMesh>::empty()
        &&& loader.material_loaders@.len() == self.material_loaders@.len()
        &&& forall|i: int|
            0 <= i < self.material_loaders@.len() ==> {
                &&& slot_names((#[trigger] loader.material_loaders@[i]).static_load@)
                    == slot_names(self.material_loaders@[i].static_load@)
                &&& slot_names(loader.material_loaders@[i].dynamic_load@) == slot_names(
                    self.material_loaders@[i].dynamic_load@,
                )
            }
    }

    /// Starts the load of the document at the asset path `document_path`,
    /// of which `parsed` is what the parser made of the file's bytes. For a
    /// document, a fresh loader is set up and handed out with it; a failure
    /// of the parser ends the load with its error.
    pub fn load(
        &self,
        parsed: Result<Document, ParseFailure>,
        document_path: String,
    ) -> (result: Result<(Document, Loader), FbxLoadingError>)
        ensures
            match parsed {
                Ok(document) => result matches Ok((opened, loader)) && {
                    &&& opened == document
                    &&& self.configures(loader)
                    &&& loader.document_path == document_path
                    &&& loader.supported_compressed_formats == self.supported
                },
                Err(failure) => result matches Err(e) && e == loading_error(failure),
            },
    {
        match document_from(parsed) {
            Ok(document) => Ok((document, self.new_loader(document_path))),
            Err(e) => Err(e),
        }
    }
}

} // verus!
