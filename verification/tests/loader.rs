use bevy::image::CompressedImageFormats;
use bevy_mod_fbx::data::{MaterialHandle, MeshHandle, PrimitiveHandle, TextureHandle};
use bevy_mod_fbx::error::FbxLoadingError;
use bevy_mod_fbx::hierarchy::ModelNode;
use bevy_mod_fbx::loader::{FbxLoader, Loader, MaterialLookup, MeshObject};
use bevy_mod_fbx::material::{
    chain_advance, chain_start, ChainState, MaterialLoader, MaterialObject,
};
use bevy_mod_fbx::mesh::{Layer, TriangleVertices, TriangulatedGeometry};

type Geometry = TriangulatedGeometry<[i32; 3], [i32; 2]>;

fn triangle(name: Option<&str>, id: i64, materials: Option<Vec<u32>>) -> Geometry {
    TriangulatedGeometry {
        name: name.map(|n| n.to_string()),
        id,
        polygons: Some(TriangleVertices {
            control_points: vec![[0, 0, 0], [1, 0, 0], [0, 1, 0]],
            control_point_indices: vec![Some(0), Some(1), Some(2)],
        }),
        layer: Some(Layer {
            normals: Some(vec![[0, 0, 1]; 3]),
            uvs: Some(vec![[0, 0], [1, 0], [0, 1]]),
            materials,
        }),
    }
}

fn mesh_object(name: Option<&str>, id: i64, geometry: Option<Geometry>) -> MeshObject<[i32; 3], [i32; 2]> {
    MeshObject { name: name.map(|n| n.to_string()), id, geometry }
}

fn node(id: i64, subclass: &str, children: Vec<ModelNode<u8>>) -> ModelNode<u8> {
    ModelNode {
        id,
        name: Some(format!("n{id}")),
        subclass: subclass.to_string(),
        transform: id as u8,
        children,
    }
}

fn material(name: &str, id: i64) -> MaterialObject {
    MaterialObject { name: Some(name.to_string()), id, textures: vec![] }
}

fn new_loader() -> Loader {
    Loader::new(CompressedImageFormats::NONE, vec![], "models/scene.fbx".to_string())
}

fn resolve(loader: &mut Loader, material: &MaterialObject, outcomes: &[bool], runs: &mut usize) -> Result<MaterialHandle, FbxLoadingError> {
    match loader.load_material(material) {
        MaterialLookup::Cached(handle) => Ok(handle),
        MaterialLookup::Load(label) => {
            let mut state = chain_start(outcomes.len());
            while let ChainState::Try(i) = state {
                *runs += 1;
                state = chain_advance(state, outcomes.len(), outcomes[i]);
            }
            loader.finish_material(label, state)
        }
    }
}

#[test]
fn one_mesh_without_materials_gets_the_default_material() {
    let mut loader = new_loader();
    let (mesh, buffers) = loader
        .load_mesh(mesh_object(Some("Tri"), 2, Some(triangle(Some("TriGeo"), 3, None))), vec![])
        .unwrap();
    assert_eq!(mesh.name.as_deref(), Some("Tri"));
    assert_eq!(mesh.bevy_mesh_handles, vec![PrimitiveHandle(0)]);
    assert_eq!(mesh.materials, vec![MaterialHandle::Default]);
    assert_eq!(buffers.primitives, vec![vec![0, 1, 2]]);
    assert_eq!(loader.bevy_meshes.label(0), "FbxMesh@TriGeo/Primitive0");
    assert_eq!(loader.mesh_labels.label(0), "FbxMesh@Tri");

    let roots = vec![node(1, "Null", vec![node(2, "Mesh", vec![])])];
    let (scene, tree) = loader.load(&roots);
    assert_eq!(scene.roots, vec![1]);
    assert_eq!(scene.hierarchy.len(), 2);
    assert_eq!(scene.meshes.get(&2), Some(&MeshHandle(0)));
    assert_eq!(scene.meshes.len(), 1);
    assert_eq!(scene.bevy_meshes.len(), 1);
    assert_eq!(scene.materials.len(), 0);
    assert_eq!(tree.name, "FbxScene");
    assert_eq!(tree.roots.len(), 1);
    assert_eq!(tree.roots[0].node, 1);
    assert_eq!(tree.roots[0].transform, 1);
    assert!(tree.roots[0].parts.is_empty());
    let child = &tree.roots[0].children[0];
    assert_eq!(child.node, 2);
    assert_eq!(child.parts.len(), 1);
    assert_eq!(child.parts[0].material, MaterialHandle::Default);
    assert_eq!(child.parts[0].primitive, PrimitiveHandle(0));
    assert_eq!(child.parts[0].name.as_deref(), Some("Tri"));
}

#[test]
fn a_limb_between_root_and_mesh_is_kept() {
    let roots = vec![node(
        1,
        "Null",
        vec![node(2, "LimbNode", vec![node(3, "Mesh", vec![])]), node(4, "LimbNode", vec![])],
    )];
    let (scene, tree) = new_loader().load(&roots);
    let mut kept: Vec<i64> = scene.hierarchy.keys().copied().collect();
    kept.sort();
    assert_eq!(kept, vec![1, 2, 3]);
    assert_eq!(scene.hierarchy[&1].children, vec![2, 4]);
    assert_eq!(scene.hierarchy[&2].children, vec![3]);
    assert_eq!(scene.hierarchy[&2].name.as_deref(), Some("n2"));
    assert_eq!(tree.roots[0].children.len(), 1);
    assert_eq!(tree.roots[0].children[0].node, 2);
    assert_eq!(tree.roots[0].children[0].children[0].node, 3);
}

#[test]
fn two_meshes_share_one_material() {
    let mut loader = new_loader();
    let shared = material("Bark", 40);
    let mut runs = 0;
    let first = resolve(&mut loader, &shared, &[false, true], &mut runs).unwrap();
    assert_eq!(runs, 2);
    let (a, _) = loader
        .load_mesh(mesh_object(Some("A"), 2, Some(triangle(None, 12, Some(vec![0, 0, 0])))), vec![first])
        .unwrap();
    let second = resolve(&mut loader, &shared, &[false, true], &mut runs).unwrap();
    assert_eq!(runs, 2);
    let (b, _) = loader
        .load_mesh(mesh_object(Some("B"), 3, Some(triangle(None, 13, Some(vec![0, 0, 0])))), vec![second])
        .unwrap();
    assert_eq!(first, MaterialHandle::Cached(0));
    assert_eq!(a.materials, b.materials);
    assert_eq!(a.materials, vec![MaterialHandle::Cached(0)]);
    assert_ne!(a.bevy_mesh_handles, b.bevy_mesh_handles);
    assert_eq!(loader.materials.len(), 1);
    assert_eq!(loader.materials.label(0), "FbxMaterial@Bark");
}

#[test]
fn the_same_material_twice_gives_the_same_handle() {
    let mut loader = new_loader();
    let mut runs = 0;
    let a = resolve(&mut loader, &material("A", 1), &[true], &mut runs).unwrap();
    let b = resolve(&mut loader, &material("B", 2), &[true], &mut runs).unwrap();
    let again = resolve(&mut loader, &material("A", 1), &[true], &mut runs).unwrap();
    assert_eq!(a, MaterialHandle::Cached(0));
    assert_eq!(b, MaterialHandle::Cached(1));
    assert_eq!(again, a);
    assert_eq!(runs, 2);
    assert_eq!(loader.materials.len(), 2);
}

#[test]
fn materials_with_one_name_are_one_material() {
    let mut loader = new_loader();
    let mut runs = 0;
    let a = resolve(&mut loader, &material("Same", 1), &[true], &mut runs).unwrap();
    let b = resolve(&mut loader, &material("Same", 2), &[true], &mut runs).unwrap();
    assert_eq!(a, b);
    assert_eq!(runs, 1);
}

#[test]
fn no_loader_builds_the_material() {
    let mut loader = new_loader();
    let mut runs = 0;
    let result = resolve(&mut loader, &material("A", 1), &[false, false, false], &mut runs);
    assert_eq!(result, Err(FbxLoadingError::NoMaterialLoaderSucceeded));
    assert_eq!(runs, 3);
    assert_eq!(loader.materials.len(), 0);
    let none = resolve(&mut loader, &material("A", 1), &[], &mut runs);
    assert_eq!(none, Err(FbxLoadingError::NoMaterialLoaderSucceeded));
}

#[test]
fn a_chain_that_has_built_nothing_registers_nothing() {
    let mut loader = new_loader();
    let trying = loader.finish_material("FbxMaterial@A".to_string(), ChainState::Try(0));
    assert_eq!(trying, Err(FbxLoadingError::NoMaterialLoaderSucceeded));
    let exhausted = loader.finish_material("FbxMaterial@A".to_string(), ChainState::Exhausted);
    assert_eq!(exhausted, Err(FbxLoadingError::NoMaterialLoaderSucceeded));
    assert_eq!(loader.materials.len(), 0);
    let built = loader.finish_material("FbxMaterial@A".to_string(), ChainState::Built(1));
    assert_eq!(built, Ok(MaterialHandle::Cached(0)));
    assert_eq!(loader.materials.len(), 1);
}

#[test]
fn registering_primitives_adds_one_label_per_slot_and_no_other() {
    let mut loader = new_loader();
    loader.load_bevy_mesh(triangle(Some("Cube"), 1, Some(vec![0, 1, 1])), 2).unwrap();
    assert_eq!(loader.bevy_meshes.len(), 2);
    assert_eq!(loader.bevy_meshes.label(0), "FbxMesh@Cube/Primitive0");
    assert_eq!(loader.bevy_meshes.label(1), "FbxMesh@Cube/Primitive1");
    loader.load_bevy_mesh(triangle(Some("Cube"), 1, Some(vec![0, 0, 0])), 3).unwrap();
    assert_eq!(loader.bevy_meshes.len(), 3);
    assert_eq!(loader.bevy_meshes.label(2), "FbxMesh@Cube/Primitive2");
    assert_eq!(loader.mesh_labels.len(), 0);
    assert_eq!(loader.materials.len(), 0);
    assert_eq!(loader.textures.len(), 0);
}

#[test]
fn primitives_match_materials_in_number() {
    let mut loader = new_loader();
    let materials =
        vec![MaterialHandle::Cached(0), MaterialHandle::Cached(1), MaterialHandle::Cached(0)];
    let (mesh, buffers) = loader
        .load_mesh(
            mesh_object(None, 5, Some(triangle(Some(""), 6, Some(vec![2, 0, 2])))),
            materials.clone(),
        )
        .unwrap();
    assert_eq!(mesh.materials, materials);
    assert_eq!(
        mesh.bevy_mesh_handles,
        vec![PrimitiveHandle(0), PrimitiveHandle(1), PrimitiveHandle(2)]
    );
    assert_eq!(buffers.primitives, vec![vec![1], vec![], vec![0, 2]]);
    assert_eq!(loader.bevy_meshes.label(2), "FbxMesh6/Primitive2");
    assert_eq!(loader.mesh_labels.label(0), "FbxMesh5");
}

#[test]
fn mesh_without_geometry_fails_and_registers_nothing() {
    let mut loader = new_loader();
    let result = loader.load_mesh(mesh_object(Some("A"), 2, None), vec![]);
    assert_eq!(result.err(), Some(FbxLoadingError::MissingGeometryData));
    assert_eq!(loader.bevy_meshes.len(), 0);
    assert_eq!(loader.mesh_labels.len(), 0);
    assert!(loader.meshes.is_empty());
    assert!(loader.mesh_handles.is_empty());
}

#[test]
fn bad_material_slot_fails_the_mesh() {
    let mut loader = new_loader();
    let result = loader.load_mesh(
        mesh_object(Some("A"), 2, Some(triangle(None, 3, Some(vec![0, 1, 0])))),
        vec![MaterialHandle::Cached(0)],
    );
    assert_eq!(
        result.err(),
        Some(FbxLoadingError::MaterialSlotOutOfRange { num_materials: 1, got: 1 })
    );
    assert_eq!(loader.bevy_meshes.len(), 0);
    assert!(loader.meshes.is_empty());
}

#[test]
fn instanced_geometry_shares_its_primitives() {
    let mut loader = new_loader();
    let (a, _) = loader
        .load_mesh(mesh_object(Some("A"), 2, Some(triangle(Some("Geo"), 9, None))), vec![])
        .unwrap();
    let (b, _) = loader
        .load_mesh(mesh_object(Some("B"), 3, Some(triangle(Some("Geo"), 9, None))), vec![])
        .unwrap();
    assert_eq!(a.bevy_mesh_handles, b.bevy_mesh_handles);
    assert_eq!(loader.bevy_meshes.len(), 1);
    assert_eq!(loader.mesh_labels.len(), 2);
    assert_eq!(loader.mesh_handles.get(&3), Some(&MeshHandle(1)));
}

#[test]
fn load_bevy_mesh_registers_one_primitive_per_slot() {
    let mut loader = new_loader();
    let (buffers, handles) =
        loader.load_bevy_mesh(triangle(Some("G"), 1, Some(vec![1, 1, 0])), 2).unwrap();
    assert_eq!(handles, vec![PrimitiveHandle(0), PrimitiveHandle(1)]);
    assert_eq!(buffers.label, "FbxMesh@G");
    assert_eq!(loader.bevy_meshes.label(0), "FbxMesh@G/Primitive0");
    assert_eq!(loader.bevy_meshes.label(1), "FbxMesh@G/Primitive1");
    let failed = loader.load_bevy_mesh(triangle(Some("H"), 2, None), 1);
    assert_eq!(failed.err(), Some(FbxLoadingError::MissingGeometryData));
    assert_eq!(loader.bevy_meshes.len(), 2);
}

#[test]
fn textures_are_cached_by_label() {
    let mut loader = new_loader();
    assert_eq!(loader.lookup_texture("FbxTexture@Wood"), None);
    assert_eq!(loader.register_texture("FbxTexture@Wood".to_string()), TextureHandle(0));
    assert_eq!(loader.register_texture("FbxTexture7".to_string()), TextureHandle(1));
    assert_eq!(loader.lookup_texture("FbxTexture@Wood"), Some(TextureHandle(0)));
    assert_eq!(loader.register_texture("FbxTexture@Wood".to_string()), TextureHandle(0));
    assert_eq!(loader.textures.len(), 2);
}

#[test]
fn several_roots_are_walked_in_order() {
    let roots = vec![
        node(1, "Mesh", vec![]),
        node(2, "Null", vec![]),
        node(3, "Null", vec![node(4, "Mesh", vec![])]),
    ];
    let (scene, tree) = new_loader().load(&roots);
    assert_eq!(scene.roots, vec![1, 2, 3]);
    let mut kept: Vec<i64> = scene.hierarchy.keys().copied().collect();
    kept.sort();
    assert_eq!(kept, vec![1, 3, 4]);
    let spawned: Vec<i64> = tree.roots.iter().map(|e| e.node).collect();
    assert_eq!(spawned, vec![1, 3]);
}

#[test]
fn an_empty_document_gives_an_empty_scene() {
    let roots: Vec<ModelNode<u8>> = vec![];
    let (scene, tree) = new_loader().load(&roots);
    assert!(scene.roots.is_empty());
    assert!(scene.hierarchy.is_empty());
    assert!(tree.roots.is_empty());
}

#[test]
fn only_fbx_files_are_taken() {
    let loader = FbxLoader { supported: CompressedImageFormats::NONE, material_loaders: vec![] };
    assert_eq!(loader.extensions(), vec!["fbx"]);
}

#[test]
fn a_new_loader_has_the_hosts_material_loaders() {
    let host = FbxLoader {
        supported: CompressedImageFormats::all(),
        material_loaders: vec![
            MaterialLoader { static_load: vec!["A".to_string()], dynamic_load: vec![] },
            MaterialLoader { static_load: vec![], dynamic_load: vec!["B".to_string()] },
        ],
    };
    let loader = host.new_loader("a/scene.fbx".to_string());
    assert_eq!(loader.document_path, "a/scene.fbx");
    assert_eq!(loader.material_loaders.len(), 2);
    assert_eq!(loader.material_loaders[0].static_load, vec!["A".to_string()]);
    assert_eq!(loader.material_loaders[1].dynamic_load, vec!["B".to_string()]);
    assert_eq!(loader.materials.len(), 0);
    assert_eq!(loader.textures.len(), 0);
    assert_eq!(loader.bevy_meshes.len(), 0);
    assert_eq!(loader.mesh_labels.len(), 0);
    assert_eq!(loader.supported_compressed_formats, CompressedImageFormats::all());
}
