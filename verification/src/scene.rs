//! Assembly of the renderer-facing tree from the pruned hierarchy and the
//! meshes of a load.
//!
//! The tree is walked from the roots by following child ids through the
//! hierarchy. An id that the hierarchy lacks belongs to a pruned node and is
//! skipped together with everything below it: this is how pruning takes
//! visual effect.

use vstd::prelude::*;
use std::collections::HashMap;
use crate::data::{
    clone_name, meshes_view, objects_view, FbxMesh, FbxObject, MaterialHandle, MeshView,
    ObjectView, PrimitiveHandle,
};
use crate::label::name_text;

verus! {

/// Document units per renderer unit: the document counts in centimetres,
/// the renderer in metres. The root of the scene tree is scaled by the
/// document's own scale divided by this.
pub const UNITS_PER_RENDER_UNIT: u32 = 100;

/// One drawable part of a mesh: a primitive with its material.
pub struct MeshPart {
    /// The material the primitive is drawn with.
    pub material: MaterialHandle,
    /// The primitive.
    pub primitive: PrimitiveHandle,
    /// The name of the mesh.
    pub name: Option<String>,
}

/// What a mesh part holds.
pub ghost struct MeshPartView {
    pub material: MaterialHandle,
    pub primitive: PrimitiveHandle,
    pub name: Option<Seq<char>>,
}

impl View for MeshPart {
    type V = MeshPartView;

    open spec fn view(&self) -> MeshPartView {
        MeshPartView {
            material: self.material,
            primitive: self.primitive,
            name: name_text(self.name),
        }
    }
}

/// A node of the scene tree.
pub struct SceneEntity<T> {
    /// The id of the hierarchy node that this entity stands for.
    pub node: i64,
    /// The node's name.
    pub name: Option<String>,
    /// The node's transform relative to its parent.
    pub transform: T,
    /// The parts of the mesh at this node; they come before the children.
    pub parts: Vec<MeshPart>,
    /// The entities of the node's retained children, in document order.
    pub children: Vec<SceneEntity<T>>,
}

/// What a node of the scene tree holds.
pub ghost struct EntityView<T> {
    pub node: i64,
    pub name: Option<Seq<char>>,
    pub transform: T,
    pub parts: Seq<MeshPartView>,
    pub children: Seq<EntityView<T>>,
}

impl<T> SceneEntity<T> {
    /// The entity with all that lies below it.
    pub open spec fn view(self) -> EntityView<T>
        decreases self, 0nat,
    {
        EntityView {
            node: self.node,
            name: name_text(self.name),
            transform: self.transform,
            parts: part_views(self.parts@),
            children: entity_views(self.children@, self.children@.len()),
        }
    }
}

/// The views of a list of mesh parts.
pub open spec fn part_views(parts: Seq<MeshPart>) -> Seq<MeshPartView> {
    Seq::new(parts.len(), |i: int| parts[i]@)
}

/// The views of the first `count` of a list of entities.
pub open spec fn entity_views<T>(entities: Seq<SceneEntity<T>>, count: nat) -> Seq<EntityView<T>>
    decreases entities, count,
{
    if count == 0 || count > entities.len() {
        Seq::empty()
    } else {
        entity_views(entities, (count - 1) as nat).push(entities[count - 1].view())
    }
}

/// The view of an entity that may be absent.
pub open spec fn entity_view_opt<T>(entity: Option<SceneEntity<T>>) -> Option<EntityView<T>> {
    match entity {
        Some(e) => Some(e.view()),
        None => None,
    }
}

/// The scene tree of a load.
pub struct SceneTree<T> {
    /// The name of the tree's root.
    pub name: String,
    /// The entities of the document's roots.
    pub roots: Vec<SceneEntity<T>>,
}

/// The parts of a mesh: its materials paired with its primitives, in order,
/// as far as both lists go. Each part bears the name of the mesh.
pub open spec fn mesh_parts(mesh: MeshView) -> Seq<MeshPartView> {
    Seq::new(
        if mesh.materials.len() <= mesh.primitives.len() {
            mesh.materials.len()
        } else {
            mesh.primitives.len()
        },
        |i: int|
            MeshPartView {
                material: mesh.materials[i],
                primitive: mesh.primitives[i],
                name: mesh.name,
            },
    )
}

/// The parts of the mesh at node `id`; none where the node has no mesh.
pub open spec fn node_parts(models: Map<i64, MeshView>, id: i64) -> Seq<MeshPartView> {
    if models.dom().contains(id) {
        mesh_parts(models[id])
    } else {
        Seq::empty()
    }
}

/// How many more nodes a walk that has come down the path `ancestors` can
/// still enter: as many as the hierarchy has nodes beyond the length of the
/// path.
pub open spec fn room<T>(hierarchy: Map<i64, ObjectView<T>>, ancestors: Seq<i64>) -> nat {
    if ancestors.len() < hierarchy.dom().len() {
        (hierarchy.dom().len() - ancestors.len()) as nat
    } else {
        0
    }
}

/// The entity of node `id`, reached down the path `ancestors`. There is
/// none where the hierarchy lacks the id, and none where the node is its own
/// ancestor: a cycle ends the walk. (Nor is there one where the walk has no
/// room left, which cannot happen on a path that a walk from the roots has
/// come down: see `lemma_walk_has_room`.)
pub open spec fn spawned<T>(
    hierarchy: Map<i64, ObjectView<T>>,
    models: Map<i64, MeshView>,
    id: i64,
    ancestors: Seq<i64>,
) -> Option<EntityView<T>>
    decreases room(hierarchy, ancestors), 0nat,
{
    if !hierarchy.dom().contains(id) || ancestors.contains(id) || room(hierarchy, ancestors) == 0 {
        None
    } else {
        Some(
            EntityView {
                node: id,
                name: hierarchy[id].name,
                transform: hierarchy[id].transform,
                parts: node_parts(models, id),
                children: spawned_all(
                    hierarchy,
                    models,
                    hierarchy[id].children,
                    hierarchy[id].children.len(),
                    ancestors.push(id),
                ),
            },
        )
    }
}

/// The entities of the first `count` of `ids`, in order, without those that
/// have none, all reached down the path `ancestors`.
pub open spec fn spawned_all<T>(
    hierarchy: Map<i64, ObjectView<T>>,
    models: Map<i64, MeshView>,
    ids: Seq<i64>,
    count: nat,
    ancestors: Seq<i64>,
) -> Seq<EntityView<T>>
    decreases room(hierarchy, ancestors), count + 1,
{
    if count == 0 || count > ids.len() {
        Seq::empty()
    } else {
        let before = spawned_all(hierarchy, models, ids, (count - 1) as nat, ancestors);
        match spawned(hierarchy, models, ids[count - 1], ancestors) {
            Some(entity) => before.push(entity),
            None => before,
        }
    }
}

/// A path of distinct nodes of the hierarchy.
pub open spec fn walked_path<T>(hierarchy: Map<i64, ObjectView<T>>, ancestors: Seq<i64>) -> bool {
    &&& hierarchy.dom().finite()
    &&& ancestors.no_duplicates()
    &&& forall|i: int| 0 <= i < ancestors.len() ==> hierarchy.dom().contains(ancestors[i])
}

/// A walk never runs out of room. On a path of distinct nodes of the
/// hierarchy, a further node of the hierarchy that is not on the path can
/// always be entered, and the path with that node is again such a path. So
/// on a walk from the roots, an entity is left out only because the
/// hierarchy lacks its node or because the node is its own ancestor.
pub proof fn lemma_walk_has_room<T>(
    hierarchy: Map<i64, ObjectView<T>>,
    ancestors: Seq<i64>,
    id: i64,
)
    requires
        walked_path(hierarchy, ancestors),
        hierarchy.dom().contains(id),
        !ancestors.contains(id),
    ensures
        room(hierarchy, ancestors) > 0,
        walked_path(hierarchy, ancestors.push(id)),
{
    let longer = ancestors.push(id);
    assert(longer.no_duplicates()) by {
        assert forall|i: int, j: int| 0 <= i < longer.len() && 0 <= j < longer.len() && i
            != j implies longer[i] != longer[j] by {
            if i < ancestors.len() {
                assert(ancestors.contains(ancestors[i]));
            }
            if j < ancestors.len() {
                assert(ancestors.contains(ancestors[j]));
            }
        }
    }
    longer.unique_seq_to_set();
    assert(longer.to_set().subset_of(hierarchy.dom())) by {
        assert forall|x: i64| longer.to_set().contains(x) implies hierarchy.dom().contains(x) by {
            let i = choose|i: int| 0 <= i < longer.len() && longer[i] == x;
            if i < ancestors.len() {
                assert(longer[i] == ancestors[i]);
            }
        }
    }
    vstd::set_lib::lemma_len_subset(longer.to_set(), hierarchy.dom());
}

/// Pairs the materials of a mesh with its primitives.
pub fn spawn_mesh_parts(mesh: &FbxMesh) -> (parts: Vec<MeshPart>)
    ensures
        part_views(parts@) == mesh_parts(mesh@),
{
    let mut parts: Vec<MeshPart> = Vec::new();
    let mut i: usize = 0;
    while i < mesh.materials.len() && i < mesh.bevy_mesh_handles.len()
        invariant
            i <= mesh.materials@.len(),
            i <= mesh.bevy_mesh_handles@.len(),
            parts@.len() == i,
            forall|j: int|
                0 <= j < i ==> (#[trigger] parts@[j])@ == (MeshPartView {
                    material: mesh.materials@[j],
                    primitive: mesh.bevy_mesh_handles@[j],
                    name: name_text(mesh.name),
                }),
        decreases mesh.materials@.len() - i,
    {
        parts.push(
            MeshPart {
                material: mesh.materials[i],
                primitive: mesh.bevy_mesh_handles[i],
                name: clone_name(&mesh.name),
            },
        );
        i = i + 1;
    }
    assert(part_views(parts@) =~= mesh_parts(mesh@));
    parts
}

/// Whether `id` is among `ids`.
pub fn contains_id(ids: &Vec<i64>, id: i64) -> (found: bool)
    ensures
        found == ids@.contains(id),
{
    let mut i: usize = 0;
    while i < ids.len()
        invariant
            i <= ids@.len(),
            forall|j: int| 0 <= j < i ==> ids@[j] != id,
        decreases ids@.len() - i,
    {
        if ids[i] == id {
            return true;
        }
        i = i + 1;
    }
    false
}

/// Builds the entity of node `current` with all that lies below it.
/// `ancestors` is the path down which the walk has reached the node; it is
/// the same after the call as before.
pub fn spawn_scene_rec<T: Copy>(
    current: i64,
    hierarchy: &HashMap<i64, FbxObject<T>>,
    models: &HashMap<i64, FbxMesh>,
    ancestors: &mut Vec<i64>,
) -> (entity: Option<SceneEntity<T>>)
    ensures
        final(ancestors)@ == old(ancestors)@,
        entity_view_opt(entity) == spawned(
            objects_view(hierarchy@),
            meshes_view(models@),
            current,
            old(ancestors)@,
        ),
    decreases room(objects_view(hierarchy@), old(ancestors)@), 0nat,
{
    broadcast use vstd::std_specs::hash::group_hash_axioms;

    assert(objects_view(hierarchy@).dom() =~= hierarchy@.dom());
    let current_node = match hierarchy.get(&current) {
        Some(node) => node,
        None => {
            return None;
        },
    };
    if contains_id(ancestors, current) || ancestors.len() >= hierarchy.len() {
        return None;
    }
    let parts = match models.get(&current) {
        Some(mesh) => spawn_mesh_parts(mesh),
        None => {
            let none: Vec<MeshPart> = Vec::new();
            assert(part_views(none@) =~= Seq::<MeshPartView>::empty());
            none
        },
    };
    ancestors.push(current);
    let children = spawn_children(&current_node.children, hierarchy, models, ancestors);
    ancestors.pop();
    assert(ancestors@ =~= old(ancestors)@);
    Some(
        SceneEntity {
            node: current,
            name: clone_name(&current_node.name),
            transform: current_node.transform,
            parts,
            children,
        },
    )
}

/// Builds the entities of the nodes `ids`, in order, skipping those that
/// have none. `ancestors` is the path down which the walk has reached the
/// parent of these nodes, the parent included; it is the same after the call
/// as before.
pub fn spawn_children<T: Copy>(
    ids: &Vec<i64>,
    hierarchy: &HashMap<i64, FbxObject<T>>,
    models: &HashMap<i64, FbxMesh>,
    ancestors: &mut Vec<i64>,
) -> (entities: Vec<SceneEntity<T>>)
    ensures
        final(ancestors)@ == old(ancestors)@,
        entity_views(entities@, entities@.len()) == spawned_all(
            objects_view(hierarchy@),
            meshes_view(models@),
            ids@,
            ids@.len(),
            old(ancestors)@,
        ),
    decreases room(objects_view(hierarchy@), old(ancestors)@), ids@.len() + 1,
{
    let mut entities: Vec<SceneEntity<T>> = Vec::new();
    let mut i: usize = 0;
    while i < ids.len()
        invariant
            i <= ids@.len(),
            ancestors@ == old(ancestors)@,
            entity_views(entities@, entities@.len()) == spawned_all(
                objects_view(hierarchy@),
                meshes_view(models@),
                ids@,
                i as nat,
                old(ancestors)@,
            ),
        decreases ids@.len() - i,
    {
        let ghost before = entities@;
        match spawn_scene_rec(ids[i], hierarchy, models, ancestors) {
            Some(entity) => {
                entities.push(entity);
                proof {
                    lemma_entity_views_prefix(entities@, before.len());
                    assert(entities@.take(before.len() as int) =~= before);
                }
            },
            None => {},
        }
        i = i + 1;
    }
    entities
}

/// The views of the first `count` entities do not depend on what follows
/// them in the list.
pub proof fn lemma_entity_views_prefix<T>(entities: Seq<SceneEntity<T>>, count: nat)
    requires
        count <= entities.len(),
    ensures
        entity_views(entities, count) == entity_views(entities.take(count as int), count),
    decreases count,
{
    if count > 0 {
        lemma_entity_views_prefix(entities, (count - 1) as nat);
        lemma_entity_views_prefix(entities.take(count as int), (count - 1) as nat);
        assert(entities.take(count as int).take(count - 1) =~= entities.take(count - 1));
    }
}

/// Builds the scene tree: under a root named `FbxScene`, the entity of
/// every root of the document that the hierarchy holds, with all that lies
/// below it.
pub fn spawn_scene<T: Copy>(
    roots: &Vec<i64>,
    hierarchy: &HashMap<i64, FbxObject<T>>,
    models: &HashMap<i64, FbxMesh>,
) -> (tree: SceneTree<T>)
    ensures
        tree.name@ == "FbxScene"@,
        entity_views(tree.roots@, tree.roots@.len()) == spawned_all(
            objects_view(hierarchy@),
            meshes_view(models@),
            roots@,
            roots@.len(),
            Seq::<i64>::empty(),
        ),
{
    let mut ancestors: Vec<i64> = Vec::new();
    let entities = spawn_children(roots, hierarchy, models, &mut ancestors);
    SceneTree { name: String::from_str("FbxScene"), roots: entities }
}

} // verus!
