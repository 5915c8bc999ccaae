//! Pruning of the document's node tree.
//!
//! A node is kept where it is a mesh or an ancestor of one. One post-order
//! walk decides this for every node and fills the hierarchy on the way.

use vstd::prelude::*;
use std::collections::HashMap;
use crate::data::{clone_name, objects_view, FbxObject, ObjectView};
use crate::label::name_text;

verus! {

/// A node of the document's model tree.
pub struct ModelNode<T> {
    /// The node's id.
    pub id: i64,
    /// The node's name.
    pub name: Option<String>,
    /// The node's subclass; a mesh has `Mesh`.
    pub subclass: String,
    /// The node's transform relative to its parent.
    pub transform: T,
    /// The node's children, in document order.
    pub children: Vec<ModelNode<T>>,
}

impl<T> ModelNode<T> {
    /// The node is itself mesh geometry.
    pub open spec fn is_mesh(self) -> bool {
        self.subclass@ == "Mesh"@
    }

    /// The node is a mesh or has a mesh among its descendants.
    pub open spec fn mesh_bearing(self) -> bool
        decreases self,
    {
        self.is_mesh() || exists|i: int|
            0 <= i < self.children@.len() && (#[trigger] self.children@[i]).mesh_bearing()
    }

    /// The ids of the node's children, all of them, in document order.
    pub open spec fn child_ids(self) -> Seq<i64> {
        Seq::new(self.children@.len(), |i: int| self.children@[i].id)
    }

    /// What the hierarchy holds for this node where it is kept.
    pub open spec fn object(self) -> ObjectView<T> {
        ObjectView {
            name: name_text(self.name),
            transform: self.transform,
            children: self.child_ids(),
        }
    }

    /// The hierarchy after the walk of this node's subtree, started on
    /// `hierarchy`: the subtrees of the children are walked first, in
    /// order, then the node is entered if it is mesh-bearing.
    pub open spec fn retain_into(self, hierarchy: Map<i64, ObjectView<T>>) -> Map<
        i64,
        ObjectView<T>,
    >
        decreases self, 0nat,
    {
        let below = retain_forest(self.children@, self.children@.len(), hierarchy);
        if self.mesh_bearing() {
            below.insert(self.id, self.object())
        } else {
            below
        }
    }

    /// Some mesh-bearing node of this node's subtree has the id `id`.
    pub open spec fn retains(self, id: i64) -> bool
        decreases self,
    {
        (self.id == id && self.mesh_bearing()) || exists|i: int|
            0 <= i < self.children@.len() && (#[trigger] self.children@[i]).retains(id)
    }

    /// The node `other` lies in this node's subtree.
    pub open spec fn contains_node(self, other: ModelNode<T>) -> bool
        decreases self,
    {
        self == other || exists|i: int|
            0 <= i < self.children@.len() && (#[trigger] self.children@[i]).contains_node(other)
    }
}

/// The hierarchy after the walks of the first `count` trees of `nodes`, in
/// order, started on `hierarchy`.
pub open spec fn retain_forest<T>(
    nodes: Seq<ModelNode<T>>,
    count: nat,
    hierarchy: Map<i64, ObjectView<T>>,
) -> Map<i64, ObjectView<T>>
    decreases nodes, count,
{
    if count == 0 || count > nodes.len() {
        hierarchy
    } else {
        nodes[count - 1].retain_into(retain_forest(nodes, (count - 1) as nat, hierarchy))
    }
}

/// The ids in the hierarchy after the walk of a subtree are those it started
/// with and those of the mesh-bearing nodes of the subtree, and no others.
pub proof fn lemma_retained_ids<T>(node: ModelNode<T>, hierarchy: Map<i64, ObjectView<T>>, id: i64)
    ensures
        node.retain_into(hierarchy).dom().contains(id) <==> hierarchy.dom().contains(id)
            || node.retains(id),
    decreases node, 0nat,
{
    lemma_retained_forest_ids(node.children@, node.children@.len(), hierarchy, id);
}

/// The ids in the hierarchy after the walks of the first `count` trees are
/// those it started with and those of the mesh-bearing nodes of these trees.
pub proof fn lemma_retained_forest_ids<T>(
    nodes: Seq<ModelNode<T>>,
    count: nat,
    hierarchy: Map<i64, ObjectView<T>>,
    id: i64,
)
    requires
        count <= nodes.len(),
    ensures
        retain_forest(nodes, count, hierarchy).dom().contains(id) <==> hierarchy.dom().contains(id)
            || exists|j: int| 0 <= j < count && (#[trigger] nodes[j]).retains(id),
    decreases nodes, count,
{
    if count > 0 {
        let before = retain_forest(nodes, (count - 1) as nat, hierarchy);
        lemma_retained_forest_ids(nodes, (count - 1) as nat, hierarchy, id);
        lemma_retained_ids(nodes[count - 1], before, id);
        if nodes[count - 1].retains(id) {
            assert(0 <= count - 1 < count && nodes[count - 1].retains(id));
        }
    }
}

/// Where a subtree retains an id, one of its mesh-bearing nodes has it.
pub proof fn lemma_retains_witness<T>(node: ModelNode<T>, id: i64) -> (kept: ModelNode<T>)
    requires
        node.retains(id),
    ensures
        node.contains_node(kept),
        kept.id == id,
        kept.mesh_bearing(),
    decreases node,
{
    if node.id == id && node.mesh_bearing() {
        node
    } else {
        let i = choose|i: int|
            0 <= i < node.children@.len() && (#[trigger] node.children@[i]).retains(id);
        let kept = lemma_retains_witness(node.children@[i], id);
        assert(node.children@[i].contains_node(kept));
        kept
    }
}

/// No two nodes of the tree have the same id.
pub open spec fn distinct_ids<T>(root: ModelNode<T>) -> bool {
    forall|a: ModelNode<T>, b: ModelNode<T>|
        #![trigger root.contains_node(a), root.contains_node(b)]
        root.contains_node(a) && root.contains_node(b) && a.id == b.id ==> a == b
}

/// The pruning law. In a tree whose nodes have distinct ids, a node that is
/// not a mesh and has no mesh among its descendants is absent from the
/// hierarchy that the walk of the tree builds.
pub proof fn lemma_pruning<T>(root: ModelNode<T>, node: ModelNode<T>)
    requires
        distinct_ids(root),
        root.contains_node(node),
        !node.mesh_bearing(),
    ensures
        !root.retain_into(Map::empty()).dom().contains(node.id),
{
    lemma_retained_ids(root, Map::empty(), node.id);
    if root.retains(node.id) {
        let kept = lemma_retains_witness(root, node.id);
        assert(root.contains_node(kept) && root.contains_node(node));
        assert(kept == node);
    }
}

/// The counterpart of the pruning law: every mesh-bearing node of the tree
/// is present in the hierarchy that the walk builds.
pub proof fn lemma_kept<T>(root: ModelNode<T>, node: ModelNode<T>)
    requires
        root.contains_node(node),
        node.mesh_bearing(),
    ensures
        root.retain_into(Map::empty()).dom().contains(node.id),
{
    lemma_retained_ids(root, Map::empty(), node.id);
    lemma_contained_is_retained(root, node);
}

/// A mesh-bearing node of a subtree has its id retained by the subtree.
pub proof fn lemma_contained_is_retained<T>(root: ModelNode<T>, node: ModelNode<T>)
    requires
        root.contains_node(node),
        node.mesh_bearing(),
    ensures
        root.retains(node.id),
    decreases root,
{
    if root != node {
        let i = choose|i: int|
            0 <= i < root.children@.len() && (#[trigger] root.children@[i]).contains_node(node);
        lemma_contained_is_retained(root.children@[i], node);
    }
}

/// A kept node is entered with the full list of its children: where the
/// root is mesh-bearing, the hierarchy holds for it its name, its transform
/// and the ids of all its children, kept or not.
pub proof fn lemma_root_entry<T>(root: ModelNode<T>, hierarchy: Map<i64, ObjectView<T>>)
    requires
        root.mesh_bearing(),
    ensures
        root.retain_into(hierarchy).dom().contains(root.id),
        root.retain_into(hierarchy)[root.id] == root.object(),
{
}

/// Walks the subtree of `node` and enters its mesh-bearing nodes into
/// `hierarchy`. Returns whether `node` itself is mesh-bearing.
pub fn traverse_hierarchy_rec<T: Copy>(
    node: &ModelNode<T>,
    hierarchy: &mut HashMap<i64, FbxObject<T>>,
) -> (mesh_leaf: bool)
    ensures
        mesh_leaf == node.mesh_bearing(),
        objects_view(final(hierarchy)@) == node.retain_into(objects_view(old(hierarchy)@)),
    decreases node,
{
    broadcast use vstd::std_specs::hash::group_hash_axioms;

    let mut mesh_leaf = false;
    let mut children: Vec<i64> = Vec::new();
    let mut i: usize = 0;
    while i < node.children.len()
        invariant
            i <= node.children@.len(),
            mesh_leaf == exists|j: int|
                0 <= j < i && (#[trigger] node.children@[j]).mesh_bearing(),
            children@ == Seq::new(i as nat, |j: int| node.children@[j].id),
            objects_view(hierarchy@) == retain_forest(
                node.children@,
                i as nat,
                objects_view(old(hierarchy)@),
            ),
        decreases node.children@.len() - i,
    {
        let child = &node.children[i];
        let child_leaf = traverse_hierarchy_rec(child, hierarchy);
        mesh_leaf = child_leaf || mesh_leaf;
        children.push(child.id);
        i = i + 1;
        assert(children@ =~= Seq::new(i as nat, |j: int| node.children@[j].id));
    }
    assert(children@ =~= node.child_ids());
    let mesh = String::from_str("Mesh");
    if node.subclass == mesh {
        mesh_leaf = true;
    }
    if mesh_leaf {
        let object = FbxObject {
            name: clone_name(&node.name),
            transform: node.transform,
            children,
        };
        let ghost before = hierarchy@;
        hierarchy.insert(node.id, object);
        assert(objects_view(hierarchy@) =~= objects_view(before).insert(node.id, node.object()));
    }
    mesh_leaf
}

/// Walks the tree under the root `node` and enters its mesh-bearing nodes
/// into `hierarchy`.
pub fn traverse_hierarchy<T: Copy>(node: &ModelNode<T>, hierarchy: &mut HashMap<i64, FbxObject<T>>)
    ensures
        objects_view(final(hierarchy)@) == node.retain_into(objects_view(old(hierarchy)@)),
{
    traverse_hierarchy_rec(node, hierarchy);
}

} // verus!
