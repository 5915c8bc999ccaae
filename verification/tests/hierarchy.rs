use std::collections::HashMap;

use bevy_mod_fbx::data::FbxObject;
use bevy_mod_fbx::hierarchy::{traverse_hierarchy, traverse_hierarchy_rec, ModelNode};

fn node(id: i64, subclass: &str, children: Vec<ModelNode<u32>>) -> ModelNode<u32> {
    ModelNode {
        id,
        name: Some(format!("node{id}")),
        subclass: subclass.to_string(),
        transform: (id as u32) * 10,
        children,
    }
}

#[test]
fn mesh_leaf_is_kept() {
    let mut hierarchy: HashMap<i64, FbxObject<u32>> = HashMap::new();
    assert!(traverse_hierarchy_rec(&node(1, "Mesh", vec![]), &mut hierarchy));
    assert_eq!(hierarchy.len(), 1);
    let object = &hierarchy[&1];
    assert_eq!(object.name.as_deref(), Some("node1"));
    assert_eq!(object.transform, 10);
    assert!(object.children.is_empty());
}

#[test]
fn node_without_mesh_is_pruned() {
    let mut hierarchy: HashMap<i64, FbxObject<u32>> = HashMap::new();
    let tree = node(1, "Null", vec![node(2, "LimbNode", vec![node(3, "Camera", vec![])])]);
    assert!(!traverse_hierarchy_rec(&tree, &mut hierarchy));
    assert!(hierarchy.is_empty());
}

#[test]
fn ancestors_of_a_mesh_are_kept() {
    let mut hierarchy: HashMap<i64, FbxObject<u32>> = HashMap::new();
    let tree = node(1, "Null", vec![node(2, "LimbNode", vec![node(3, "Mesh", vec![])])]);
    traverse_hierarchy(&tree, &mut hierarchy);
    assert_eq!(hierarchy.len(), 3);
    assert_eq!(hierarchy[&1].children, vec![2]);
    assert_eq!(hierarchy[&2].children, vec![3]);
    assert!(hierarchy[&3].children.is_empty());
    assert_eq!(hierarchy[&2].transform, 20);
}

#[test]
fn pruned_children_stay_in_the_child_list() {
    let mut hierarchy: HashMap<i64, FbxObject<u32>> = HashMap::new();
    let tree = node(
        1,
        "Null",
        vec![
            node(2, "LimbNode", vec![node(5, "Null", vec![])]),
            node(3, "Mesh", vec![node(6, "Light", vec![])]),
            node(4, "Camera", vec![]),
        ],
    );
    assert!(traverse_hierarchy_rec(&tree, &mut hierarchy));
    let mut kept: Vec<i64> = hierarchy.keys().copied().collect();
    kept.sort();
    assert_eq!(kept, vec![1, 3]);
    assert_eq!(hierarchy[&1].children, vec![2, 3, 4]);
    assert_eq!(hierarchy[&3].children, vec![6]);
}

#[test]
fn subclass_is_compared_exactly() {
    let mut hierarchy: HashMap<i64, FbxObject<u32>> = HashMap::new();
    assert!(!traverse_hierarchy_rec(&node(1, "mesh", vec![]), &mut hierarchy));
    assert!(!traverse_hierarchy_rec(&node(2, "Mesh ", vec![]), &mut hierarchy));
    assert!(!traverse_hierarchy_rec(&node(3, "", vec![]), &mut hierarchy));
    assert!(hierarchy.is_empty());
}

#[test]
fn earlier_entries_are_left_alone() {
    let mut hierarchy: HashMap<i64, FbxObject<u32>> = HashMap::new();
    traverse_hierarchy(&node(1, "Mesh", vec![]), &mut hierarchy);
    traverse_hierarchy(&node(2, "Null", vec![node(3, "Mesh", vec![])]), &mut hierarchy);
    traverse_hierarchy(&node(4, "Null", vec![]), &mut hierarchy);
    let mut kept: Vec<i64> = hierarchy.keys().copied().collect();
    kept.sort();
    assert_eq!(kept, vec![1, 2, 3]);
}

#[test]
fn a_node_without_a_name_has_none() {
    let mut hierarchy: HashMap<i64, FbxObject<u32>> = HashMap::new();
    let mut mesh = node(7, "Mesh", vec![]);
    mesh.name = None;
    traverse_hierarchy(&mesh, &mut hierarchy);
    assert_eq!(hierarchy[&7].name, None);
}
