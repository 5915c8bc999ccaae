//! The deterministic labels under which the assets of one load are
//! registered. Equal labels name the same asset, so every cache of a load
//! is keyed by them.

use vstd::prelude::*;
use vstd::string::*;
use crate::text::{
    decimal_digits, decimal_text, lemma_decimal_digits_injective, push_signed, push_text,
    push_unsigned,
};

verus! {

/// The label of an object with the given name and id under a prefix:
/// the prefix, `@` and the name where the name counts, else the prefix and
/// the id in decimal. An empty name counts only where `keep_empty` is set.
pub open spec fn object_label_text(
    prefix: Seq<char>,
    name: Option<Seq<char>>,
    id: int,
    keep_empty: bool,
) -> Seq<char> {
    match name {
        Some(n) if keep_empty || n.len() > 0 => prefix + seq!['@'] + n,
        _ => prefix + decimal_text(id),
    }
}

/// The view of an optional name.
pub open spec fn name_text(name: Option<String>) -> Option<Seq<char>> {
    match name {
        Some(n) => Some(n@),
        None => None,
    }
}

/// The label of a mesh node: a present name is used even when empty.
pub open spec fn mesh_label_text(name: Option<Seq<char>>, id: int) -> Seq<char> {
    object_label_text("FbxMesh"@, name, id, true)
}

/// The label of a geometry object, from which its primitives are named.
pub open spec fn geometry_label_text(name: Option<Seq<char>>, id: int) -> Seq<char> {
    object_label_text("FbxMesh"@, name, id, false)
}

/// The label of the primitive of one material slot of a mesh.
pub open spec fn primitive_label_text(mesh_label: Seq<char>, slot: nat) -> Seq<char> {
    mesh_label + "/Primitive"@ + decimal_digits(slot)
}

/// The labels of the primitives of the first `count` slots of a mesh, in
/// slot order.
pub open spec fn primitive_labels(mesh_label: Seq<char>, count: nat) -> Seq<Seq<char>> {
    Seq::new(count, |slot: int| primitive_label_text(mesh_label, slot as nat))
}

/// The primitives of two slots of one mesh have different labels.
pub proof fn lemma_primitive_labels_differ(mesh_label: Seq<char>, slot: nat, other: nat)
    requires
        slot != other,
    ensures
        primitive_label_text(mesh_label, slot) != primitive_label_text(mesh_label, other),
{
    let head = mesh_label + "/Primitive"@;
    let a = primitive_label_text(mesh_label, slot);
    let b = primitive_label_text(mesh_label, other);
    if a == b {
        assert(a.skip(head.len() as int) =~= decimal_digits(slot));
        assert(b.skip(head.len() as int) =~= decimal_digits(other));
        lemma_decimal_digits_injective(slot, other);
    }
}

/// The label of a material.
pub open spec fn material_label_text(name: Option<Seq<char>>, id: int) -> Seq<char> {
    object_label_text("FbxMaterial"@, name, id, false)
}

/// The label of a texture that a texture object of the document backs.
pub open spec fn texture_label_text(name: Option<Seq<char>>, id: int) -> Seq<char> {
    object_label_text("FbxTexture"@, name, id, false)
}

/// The label of a texture that a material loader synthesized for one slot of
/// a material. It holds the material's name or id, so two materials never
/// share a synthesized texture.
pub open spec fn synthesized_texture_label_text(
    material_name: Option<Seq<char>>,
    material_id: int,
    slot: Seq<char>,
) -> Seq<char> {
    object_label_text("FbxTextureMat"@, material_name, material_id, false) + seq!['/'] + slot
}

/// Builds the label of an object under `prefix`.
pub fn object_label(
    prefix: &str,
    name: &Option<String>,
    id: i64,
    keep_empty: bool,
) -> (label: String)
    ensures
        label@ == object_label_text(prefix@, name_text(*name), id as int, keep_empty),
{
    let mut label = String::from_str(prefix);
    match name {
        Some(n) => {
            if keep_empty || !n.as_str().is_empty() {
                label.push('@');
                push_text(&mut label, n.as_str());
                assert(label@ =~= prefix@ + seq!['@'] + n@);
                return label;
            }
        },
        None => {},
    }
    push_signed(&mut label, id);
    label
}

/// The label of a mesh node.
pub fn mesh_label(name: &Option<String>, id: i64) -> (label: String)
    ensures
        label@ == mesh_label_text(name_text(*name), id as int),
{
    object_label("FbxMesh", name, id, true)
}

/// The label of a geometry object.
pub fn geometry_label(name: &Option<String>, id: i64) -> (label: String)
    ensures
        label@ == geometry_label_text(name_text(*name), id as int),
{
    object_label("FbxMesh", name, id, false)
}

/// The label of the primitive of material slot `slot` of the mesh labelled
/// `mesh_label`.
pub fn primitive_label(mesh_label: &str, slot: usize) -> (label: String)
    ensures
        label@ == primitive_label_text(mesh_label@, slot as nat),
{
    let mut label = String::from_str(mesh_label);
    push_text(&mut label, "/Primitive");
    push_unsigned(&mut label, slot as u64);
    label
}

/// The label of a material.
pub fn material_label(name: &Option<String>, id: i64) -> (label: String)
    ensures
        label@ == material_label_text(name_text(*name), id as int),
{
    object_label("FbxMaterial", name, id, false)
}

/// The label of a texture backed by a texture object.
pub fn texture_label(name: &Option<String>, id: i64) -> (label: String)
    ensures
        label@ == texture_label_text(name_text(*name), id as int),
{
    object_label("FbxTexture", name, id, false)
}

/// The label of a texture synthesized for `slot` of a material.
pub fn synthesized_texture_label(
    material_name: &Option<String>,
    material_id: i64,
    slot: &str,
) -> (label: String)
    ensures
        label@ == synthesized_texture_label_text(
            name_text(*material_name),
            material_id as int,
            slot@,
        ),
{
    let mut label = object_label("FbxTextureMat", material_name, material_id, false);
    label.push('/');
    push_text(&mut label, slot);
    assert(label@ =~= object_label_text(
        "FbxTextureMat"@,
        name_text(*material_name),
        material_id as int,
        false,
    ) + seq!['/'] + slot@);
    label
}

/// The label of the renderer-facing scene tree of a load.
pub fn scene_label() -> (label: String)
    ensures
        label@ == "Scene"@,
{
    String::from_str("Scene")
}

/// The label of the scene aggregate of a load.
pub fn fbx_scene_label() -> (label: String)
    ensures
        label@ == "FbxScene"@,
{
    String::from_str("FbxScene")
}

} // verus!
