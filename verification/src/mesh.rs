//! Reconstruction of renderer-ready buffers from one triangulated geometry.
//!
//! The document indexes its data in several independent ways: positions by
//! control point, normals and texture coordinates by triangle vertex,
//! material assignments by triangle vertex. Reconstruction reconciles them
//! into one vertex buffer, with one vertex per triangle vertex, and one
//! index list per material slot.
//!
//! The library never computes with the coordinates themselves, so the vector
//! types are parameters: `V3` for positions and normals, `V2` for texture
//! coordinates, which arrive in the renderer's convention.

use vstd::prelude::*;
use crate::error::FbxLoadingError;
use crate::label::{geometry_label, geometry_label_text, name_text};

verus! {

/// The polygon data of a geometry after triangulation.
pub struct TriangleVertices<V3> {
    /// The control points of the geometry.
    pub control_points: Vec<V3>,
    /// For each triangle vertex, in triangle order, the index of its control
    /// point, where the document gives one.
    pub control_point_indices: Vec<Option<u32>>,
}

/// The first layer of a geometry, resolved per triangle vertex.
pub struct Layer<V3, V2> {
    /// The normal of each triangle vertex, where the layer has normals.
    pub normals: Option<Vec<V3>>,
    /// The texture coordinates of each triangle vertex, where the layer has
    /// them.
    pub uvs: Option<Vec<V2>>,
    /// The mesh-local material slot of each triangle vertex, where the layer
    /// assigns materials.
    pub materials: Option<Vec<u32>>,
}

/// One geometry object of the document, triangulated.
pub struct TriangulatedGeometry<V3, V2> {
    /// The object's name.
    pub name: Option<String>,
    /// The object's id.
    pub id: i64,
    /// The polygon data, where the object has any.
    pub polygons: Option<TriangleVertices<V3>>,
    /// The first layer, where the object has one.
    pub layer: Option<Layer<V3, V2>>,
}

/// The buffers of one reconstructed mesh.
pub struct ReconstructedMesh<V3, V2> {
    /// The label of the geometry; its primitives are labelled from it.
    pub label: String,
    /// The position of each vertex.
    pub positions: Vec<V3>,
    /// The normal of each vertex.
    pub normals: Vec<V3>,
    /// The texture coordinates of each vertex.
    pub uvs: Vec<V2>,
    /// The index buffer of the whole mesh: every vertex once, in order.
    pub indices: Vec<u32>,
    /// One index list per material slot; a mesh without materials has the
    /// single list of the whole mesh.
    pub primitives: Vec<Vec<u32>>,
}

/// The triangles of the fan over a polygon of `corners` corners: every
/// triangle starts at the polygon's first corner and takes the next two in
/// the polygon's own order, so the winding is kept. A polygon of fewer than
/// three corners has no triangle.
pub open spec fn fan(corners: nat) -> Seq<(usize, usize, usize)> {
    if corners < 3 {
        Seq::empty()
    } else {
        Seq::new((corners - 2) as nat, |i: int| (0usize, (i + 1) as usize, (i + 2) as usize))
    }
}

/// Triangulates a polygon of `corners` corners as a fan. The triangles name
/// the corners by their position in the polygon.
pub fn fan_triangles(corners: usize) -> (triangles: Vec<(usize, usize, usize)>)
    ensures
        triangles@ == fan(corners as nat),
{
    let mut triangles: Vec<(usize, usize, usize)> = Vec::new();
    if corners < 3 {
        return triangles;
    }
    let mut i: usize = 0;
    while i < corners - 2
        invariant
            3 <= corners,
            i <= corners - 2,
            triangles@ == Seq::new(
                i as nat,
                |k: int| (0usize, (k + 1) as usize, (k + 2) as usize),
            ),
        decreases corners - 2 - i,
    {
        triangles.push((0, i + 1, i + 2));
        i = i + 1;
        assert(triangles@ =~= Seq::new(
            i as nat,
            |k: int| (0usize, (k + 1) as usize, (k + 2) as usize),
        ));
    }
    triangles
}

/// The index buffer that lists `n` vertices in order.
pub open spec fn vertex_indices(n: nat) -> Seq<u32> {
    Seq::new(n, |i: int| i as u32)
}

/// The predicate "this vertex is assigned to material slot `slot`".
pub open spec fn assigned_to(slots: Seq<u32>, slot: int) -> spec_fn(u32) -> bool {
    |v: u32| slots[v as int] == slot
}

/// The vertices among the first `n` that are assigned to `slot`, in order.
pub open spec fn slot_indices(slots: Seq<u32>, slot: int, n: nat) -> Seq<u32> {
    vertex_indices(n).filter(assigned_to(slots, slot))
}

/// The assignment of vertex `i` cannot be used: there is none, or it names a
/// slot outside `[0, num_materials)`.
pub open spec fn slot_failure(slots: Seq<u32>, num_materials: nat, i: int) -> bool {
    i >= slots.len() || slots[i] >= num_materials
}

/// The first vertex among the first `n` whose assignment cannot be used.
pub open spec fn first_slot_failure(slots: Seq<u32>, num_materials: nat, n: nat) -> Option<int>
    decreases n,
{
    if n == 0 {
        None
    } else {
        match first_slot_failure(slots, num_materials, (n - 1) as nat) {
            Some(i) => Some(i),
            None => if slot_failure(slots, num_materials, n - 1) {
                Some(n - 1)
            } else {
                None
            },
        }
    }
}

/// The error that the first unusable assignment among the first `n`
/// vertices gives, if there is such an assignment.
pub open spec fn partition_error(slots: Seq<u32>, num_materials: nat, n: nat) -> Option<
    FbxLoadingError,
> {
    match first_slot_failure(slots, num_materials, n) {
        None => None,
        Some(i) => if i >= slots.len() {
            Some(FbxLoadingError::MissingGeometryData)
        } else {
            Some(
                FbxLoadingError::MaterialSlotOutOfRange {
                    num_materials: num_materials as usize,
                    got: slots[i],
                },
            )
        },
    }
}

/// `first_slot_failure` is the least failing vertex: it fails, no vertex
/// before it does, and where it is `None` no vertex fails at all.
pub proof fn lemma_first_slot_failure(slots: Seq<u32>, num_materials: nat, n: nat)
    ensures
        match first_slot_failure(slots, num_materials, n) {
            Some(i) => 0 <= i < n && slot_failure(slots, num_materials, i) && forall|j: int|
                0 <= j < i ==> !slot_failure(slots, num_materials, j),
            None => forall|j: int| 0 <= j < n ==> !slot_failure(slots, num_materials, j),
        },
    decreases n,
{
    if n > 0 {
        lemma_first_slot_failure(slots, num_materials, (n - 1) as nat);
    }
}

/// Taking one more vertex into account appends it to the list of its slot
/// and leaves the other lists as they are.
pub proof fn lemma_slot_indices_step(slots: Seq<u32>, slot: int, n: nat)
    requires
        n <= u32::MAX,
    ensures
        slot_indices(slots, slot, n + 1) == if slots[n as int] == slot {
            slot_indices(slots, slot, n).push(n as u32)
        } else {
            slot_indices(slots, slot, n)
        },
{
    reveal(Seq::filter);
    let longer = vertex_indices(n + 1);
    assert(longer.drop_last() =~= vertex_indices(n));
    assert(longer.last() == n as u32);
}

/// The lists of the slots part the vertices. The list of a slot holds
/// exactly the vertices assigned to it, each once and in rising order; so
/// every vertex with a usable assignment is in the list of its slot and in
/// no other.
pub proof fn lemma_slot_indices_part(slots: Seq<u32>, slot: int, n: nat)
    requires
        n <= u32::MAX + 1,
    ensures
        forall|v: u32|
            slot_indices(slots, slot, n).contains(v) <==> v < n && slots[v as int] == slot,
        forall|i: int, j: int|
            0 <= i < j < slot_indices(slots, slot, n).len() ==> slot_indices(slots, slot, n)[i]
                < slot_indices(slots, slot, n)[j],
    decreases n,
{
    if n == 0 {
        lemma_slot_indices_empty(slots, slot);
    } else {
        let m = (n - 1) as nat;
        lemma_slot_indices_part(slots, slot, m);
        lemma_slot_indices_step(slots, slot, m);
        let shorter = slot_indices(slots, slot, m);
        let longer = slot_indices(slots, slot, n);
        assert forall|v: u32| longer.contains(v) <==> v < n && slots[v as int] == slot by {
            if slots[m as int] == slot {
                assert(longer == shorter.push(m as u32));
                if longer.contains(v) {
                    let k = choose|k: int| 0 <= k < longer.len() && longer[k] == v;
                    if k < shorter.len() {
                        assert(shorter.contains(shorter[k]));
                    }
                }
                if v < n && slots[v as int] == slot {
                    if v == m {
                        assert(longer[shorter.len() as int] == v);
                    } else {
                        assert(shorter.contains(v));
                        let k = choose|k: int| 0 <= k < shorter.len() && shorter[k] == v;
                        assert(longer[k] == v);
                    }
                }
            }
        }
        assert forall|i: int, j: int| 0 <= i < j < longer.len() implies longer[i] < longer[j] by {
            if slots[m as int] == slot && j == shorter.len() {
                assert(shorter.contains(shorter[i]));
            }
        }
    }
}

/// Without vertices every slot's list is empty.
pub proof fn lemma_slot_indices_empty(slots: Seq<u32>, slot: int)
    ensures
        slot_indices(slots, slot, 0) == Seq::<u32>::empty(),
{
    reveal(Seq::filter);
    assert(vertex_indices(0) =~= Seq::<u32>::empty());
}

/// Builds the index buffer of a mesh of `n` vertices.
pub fn full_index_buffer(n: usize) -> (indices: Vec<u32>)
    requires
        n <= u32::MAX,
    ensures
        indices@ == vertex_indices(n as nat),
{
    let mut indices: Vec<u32> = Vec::new();
    let mut i: usize = 0;
    while i < n
        invariant
            i <= n <= u32::MAX,
            indices@ == vertex_indices(i as nat),
        decreases n - i,
    {
        indices.push(i as u32);
        i = i + 1;
        assert(indices@ =~= vertex_indices(i as nat));
    }
    indices
}

/// Splits the vertices of a mesh of `n` vertices into one index list per
/// material slot, by the slot that each vertex is assigned to.
///
/// Fails at the first vertex whose assignment cannot be used: with
/// `MissingGeometryData` where the vertex has no assignment, with
/// `MaterialSlotOutOfRange` where it names a slot that the mesh lacks.
pub fn split_by_material(slots: &Vec<u32>, n: usize, num_materials: usize) -> (result: Result<
    Vec<Vec<u32>>,
    FbxLoadingError,
>)
    requires
        n <= u32::MAX,
    ensures
        match result {
            Ok(lists) => {
                &&& partition_error(slots@, num_materials as nat, n as nat) is None
                &&& lists@.len() == num_materials
                &&& forall|s: int|
                    0 <= s < num_materials ==> (#[trigger] lists@[s])@ == slot_indices(
                        slots@,
                        s,
                        n as nat,
                    )
            },
            Err(e) => partition_error(slots@, num_materials as nat, n as nat) == Some(e),
        },
{
    let mut lists: Vec<Vec<u32>> = Vec::new();
    let mut s: usize = 0;
    while s < num_materials
        invariant
            s <= num_materials,
            lists@.len() == s,
            forall|k: int| 0 <= k < s ==> (#[trigger] lists@[k])@ == Seq::<u32>::empty(),
        decreases num_materials - s,
    {
        lists.push(Vec::new());
        s = s + 1;
    }
    proof {
        assert forall|k: int| 0 <= k < num_materials implies (#[trigger] lists@[k])@
            == slot_indices(slots@, k, 0) by {
            lemma_slot_indices_empty(slots@, k);
        }
    }
    let mut i: usize = 0;
    while i < n
        invariant
            i <= n <= u32::MAX,
            lists@.len() == num_materials,
            first_slot_failure(slots@, num_materials as nat, i as nat) is None,
            forall|k: int|
                0 <= k < num_materials ==> (#[trigger] lists@[k])@ == slot_indices(
                    slots@,
                    k,
                    i as nat,
                ),
        decreases n - i,
    {
        if i >= slots.len() {
            proof {
                lemma_failure_found(slots@, num_materials as nat, i as nat, n as nat);
            }
            return Err(FbxLoadingError::MissingGeometryData);
        }
        let slot = slots[i];
        if slot as usize >= num_materials {
            proof {
                lemma_failure_found(slots@, num_materials as nat, i as nat, n as nat);
            }
            return Err(FbxLoadingError::MaterialSlotOutOfRange { num_materials, got: slot });
        }
        let ghost before = lists@;
        let mut list: Vec<u32> = Vec::new();
        std::mem::swap(&mut lists[slot as usize], &mut list);
        list.push(i as u32);
        std::mem::swap(&mut lists[slot as usize], &mut list);
        proof {
            assert forall|k: int| 0 <= k < num_materials implies (#[trigger] lists@[k])@
                == slot_indices(slots@, k, (i + 1) as nat) by {
                lemma_slot_indices_step(slots@, k, i as nat);
                assert(before[k]@ == slot_indices(slots@, k, i as nat));
            }
        }
        i = i + 1;
    }
    Ok(lists)
}

impl<V3> TriangleVertices<V3> {
    /// The number of triangle vertices.
    pub open spec fn vertex_count(self) -> nat {
        self.control_point_indices@.len()
    }

    /// Triangle vertex `i` names a control point that the geometry has.
    pub open spec fn position_resolves(self, i: int) -> bool {
        self.control_point_indices@[i] matches Some(c) && c < self.control_points@.len()
    }

    /// Every triangle vertex names a control point that the geometry has.
    pub open spec fn positions_resolve(self) -> bool {
        forall|i: int| 0 <= i < self.vertex_count() ==> self.position_resolves(i)
    }

    /// The position of each triangle vertex: that of its control point.
    pub open spec fn resolved_positions(self) -> Seq<V3> {
        Seq::new(
            self.vertex_count(),
            |i: int| self.control_points@[self.control_point_indices@[i]->0 as int],
        )
    }
}

impl<V3, V2> TriangulatedGeometry<V3, V2> {
    /// The number of triangle vertices; none where polygon data is absent.
    pub open spec fn vertex_count(self) -> nat {
        match self.polygons {
            Some(p) => p.vertex_count(),
            None => 0,
        }
    }

    /// The geometry has polygon data in which every triangle vertex has a
    /// position, and a layer with normals and texture coordinates.
    pub open spec fn attributes_present(self) -> bool {
        &&& self.polygons matches Some(p) && p.positions_resolve()
        &&& self.layer matches Some(l) && l.normals is Some && l.uvs is Some
    }

    /// Positions, normals and texture coordinates are equally many.
    pub open spec fn lengths_agree(self) -> bool {
        &&& self.layer->0.uvs->0@.len() == self.vertex_count()
        &&& self.layer->0.uvs->0@.len() == self.layer->0.normals->0@.len()
    }

    /// The error with which reconstruction for `num_materials` material
    /// slots fails, or `None` where it succeeds. The checks are made in this
    /// order: presence of the attributes, their lengths, then the material
    /// assignments, vertex by vertex.
    pub open spec fn reconstruction_error(self, num_materials: nat) -> Option<FbxLoadingError> {
        if !self.attributes_present() {
            Some(FbxLoadingError::MissingGeometryData)
        } else if !self.lengths_agree() {
            Some(
                FbxLoadingError::AttributeLengthMismatch {
                    positions: self.vertex_count() as usize,
                    uvs: self.layer->0.uvs->0@.len() as usize,
                    normals: self.layer->0.normals->0@.len() as usize,
                },
            )
        } else if num_materials == 0 {
            None
        } else {
            match self.layer->0.materials {
                None => Some(FbxLoadingError::MissingGeometryData),
                Some(slots) => partition_error(slots@, num_materials, self.vertex_count()),
            }
        }
    }
}

impl<V3, V2> ReconstructedMesh<V3, V2> {
    /// These are the buffers of `geometry` for `num_materials` material
    /// slots.
    ///
    /// The vertex buffer has one vertex per triangle vertex, in triangle
    /// order, and its three arrays are equally long. The index buffer lists
    /// every vertex once. With materials, the list of a slot holds the
    /// vertices assigned to it, in order; without, the one list is the
    /// whole mesh.
    pub open spec fn reconstructs(
        self,
        geometry: TriangulatedGeometry<V3, V2>,
        num_materials: nat,
    ) -> bool {
        &&& self.label@ == geometry_label_text(name_text(geometry.name), geometry.id as int)
        &&& self.positions@ == geometry.polygons->0.resolved_positions()
        &&& self.normals@ == geometry.layer->0.normals->0@
        &&& self.uvs@ == geometry.layer->0.uvs->0@
        &&& self.positions@.len() == self.normals@.len() == self.uvs@.len()
        &&& self.indices@ == vertex_indices(self.positions@.len())
        &&& self.primitives@.len() == if num_materials == 0 {
            1
        } else {
            num_materials as int
        }
        &&& num_materials == 0 ==> self.primitives@[0]@ == self.indices@
        &&& forall|s: int|
            0 <= s < num_materials ==> (#[trigger] self.primitives@[s])@ == slot_indices(
                geometry.layer->0.materials->0@,
                s,
                self.positions@.len(),
            )
    }
}

/// Looks up the position of every triangle vertex. `None` where a triangle
/// vertex has no control point index or one that the geometry lacks.
pub fn resolve_positions<V3: Copy>(polygons: &TriangleVertices<V3>) -> (positions: Option<
    Vec<V3>,
>)
    ensures
        positions is Some <==> polygons.positions_resolve(),
        positions matches Some(p) ==> p@ == polygons.resolved_positions(),
{
    let n = polygons.control_point_indices.len();
    let mut positions: Vec<V3> = Vec::new();
    let mut i: usize = 0;
    while i < n
        invariant
            i <= n == polygons.vertex_count(),
            positions@.len() == i,
            forall|j: int| 0 <= j < i ==> polygons.position_resolves(j),
            forall|j: int|
                0 <= j < i ==> positions@[j]
                    == polygons.control_points@[polygons.control_point_indices@[j]->0 as int],
        decreases n - i,
    {
        match polygons.control_point_indices[i] {
            Some(c) => {
                if (c as usize) < polygons.control_points.len() {
                    positions.push(polygons.control_points[c as usize]);
                } else {
                    assert(!polygons.position_resolves(i as int));
                    return None;
                }
            },
            None => {
                assert(!polygons.position_resolves(i as int));
                return None;
            },
        }
        i = i + 1;
    }
    assert(positions@ =~= polygons.resolved_positions());
    Some(positions)
}

/// Reconstructs the buffers of a mesh with `num_materials` material slots
/// from its triangulated geometry.
///
/// On success the vertex buffer has one vertex per triangle vertex, in
/// triangle order: vertices that neighbouring triangles share are repeated,
/// not merged. A mesh without materials gets one primitive, the whole mesh.
pub fn reconstruct_mesh<V3: Copy, V2>(
    geometry: TriangulatedGeometry<V3, V2>,
    num_materials: usize,
) -> (result: Result<ReconstructedMesh<V3, V2>, FbxLoadingError>)
    requires
        geometry.vertex_count() <= u32::MAX,
    ensures
        match result {
            Ok(mesh) => geometry.reconstruction_error(num_materials as nat) is None
                && mesh.reconstructs(geometry, num_materials as nat),
            Err(e) => geometry.reconstruction_error(num_materials as nat) == Some(e),
        },
{
    let label = geometry_label(&geometry.name, geometry.id);
    let polygons = match geometry.polygons {
        Some(p) => p,
        None => {
            return Err(FbxLoadingError::MissingGeometryData);
        },
    };
    let positions = match resolve_positions(&polygons) {
        Some(p) => p,
        None => {
            return Err(FbxLoadingError::MissingGeometryData);
        },
    };
    let layer = match geometry.layer {
        Some(l) => l,
        None => {
            return Err(FbxLoadingError::MissingGeometryData);
        },
    };
    let normals = match layer.normals {
        Some(v) => v,
        None => {
            return Err(FbxLoadingError::MissingGeometryData);
        },
    };
    let uvs = match layer.uvs {
        Some(v) => v,
        None => {
            return Err(FbxLoadingError::MissingGeometryData);
        },
    };
    if uvs.len() != positions.len() || uvs.len() != normals.len() {
        return Err(
            FbxLoadingError::AttributeLengthMismatch {
                positions: positions.len(),
                uvs: uvs.len(),
                normals: normals.len(),
            },
        );
    }
    let n = positions.len();
    let indices = full_index_buffer(n);
    let primitives = if num_materials == 0 {
        let mut whole: Vec<Vec<u32>> = Vec::new();
        whole.push(full_index_buffer(n));
        whole
    } else {
        match layer.materials {
            None => {
                return Err(FbxLoadingError::MissingGeometryData);
            },
            Some(slots) => {
                match split_by_material(&slots, n, num_materials) {
                    Ok(lists) => lists,
                    Err(e) => {
                        return Err(e);
                    },
                }
            },
        }
    };
    Ok(ReconstructedMesh { label, positions, normals, uvs, indices, primitives })
}

/// A failure at vertex `i`, with none before it, is the first failure of
/// every longer prefix.
proof fn lemma_failure_found(slots: Seq<u32>, num_materials: nat, i: nat, n: nat)
    requires
        i < n,
        first_slot_failure(slots, num_materials, i) is None,
        slot_failure(slots, num_materials, i as int),
    ensures
        first_slot_failure(slots, num_materials, n) == Some(i as int),
    decreases n,
{
    if n > i + 1 {
        lemma_failure_found(slots, num_materials, i, (n - 1) as nat);
    }
}

} // verus!
