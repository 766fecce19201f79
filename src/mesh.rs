use vstd::prelude::*;

verus! {

/// A triangle-list mesh: positions, one normal per position, and indices
/// into the positions, three per triangle. `P` is the vertex type.
#[derive(Debug)]
pub struct Mesh<P> {
    pub positions: Vec<P>,
    pub normals: Vec<P>,
    pub indices: Vec<u32>,
}

/// The buffers of a freshly generated primitive, each of which may be missing.
#[derive(Debug)]
pub struct PrimitiveMesh<P> {
    pub positions: Option<Vec<P>>,
    pub normals: Option<Vec<P>>,
    pub indices: Option<Vec<u32>>,
}

/// Buffers that form a proper mesh: one normal per position, whole
/// triangles, and every index naming an existing position.
pub open spec fn buffers_wf<P>(positions: Seq<P>, normals: Seq<P>, indices: Seq<u32>) -> bool {
    &&& normals.len() == positions.len()
    &&& indices.len() % 3 == 0
    &&& forall|i: int| 0 <= i < indices.len() ==> (#[trigger] indices[i]) < positions.len()
}

impl<P> Mesh<P> {
    pub open spec fn wf(&self) -> bool {
        &&& buffers_wf(self.positions@, self.normals@, self.indices@)
        &&& self.positions@.len() <= u32::MAX
    }
}

/// Why two primitives could not be merged into one mesh.
#[derive(Debug, Clone, Copy, PartialEq, Eq, Structural)]
pub enum MeshError {
    MissingBackbonePositions,
    MissingBasePositions,
    MissingBackboneNormals,
    MissingBaseNormals,
    MissingBackboneIndices,
    MissingBaseIndices,
    /// A primitive's buffers do not form a proper mesh.
    MalformedPrimitive,
    /// The merged mesh has more positions than a `u32` index reaches.
    TooManyVertices,
}

/// The error that `merge_gene_mesh` reports for the given buffers, if any:
/// the first missing buffer in the order backbone positions, base positions,
/// backbone normals, base normals, backbone indices, base indices; then a
/// malformed primitive; then an oversized result.
pub open spec fn spec_merge_error<P>(backbone: PrimitiveMesh<P>, base: PrimitiveMesh<P>) -> Option<
    MeshError,
> {
    if backbone.positions is None {
        Some(MeshError::MissingBackbonePositions)
    } else if base.positions is None {
        Some(MeshError::MissingBasePositions)
    } else if backbone.normals is None {
        Some(MeshError::MissingBackboneNormals)
    } else if base.normals is None {
        Some(MeshError::MissingBaseNormals)
    } else if backbone.indices is None {
        Some(MeshError::MissingBackboneIndices)
    } else if base.indices is None {
        Some(MeshError::MissingBaseIndices)
    } else if !buffers_wf(
        backbone.positions->0@,
        backbone.normals->0@,
        backbone.indices->0@,
    ) || !buffers_wf(base.positions->0@, base.normals->0@, base.indices->0@) {
        Some(MeshError::MalformedPrimitive)
    } else if backbone.positions->0@.len() + base.positions->0@.len() > u32::MAX {
        Some(MeshError::TooManyVertices)
    } else {
        None
    }
}

/// Whether every entry of `indices` is below `n`.
fn indices_below(indices: &Vec<u32>, n: usize) -> (r: bool)
    ensures
        r == (forall|i: int| 0 <= i < indices@.len() ==> (#[trigger] indices@[i]) < n),
{
    let mut k: usize = 0;
    while k < indices.len()
        invariant
            k <= indices@.len(),
            forall|i: int| 0 <= i < k ==> (#[trigger] indices@[i]) < n,
        decreases indices@.len() - k,
    {
        if indices[k] as usize >= n {
            return false;
        }
        k = k + 1;
    }
    true
}

/// Whether the three buffers form a proper mesh.
fn check_buffers<P>(positions: &Vec<P>, normals: &Vec<P>, indices: &Vec<u32>) -> (r: bool)
    ensures
        r == buffers_wf(positions@, normals@, indices@),
{
    normals.len() == positions.len() && indices.len() % 3 == 0 && indices_below(
        indices,
        positions.len(),
    )
}

/// Merges a placed backbone primitive and a placed base primitive into one
/// mesh: the base's positions and normals follow the backbone's, and each
/// base index is shifted by the number of backbone positions so that it
/// still names the same vertex.
pub fn merge_gene_mesh<P>(backbone: PrimitiveMesh<P>, base: PrimitiveMesh<P>) -> (r: Result<
    Mesh<P>,
    MeshError,
>)
    ensures
        match spec_merge_error(backbone, base) {
            Some(e) => r == Err::<Mesh<P>, MeshError>(e),
            None => r is Ok && {
                let m = r->Ok_0;
                let bp = backbone.positions->0@;
                &&& m.wf()
                &&& m.positions@.len() == bp.len() + base.positions->0@.len()
                &&& forall|i: int|
                    0 <= i < m.indices@.len() ==> (#[trigger] m.indices@[i]) < m.positions@.len()
                &&& m.positions@ == bp + base.positions->0@
                &&& m.normals@ == backbone.normals->0@ + base.normals->0@
                &&& m.indices@.len() == backbone.indices->0@.len() + base.indices->0@.len()
                &&& m.indices@.subrange(0, backbone.indices->0@.len() as int)
                    == backbone.indices->0@
                &&& forall|j: int|
                    0 <= j < base.indices->0@.len() ==> m.indices@[backbone.indices->0@.len() + j]
                        == base.indices->0@[j] + bp.len()
            },
        },
{
    let PrimitiveMesh { positions: bb_pos, normals: bb_nrm, indices: bb_idx } = backbone;
    let PrimitiveMesh { positions: bs_pos, normals: bs_nrm, indices: bs_idx } = base;
    let mut positions = match bb_pos {
        Some(v) => v,
        None => return Err(MeshError::MissingBackbonePositions),
    };
    let mut base_positions = match bs_pos {
        Some(v) => v,
        None => return Err(MeshError::MissingBasePositions),
    };
    let mut normals = match bb_nrm {
        Some(v) => v,
        None => return Err(MeshError::MissingBackboneNormals),
    };
    let mut base_normals = match bs_nrm {
        Some(v) => v,
        None => return Err(MeshError::MissingBaseNormals),
    };
    let mut indices = match bb_idx {
        Some(v) => v,
        None => return Err(MeshError::MissingBackboneIndices),
    };
    let base_indices = match bs_idx {
        Some(v) => v,
        None => return Err(MeshError::MissingBaseIndices),
    };
    if !check_buffers(&positions, &normals, &indices) || !check_buffers(
        &base_positions,
        &base_normals,
        &base_indices,
    ) {
        return Err(MeshError::MalformedPrimitive);
    }
    let offset: usize = positions.len();
    if offset > u32::MAX as usize || base_positions.len() > u32::MAX as usize - offset {
        return Err(MeshError::TooManyVertices);
    }
    let ghost bp = positions@;
    let ghost bi = indices@;
    let ghost total = positions@.len() + base_positions@.len();
    let mut k: usize = 0;
    while k < base_indices.len()
        invariant
            k <= base_indices@.len(),
            offset == bp.len(),
            total == bp.len() + base_positions@.len(),
            total <= u32::MAX,
            forall|i: int|
                0 <= i < base_indices@.len() ==> (#[trigger] base_indices@[i]) < base_positions@.len(),
            indices@.len() == bi.len() + k,
            indices@.subrange(0, bi.len() as int) == bi,
            forall|i: int| 0 <= i < bi.len() ==> (#[trigger] bi[i]) < bp.len(),
            forall|j: int| 0 <= j < k ==> indices@[bi.len() + j] == base_indices@[j] + bp.len(),
            forall|i: int| 0 <= i < indices@.len() ==> (#[trigger] indices@[i]) < total,
        decreases base_indices@.len() - k,
    {
        let v: u32 = base_indices[k] + offset as u32;
        let ghost before = indices@;
        indices.push(v);
        proof {
            assert(indices@.subrange(0, bi.len() as int) =~= before.subrange(0, bi.len() as int));
            assert forall|i: int| 0 <= i < indices@.len() implies (#[trigger] indices@[i]) < total by {
                if i < before.len() {
                    assert(indices@[i] == before[i]);
                }
            }
        }
        k = k + 1;
    }
    positions.append(&mut base_positions);
    normals.append(&mut base_normals);
    proof {
        assert(indices@.len() % 3 == 0) by {
            assert(bi.len() % 3 == 0);
            assert(base_indices@.len() % 3 == 0);
        }
    }
    Ok(Mesh { positions, normals, indices })
}

} // verus!
