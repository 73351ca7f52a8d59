use vstd::prelude::*;

verus! {

/// A vertex as the graphics pipeline reads it: a 3D position, each
/// coordinate held as the bit pattern of a 32-bit IEEE float.
#[derive(Clone, Copy, Debug, PartialEq, Eq, Structural)]
pub struct VertexSimple {
    pub x_bits: u32,
    pub y_bits: u32,
    pub z_bits: u32,
}

/// Why a mesh was not added.
#[derive(Clone, Copy, Debug, PartialEq, Eq, Structural)]
pub enum GeometryError {
    /// The index at `position` names no vertex.
    IndexOutOfRange { position: usize, index: u32 },
    /// More indices than a draw call can count.
    TooManyIndices,
    /// The device could not allocate the buffers.
    Allocation,
}

/// The handles of the vertex and index buffers of an uploaded mesh.
#[derive(Clone, Copy, Debug, PartialEq, Eq, Structural)]
pub struct UploadedMesh {
    pub vertex_buffer: u64,
    pub index_buffer: u64,
}

/// Every index names one of `vertex_count` vertices.
pub open spec fn indices_valid(vertex_count: nat, indices: Seq<u32>) -> bool {
    forall|k: int| 0 <= k < indices.len() ==> (indices[k] as nat) < vertex_count
}

/// A mesh that passed validation: what the queue needs of it once uploaded.
#[derive(Clone, Copy, Debug, PartialEq, Eq, Structural)]
pub struct CheckedGeometry {
    pub vertex_count: usize,
    pub index_count: u32,
}

/// Checks a mesh before upload: every index must name a vertex, and the
/// index count must fit a draw call. On failure the first offending index is
/// reported.
pub fn check_geometry(vertices: &Vec<VertexSimple>, indices: &Vec<u32>) -> (r: Result<
    CheckedGeometry,
    GeometryError,
>)
    ensures
        r is Ok <==> indices_valid(vertices@.len(), indices@) && indices@.len() <= u32::MAX,
        r matches Ok(g) ==> g.vertex_count == vertices@.len() && g.index_count == indices@.len(),
        r matches Err(GeometryError::IndexOutOfRange { position, index }) ==> {
            &&& position < indices@.len()
            &&& index == indices@[position as int]
            &&& index >= vertices@.len()
            &&& indices_valid(vertices@.len(), indices@.subrange(0, position as int))
        },
        r == Err::<CheckedGeometry, GeometryError>(GeometryError::TooManyIndices) <==> indices_valid(
            vertices@.len(),
            indices@,
        ) && indices@.len() > u32::MAX,
        !(r matches Err(GeometryError::Allocation)),
{
    let n = vertices.len();
    let mut k: usize = 0;
    while k < indices.len()
        invariant
            k <= indices@.len(),
            n == vertices@.len(),
            indices_valid(n as nat, indices@.subrange(0, k as int)),
        decreases indices@.len() - k,
    {
        let index = indices[k];
        if index as usize >= n {
            return Err(GeometryError::IndexOutOfRange { position: k, index });
        }
        proof {
            assert forall|j: int| 0 <= j < k + 1 implies (#[trigger] indices@.subrange(0, k + 1)[j]
                as nat) < n by {
                if j < k {
                    assert(indices@.subrange(0, k + 1)[j] == indices@.subrange(0, k as int)[j]);
                }
            }
        }
        k = k + 1;
    }
    proof {
        assert(indices@.subrange(0, k as int) =~= indices@);
    }
    if indices.len() > u32::MAX as usize {
        return Err(GeometryError::TooManyIndices);
    }
    Ok(CheckedGeometry { vertex_count: n, index_count: indices.len() as u32 })
}

} // verus!
