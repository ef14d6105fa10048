//! A mesh as it is handed to the graphics device: a vertex count, a
//! triangle list over those vertices, and how often the vertices change.
//! The device buffers are filled from the byte ranges computed here.
use vstd::prelude::*;
use crate::grid::{
    flag_indices,
    spec_grid_index,
    FLAG_INDEX_COUNT,
    FLAG_VERTEX_COUNT,
    FLAG_X_RES,
    FLAG_Y_RES,
};
use crate::layout::{INDEX_BYTES, VERTEX_STRIDE};
use crate::scene::{scene_indices, spec_scene_index, BACKGROUND_INDEX_COUNT, BACKGROUND_VERTEX_COUNT};

verus! {

/// Largest byte size of a buffer: sizes are passed to the device as a
/// signed 32-bit count.
pub const MAX_BUFFER_BYTES: usize = 0x7fff_ffff;

/// How often a buffer's contents are replaced.
#[derive(Clone, Copy, Debug, PartialEq, Eq, Structural)]
pub enum BufferUsage {
    /// Written once.
    Static,
    /// Rewritten every frame.
    Stream,
}

/// Why a vertex count and a triangle list do not make a mesh.
#[derive(Clone, Copy, Debug, PartialEq, Eq, Structural)]
pub enum MeshError {
    /// A buffer would exceed `MAX_BUFFER_BYTES`.
    TooLarge,
    /// The triangle list's length is not a multiple of 3.
    NotTriangles,
    /// The entry at `position` names no vertex; it is the first such entry.
    IndexOutOfRange { position: usize },
}

/// A whole-buffer upload: `bytes` bytes from offset `offset`, with a usage
/// hint.
#[derive(Clone, Copy, Debug, PartialEq, Eq, Structural)]
pub struct UploadRange {
    pub offset: usize,
    pub bytes: usize,
    pub usage: BufferUsage,
}

/// A vertex count, a triangle list over it, and the usage of the vertex
/// buffer. The triangle list itself is always written once.
pub struct MeshData {
    pub vertex_count: usize,
    pub indices: Vec<u16>,
    pub usage: BufferUsage,
}

pub open spec fn spec_fits(vertex_count: int, index_count: int) -> bool {
    vertex_count * VERTEX_STRIDE <= MAX_BUFFER_BYTES && index_count * INDEX_BYTES
        <= MAX_BUFFER_BYTES
}

/// Every entry of `indices` before `end` names one of `vertex_count`
/// vertices.
pub open spec fn spec_in_range_before(indices: Seq<u16>, vertex_count: int, end: int) -> bool {
    forall|k: int| 0 <= k < end ==> (#[trigger] indices[k] as int) < vertex_count
}

pub open spec fn spec_in_range(indices: Seq<u16>, vertex_count: int) -> bool {
    spec_in_range_before(indices, vertex_count, indices.len() as int)
}

/// A mesh is a list of whole triangles over its vertices, small enough for
/// the device.
pub open spec fn spec_valid_mesh(vertex_count: int, indices: Seq<u16>) -> bool {
    &&& spec_fits(vertex_count, indices.len() as int)
    &&& indices.len() % 3 == 0
    &&& spec_in_range(indices, vertex_count)
}

impl MeshData {
    pub open spec fn wf(&self) -> bool {
        spec_valid_mesh(self.vertex_count as int, self.indices@)
    }

    /// The upload of the whole vertex array.
    pub open spec fn spec_vertex_upload(&self) -> UploadRange {
        UploadRange {
            offset: 0,
            bytes: (self.vertex_count * VERTEX_STRIDE) as usize,
            usage: self.usage,
        }
    }

    /// Checks that `indices` is a triangle list over `vertex_count`
    /// vertices and that both buffers fit the device. The size is checked
    /// first, then the length, then each entry in order.
    pub fn new(vertex_count: usize, indices: Vec<u16>, usage: BufferUsage) -> (r: Result<
        MeshData,
        MeshError,
    >)
        ensures
            r is Ok <==> spec_valid_mesh(vertex_count as int, indices@),
            r matches Ok(m) ==> m.wf() && m.vertex_count == vertex_count && m.indices@
                == indices@ && m.usage == usage,
            r == Err::<MeshData, MeshError>(MeshError::TooLarge) <==> !spec_fits(
                vertex_count as int,
                indices@.len() as int,
            ),
            r == Err::<MeshData, MeshError>(MeshError::NotTriangles) <==> spec_fits(
                vertex_count as int,
                indices@.len() as int,
            ) && indices@.len() % 3 != 0,
            forall|p: usize|
                r == Err::<MeshData, MeshError>(MeshError::IndexOutOfRange { position: p })
                    <==> spec_fits(vertex_count as int, indices@.len() as int) && indices@.len() % 3
                    == 0 && p < indices@.len() && indices@[p as int] as int >= vertex_count
                    && spec_in_range_before(indices@, vertex_count as int, p as int),
    {
        if vertex_count > MAX_BUFFER_BYTES / VERTEX_STRIDE || indices.len() > MAX_BUFFER_BYTES
            / INDEX_BYTES {
            return Err(MeshError::TooLarge);
        }
        if indices.len() % 3 != 0 {
            return Err(MeshError::NotTriangles);
        }
        let mut k: usize = 0;
        while k < indices.len()
            invariant
                k <= indices@.len(),
                spec_fits(vertex_count as int, indices@.len() as int),
                indices@.len() % 3 == 0,
                spec_in_range_before(indices@, vertex_count as int, k as int),
            decreases indices@.len() - k,
        {
            if indices[k] as usize >= vertex_count {
                return Err(MeshError::IndexOutOfRange { position: k });
            }
            k = k + 1;
        }
        Ok(MeshData { vertex_count, indices, usage })
    }

    /// Corners in the triangle list, three per triangle.
    pub fn element_count(&self) -> (r: usize)
        requires
            self.wf(),
        ensures
            r == self.indices@.len(),
            r % 3 == 0,
    {
        self.indices.len()
    }

    /// The upload of the whole vertex array, however few vertices changed.
    pub fn vertex_upload(&self) -> (r: UploadRange)
        requires
            self.wf(),
        ensures
            r == self.spec_vertex_upload(),
            r.offset == 0,
            r.bytes == self.vertex_count * VERTEX_STRIDE,
            r.usage == self.usage,
    {
        UploadRange { offset: 0, bytes: self.vertex_count * VERTEX_STRIDE, usage: self.usage }
    }

    /// The upload of the whole triangle list, which never changes.
    pub fn index_upload(&self) -> (r: UploadRange)
        requires
            self.wf(),
        ensures
            r.offset == 0,
            r.bytes == self.indices@.len() * INDEX_BYTES,
            r.usage == BufferUsage::Static,
    {
        UploadRange { offset: 0, bytes: self.indices.len() * INDEX_BYTES, usage: BufferUsage::Static }
    }
}

/// The flag's mesh, whose vertices are rewritten every frame.
pub fn flag_mesh() -> (r: MeshData)
    ensures
        r.wf(),
        r.vertex_count == FLAG_VERTEX_COUNT,
        r.indices@.len() == FLAG_INDEX_COUNT,
        forall|k: int|
            0 <= k < r.indices@.len() ==> r.indices@[k] as int == spec_grid_index(FLAG_X_RES as int, k),
        r.usage == BufferUsage::Stream,
{
    let indices = flag_indices();
    assert(spec_in_range(indices@, FLAG_VERTEX_COUNT as int));
    MeshData { vertex_count: FLAG_VERTEX_COUNT, indices, usage: BufferUsage::Stream }
}

/// The background's mesh, written once.
pub fn scene_mesh() -> (r: MeshData)
    ensures
        r.wf(),
        r.vertex_count == BACKGROUND_VERTEX_COUNT,
        r.indices@.len() == BACKGROUND_INDEX_COUNT,
        forall|k: int| 0 <= k < r.indices@.len() ==> r.indices@[k] as int == spec_scene_index(k),
        r.usage == BufferUsage::Static,
{
    let indices = scene_indices();
    assert(spec_in_range(indices@, BACKGROUND_VERTEX_COUNT as int));
    MeshData { vertex_count: BACKGROUND_VERTEX_COUNT, indices, usage: BufferUsage::Static }
}

/// Each frame's upload of the flag covers its whole vertex array, whatever
/// vertices changed: from byte 0, `FLAG_X_RES * FLAG_Y_RES` whole records.
pub proof fn lemma_flag_upload_is_whole(m: MeshData)
    requires
        m.wf(),
        m.vertex_count == FLAG_VERTEX_COUNT,
    ensures
        m.spec_vertex_upload().offset == 0,
        m.spec_vertex_upload().bytes == FLAG_X_RES * FLAG_Y_RES * VERTEX_STRIDE,
        m.spec_vertex_upload().usage == m.usage,
{
}

} // verus!
