use flagmesh::grid::{FLAG_INDEX_COUNT, FLAG_VERTEX_COUNT, FLAG_X_RES, FLAG_Y_RES};
use flagmesh::layout::VERTEX_STRIDE;
use flagmesh::mesh::{flag_mesh, scene_mesh, BufferUsage, MeshData, MeshError, MAX_BUFFER_BYTES};

#[test]
fn valid_mesh_is_accepted() {
    let m = MeshData::new(4, vec![0, 1, 2, 0, 2, 3], BufferUsage::Static).unwrap();
    assert_eq!(m.vertex_count, 4);
    assert_eq!(m.element_count(), 6);
    assert_eq!(m.indices, vec![0, 1, 2, 0, 2, 3]);
    assert_eq!(m.usage, BufferUsage::Static);
}

#[test]
fn empty_mesh_is_accepted() {
    let m = MeshData::new(0, vec![], BufferUsage::Stream).unwrap();
    assert_eq!(m.element_count(), 0);
    assert_eq!(m.vertex_upload().bytes, 0);
}

#[test]
fn partial_triangle_is_rejected() {
    let r = MeshData::new(4, vec![0, 1, 2, 3], BufferUsage::Static);
    assert_eq!(r.err(), Some(MeshError::NotTriangles));
}

#[test]
fn first_bad_index_is_reported() {
    let r = MeshData::new(3, vec![0, 1, 2, 0, 3, 5], BufferUsage::Static);
    assert_eq!(r.err(), Some(MeshError::IndexOutOfRange { position: 4 }));
}

#[test]
fn index_equal_to_count_is_rejected() {
    let r = MeshData::new(3, vec![0, 1, 3], BufferUsage::Static);
    assert_eq!(r.err(), Some(MeshError::IndexOutOfRange { position: 2 }));
}

#[test]
fn oversized_vertex_buffer_is_rejected() {
    let too_many = MAX_BUFFER_BYTES / VERTEX_STRIDE + 1;
    let r = MeshData::new(too_many, vec![0, 1, 2], BufferUsage::Static);
    assert_eq!(r.err(), Some(MeshError::TooLarge));
    let most = MAX_BUFFER_BYTES / VERTEX_STRIDE;
    assert!(MeshData::new(most, vec![0, 1, 2], BufferUsage::Static).is_ok());
}

#[test]
fn size_is_checked_before_shape() {
    let too_many = MAX_BUFFER_BYTES / VERTEX_STRIDE + 1;
    let r = MeshData::new(too_many, vec![0], BufferUsage::Static);
    assert_eq!(r.err(), Some(MeshError::TooLarge));
}

#[test]
fn flag_refresh_covers_whole_array() {
    let m = flag_mesh();
    let up = m.vertex_upload();
    assert_eq!(up.offset, 0);
    assert_eq!(up.bytes, FLAG_X_RES as usize * FLAG_Y_RES as usize * VERTEX_STRIDE);
    assert_eq!(up.bytes, 360000);
    assert_eq!(up.usage, BufferUsage::Stream);
    // The same on every frame.
    assert_eq!(m.vertex_upload(), up);
}

#[test]
fn flag_mesh_shape() {
    let m = flag_mesh();
    assert_eq!(m.vertex_count, FLAG_VERTEX_COUNT);
    assert_eq!(m.element_count(), FLAG_INDEX_COUNT);
    let iu = m.index_upload();
    assert_eq!(iu.offset, 0);
    assert_eq!(iu.bytes, FLAG_INDEX_COUNT * 2);
    assert_eq!(iu.usage, BufferUsage::Static);
    let again = MeshData::new(m.vertex_count, m.indices.clone(), m.usage);
    assert!(again.is_ok());
}

#[test]
fn scene_mesh_shape() {
    let m = scene_mesh();
    assert_eq!(m.vertex_count, 106);
    assert_eq!(m.element_count(), 492);
    assert_eq!(m.usage, BufferUsage::Static);
    assert_eq!(m.vertex_upload().bytes, 106 * 48);
    assert_eq!(m.index_upload().bytes, 984);
}
