use flagmesh::grid::{
    flag_indices, flag_points, grid_indices, grid_points, FLAG_INDEX_COUNT, FLAG_VERTEX_COUNT,
    FLAG_X_RES, FLAG_Y_RES,
};

#[test]
fn small_grid_triangles() {
    let r = grid_indices(3, 2);
    assert_eq!(r, vec![0, 1, 3, 1, 4, 3, 1, 2, 4, 2, 5, 4]);
}

#[test]
fn smallest_grid_is_two_triangles() {
    assert_eq!(grid_indices(2, 2), vec![0, 1, 2, 1, 3, 2]);
}

#[test]
fn last_column_does_not_wrap() {
    let r = grid_indices(3, 3);
    assert_eq!(r.len(), 24);
    assert_eq!(&r[12..18], &[3, 4, 6, 4, 7, 6]);
    assert_eq!(&r[18..24], &[4, 5, 7, 5, 8, 7]);
}

#[test]
fn flag_counts() {
    let idx = flag_indices();
    let pts = flag_points();
    let x = FLAG_X_RES as usize;
    let y = FLAG_Y_RES as usize;
    assert_eq!(pts.len(), x * y);
    assert_eq!(pts.len(), FLAG_VERTEX_COUNT);
    assert_eq!(idx.len(), 6 * (x - 1) * (y - 1));
    assert_eq!(idx.len(), FLAG_INDEX_COUNT);
    assert!(idx.iter().all(|&i| (i as usize) < x * y));
}

#[test]
fn flag_first_and_last_cells() {
    let idx = flag_indices();
    assert_eq!(&idx[0..6], &[0, 1, 100, 1, 101, 100]);
    let n = idx.len();
    assert_eq!(&idx[n - 6..], &[7398, 7399, 7498, 7399, 7499, 7498]);
}

#[test]
fn flag_points_are_row_major() {
    let pts = flag_points();
    assert_eq!(pts[0], (0, 0));
    assert_eq!(pts[1], (1, 0));
    assert_eq!(pts[99], (99, 0));
    assert_eq!(pts[100], (0, 1));
    assert_eq!(pts[7499], (99, 74));
}

#[test]
fn flag_parameters_span_unit_square() {
    let pts = flag_points();
    let s_step = 1.0f32 / ((FLAG_X_RES - 1) as f32);
    let t_step = 1.0f32 / ((FLAG_Y_RES - 1) as f32);
    let (s0, t0) = pts[0];
    assert_eq!(s_step * s0 as f32, 0.0);
    assert_eq!(t_step * t0 as f32, 0.0);
    let (s1, t1) = pts[pts.len() - 1];
    assert!((s_step * s1 as f32 - 1.0).abs() < 1e-5);
    assert!((t_step * t1 as f32 - 1.0).abs() < 1e-5);
}

#[test]
fn largest_grid_reaches_last_index() {
    let r = grid_indices(256, 256);
    assert_eq!(r.len(), 6 * 255 * 255);
    assert_eq!(*r.iter().max().unwrap(), 65535);
}

#[test]
fn grid_points_small() {
    assert_eq!(grid_points(2, 3), vec![(0, 0), (1, 0), (0, 1), (1, 1), (0, 2), (1, 2)]);
}
