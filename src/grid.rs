//! The flag's parametric grid: the order in which its vertices are laid out
//! and the triangle list that stitches them together.
//!
//! A grid of `x_res` columns and `y_res` rows holds its vertices row-major:
//! vertex `t * x_res + s` sits in column `s` and row `t`, at parameters
//! `(s / (x_res - 1), t / (y_res - 1))`. Each cell between two neighbouring
//! rows and columns becomes two triangles.
use vstd::prelude::*;
use vstd::arithmetic::div_mod::lemma_fundamental_div_mod;
use vstd::arithmetic::div_mod::lemma_fundamental_div_mod_converse;
use vstd::arithmetic::div_mod::lemma_mod_pos_bound;

verus! {

/// Columns of the flag grid.
pub const FLAG_X_RES: u16 = 100;

/// Rows of the flag grid.
pub const FLAG_Y_RES: u16 = 75;

/// Vertices of the flag grid.
pub const FLAG_VERTEX_COUNT: usize = 7500;

/// Entries of the flag's triangle list.
pub const FLAG_INDEX_COUNT: usize = 43956;

/// A grid whose every vertex can be named by a 16-bit index and which has
/// at least one cell.
pub open spec fn valid_grid(x_res: int, y_res: int) -> bool {
    2 <= x_res && 2 <= y_res && x_res * y_res <= 65536
}

pub open spec fn spec_grid_vertex_count(x_res: int, y_res: int) -> int {
    x_res * y_res
}

pub open spec fn spec_grid_index_count(x_res: int, y_res: int) -> int {
    6 * (x_res - 1) * (y_res - 1)
}

/// Offset from a cell's lower-left vertex of the `j`-th corner of its two
/// triangles `(0, 1, x_res)` and `(1, x_res + 1, x_res)`.
pub open spec fn spec_corner_offset(x_res: int, j: int) -> int {
    if j == 0 {
        0
    } else if j == 1 {
        1
    } else if j == 2 {
        x_res
    } else if j == 3 {
        1
    } else if j == 4 {
        x_res + 1
    } else {
        x_res
    }
}

/// Entry `k` of the triangle list: corner `k % 6` of cell `k / 6`, the cells
/// taken row-major over the `x_res - 1` columns that have a right neighbour.
pub open spec fn spec_grid_index(x_res: int, k: int) -> int {
    let cell = k / 6;
    let row = cell / (x_res - 1);
    let col = cell % (x_res - 1);
    row * x_res + col + spec_corner_offset(x_res, k % 6)
}

/// The column and row of vertex `i`.
pub open spec fn spec_grid_point(x_res: int, i: int) -> (int, int) {
    (i % x_res, i / x_res)
}

/// Every entry of the triangle list names a vertex of the grid.
pub proof fn lemma_grid_index_in_range(x_res: int, y_res: int, k: int)
    requires
        2 <= x_res,
        2 <= y_res,
        0 <= k < spec_grid_index_count(x_res, y_res),
    ensures
        0 <= spec_grid_index(x_res, k) < spec_grid_vertex_count(x_res, y_res),
{
    let cell = k / 6;
    let j = k % 6;
    let row = cell / (x_res - 1);
    let col = cell % (x_res - 1);
    lemma_fundamental_div_mod(k, 6);
    lemma_mod_pos_bound(k, 6);
    assert(0 <= cell < (x_res - 1) * (y_res - 1)) by (nonlinear_arith)
        requires
            k == 6 * cell + j,
            0 <= j < 6,
            0 <= k < 6 * (x_res - 1) * (y_res - 1),
    ;
    lemma_fundamental_div_mod(cell, x_res - 1);
    lemma_mod_pos_bound(cell, x_res - 1);
    assert(0 <= row < y_res - 1) by (nonlinear_arith)
        requires
            cell == (x_res - 1) * row + col,
            0 <= col < x_res - 1,
            0 <= cell < (x_res - 1) * (y_res - 1),
    ;
    assert(row * x_res + col + x_res + 1 < x_res * y_res) by (nonlinear_arith)
        requires
            0 <= row <= y_res - 2,
            0 <= col <= x_res - 2,
    ;
    assert(0 <= row * x_res) by (nonlinear_arith)
        requires
            0 <= row,
            0 <= x_res,
    ;
}

/// The entry at corner `j` of cell `(s, t)` is where the triangle list
/// puts it.
proof fn lemma_grid_index_of_cell(x_res: int, t: int, s: int, j: int)
    requires
        2 <= x_res,
        0 <= t,
        0 <= s < x_res - 1,
        0 <= j < 6,
    ensures
        spec_grid_index(x_res, 6 * ((x_res - 1) * t + s) + j) == t * x_res + s + spec_corner_offset(
            x_res,
            j,
        ),
{
    let cell = (x_res - 1) * t + s;
    assert(cell == t * (x_res - 1) + s) by (nonlinear_arith)
        requires
            cell == (x_res - 1) * t + s,
    ;
    lemma_fundamental_div_mod_converse(6 * cell + j, 6, cell, j);
    lemma_fundamental_div_mod_converse(cell, x_res - 1, t, s);
}

/// Triangle list of a grid of `x_res` columns and `y_res` rows.
pub fn grid_indices(x_res: u16, y_res: u16) -> (r: Vec<u16>)
    requires
        valid_grid(x_res as int, y_res as int),
    ensures
        r@.len() == spec_grid_index_count(x_res as int, y_res as int),
        forall|k: int| 0 <= k < r@.len() ==> r@[k] as int == spec_grid_index(x_res as int, k),
        forall|k: int|
            0 <= k < r@.len() ==> (r@[k] as int) < spec_grid_vertex_count(x_res as int, y_res as int),
{
    let x: usize = x_res as usize;
    let y: usize = y_res as usize;
    let ghost xi = x as int;
    let ghost yi = y as int;
    let mut r: Vec<u16> = Vec::new();
    let mut t: usize = 0;
    while t < y - 1
        invariant
            2 <= xi && 2 <= yi && xi * yi <= 65536,
            x == xi,
            y == yi,
            0 <= t <= y - 1,
            r@.len() == 6 * ((xi - 1) * t),
            forall|k: int| 0 <= k < r@.len() ==> r@[k] as int == spec_grid_index(xi, k),
        decreases y - 1 - t,
    {
        let mut s: usize = 0;
        while s < x - 1
            invariant
                2 <= xi && 2 <= yi && xi * yi <= 65536,
                x == xi,
                y == yi,
                0 <= t < y - 1,
                0 <= s <= x - 1,
                r@.len() == 6 * ((xi - 1) * t + s),
                forall|k: int| 0 <= k < r@.len() ==> r@[k] as int == spec_grid_index(xi, k),
            decreases x - 1 - s,
        {
            assert(t * xi + s + xi + 1 < xi * yi) by (nonlinear_arith)
                requires
                    0 <= t <= yi - 2,
                    0 <= s <= xi - 2,
            ;
            assert(0 <= t * xi) by (nonlinear_arith)
                requires
                    0 <= t,
                    0 <= xi,
            ;
            let base: usize = t * x + s;
            let ghost start = r@.len() as int;
            proof {
                lemma_grid_index_of_cell(xi, t as int, s as int, 0);
                lemma_grid_index_of_cell(xi, t as int, s as int, 1);
                lemma_grid_index_of_cell(xi, t as int, s as int, 2);
                lemma_grid_index_of_cell(xi, t as int, s as int, 3);
                lemma_grid_index_of_cell(xi, t as int, s as int, 4);
                lemma_grid_index_of_cell(xi, t as int, s as int, 5);
            }
            r.push(base as u16);
            r.push((base + 1) as u16);
            r.push((base + x) as u16);
            r.push((base + 1) as u16);
            r.push((base + x + 1) as u16);
            r.push((base + x) as u16);
            assert(r@.len() == 6 * ((xi - 1) * t + s + 1)) by (nonlinear_arith)
                requires
                    r@.len() == start + 6,
                    start == 6 * ((xi - 1) * t + s),
            ;
            s = s + 1;
        }
        assert(r@.len() == 6 * ((xi - 1) * (t + 1))) by (nonlinear_arith)
            requires
                r@.len() == 6 * ((xi - 1) * t + (xi - 1)),
        ;
        t = t + 1;
    }
    assert(r@.len() == spec_grid_index_count(xi, yi)) by (nonlinear_arith)
        requires
            r@.len() == 6 * ((xi - 1) * (yi - 1)),
    ;
    proof {
        assert forall|k: int| 0 <= k < r@.len() implies (r@[k] as int) < spec_grid_vertex_count(
            xi,
            yi,
        ) by {
            lemma_grid_index_in_range(xi, yi, k);
        }
    }
    r
}

/// Column and row of every vertex of a grid, in storage order.
pub fn grid_points(x_res: u16, y_res: u16) -> (r: Vec<(u16, u16)>)
    requires
        valid_grid(x_res as int, y_res as int),
    ensures
        r@.len() == spec_grid_vertex_count(x_res as int, y_res as int),
        forall|i: int|
            0 <= i < r@.len() ==> (r@[i].0 as int, r@[i].1 as int) == spec_grid_point(
                x_res as int,
                i,
            ),
{
    let ghost xi = x_res as int;
    let ghost yi = y_res as int;
    let mut r: Vec<(u16, u16)> = Vec::new();
    let mut t: u16 = 0;
    while t < y_res
        invariant
            valid_grid(xi, yi),
            x_res == xi,
            y_res == yi,
            0 <= t <= y_res,
            r@.len() == xi * t,
            forall|i: int|
                0 <= i < r@.len() ==> (r@[i].0 as int, r@[i].1 as int) == spec_grid_point(xi, i),
        decreases y_res - t,
    {
        let mut s: u16 = 0;
        while s < x_res
            invariant
                valid_grid(xi, yi),
                x_res == xi,
                y_res == yi,
                0 <= t < y_res,
                0 <= s <= x_res,
                r@.len() == xi * t + s,
                forall|i: int|
                    0 <= i < r@.len() ==> (r@[i].0 as int, r@[i].1 as int) == spec_grid_point(
                        xi,
                        i,
                    ),
            decreases x_res - s,
        {
            proof {
                lemma_fundamental_div_mod_converse(t * xi + s, xi, t as int, s as int);
                assert(xi * t == t * xi) by (nonlinear_arith);
            }
            r.push((s, t));
            s = s + 1;
        }
        assert(r@.len() == xi * (t + 1)) by (nonlinear_arith)
            requires
                r@.len() == xi * t + xi,
        ;
        t = t + 1;
    }
    r
}

/// The flag has `FLAG_X_RES * FLAG_Y_RES` vertices and
/// `6 * (FLAG_X_RES - 1) * (FLAG_Y_RES - 1)` triangle corners, and every
/// corner names one of its vertices.
pub proof fn lemma_flag_counts(k: int)
    ensures
        FLAG_VERTEX_COUNT == spec_grid_vertex_count(FLAG_X_RES as int, FLAG_Y_RES as int),
        FLAG_INDEX_COUNT == spec_grid_index_count(FLAG_X_RES as int, FLAG_Y_RES as int),
        0 <= k < FLAG_INDEX_COUNT ==> 0 <= spec_grid_index(FLAG_X_RES as int, k)
            < FLAG_VERTEX_COUNT,
{
    if 0 <= k < FLAG_INDEX_COUNT {
        lemma_grid_index_in_range(FLAG_X_RES as int, FLAG_Y_RES as int, k);
    }
}

/// Triangle list of the flag.
pub fn flag_indices() -> (r: Vec<u16>)
    ensures
        r@.len() == FLAG_INDEX_COUNT,
        r@.len() == spec_grid_index_count(FLAG_X_RES as int, FLAG_Y_RES as int),
        forall|k: int| 0 <= k < r@.len() ==> r@[k] as int == spec_grid_index(FLAG_X_RES as int, k),
        forall|k: int| 0 <= k < r@.len() ==> (r@[k] as int) < FLAG_VERTEX_COUNT,
{
    grid_indices(FLAG_X_RES, FLAG_Y_RES)
}

/// Column and row of every flag vertex, in storage order.
pub fn flag_points() -> (r: Vec<(u16, u16)>)
    ensures
        r@.len() == FLAG_VERTEX_COUNT,
        forall|i: int|
            0 <= i < r@.len() ==> (r@[i].0 as int, r@[i].1 as int) == spec_grid_point(
                FLAG_X_RES as int,
                i,
            ),
{
    grid_points(FLAG_X_RES, FLAG_Y_RES)
}

} // verus!
