//! The static background: a ground quad, a wall quad and a flagpole swept
//! around its vertical axis, all in one vertex array and one triangle list.
//!
//! Vertex order: the four ground corners, the four wall corners, the pole's
//! apex, then `POLE_RES` rings of `POLE_SLICE` vertices (one per profile
//! level, top to bottom), and last the centre of the pole's base.
//!
//! Lengths are held in ten-thousandths of a scene unit and texture
//! coordinates in 128ths of the texture, so that every value of the scene
//! is an exact integer.
use vstd::prelude::*;
use vstd::arithmetic::div_mod::lemma_fundamental_div_mod;
use vstd::arithmetic::div_mod::lemma_fundamental_div_mod_converse;
use vstd::arithmetic::div_mod::lemma_mod_pos_bound;

verus! {

/// Angular steps around the pole.
pub const POLE_RES: u16 = 16;

/// Vertices of the pole's profile, swept at each angular step.
pub const POLE_SLICE: u16 = 6;

/// Index of the pole's apex vertex.
pub const POLE_APEX: u16 = 8;

/// Index of the first vertex of the first ring.
pub const POLE_RING_START: u16 = 9;

/// Index of the centre of the pole's base.
pub const POLE_BASE: u16 = 105;

/// Vertices of the whole background.
pub const BACKGROUND_VERTEX_COUNT: usize = 106;

/// Entries of the background's triangle list.
pub const BACKGROUND_INDEX_COUNT: usize = 492;

/// Specular exponent of the pole.
pub const POLE_SHININESS: u8 = 4;

/// The levels of the pole's profile, from the top of the truck down.
/// `BaseRim` lies where `ShaftBottom` does but faces down, to close the base.
#[derive(Clone, Copy, Debug, PartialEq, Eq, Structural)]
pub enum PoleLevel {
    TruckTop,
    TruckCrown,
    TruckBottom,
    ShaftTop,
    ShaftBottom,
    BaseRim,
}

/// The three pieces of the background; each has its own texture region.
#[derive(Clone, Copy, Debug, PartialEq, Eq, Structural)]
pub enum Piece {
    Ground,
    Wall,
    Pole,
}

/// What a background vertex is.
#[derive(Clone, Copy, Debug, PartialEq, Eq, Structural)]
pub enum SceneVertex {
    /// A ground corner, on the high or low side of x and of z.
    Ground { x_hi: bool, z_hi: bool },
    /// A wall corner, on the high or low side of x and of y.
    Wall { x_hi: bool, y_hi: bool },
    /// The tip of the truck, on the axis.
    PoleApex,
    /// The vertex of a profile level at an angular step.
    PoleRing { step: u16, level: PoleLevel },
    /// The centre of the base, on the axis.
    PoleBase,
}

/// Where a vertex lies before the sweep: a centre and a radius about it in
/// the horizontal plane, at a height. A vertex at angular step `i` lies at
/// `(center_x + radius * cos a, y, center_z + radius * sin a)` with
/// `a = 2 * pi * i / POLE_RES`; a vertex with radius 0 lies at its centre.
/// All lengths are in ten-thousandths of a scene unit.
#[derive(Clone, Copy, Debug, PartialEq, Eq, Structural)]
pub struct Anchor {
    pub center_x: i32,
    pub y: i32,
    pub center_z: i32,
    pub radius: i32,
}

/// A rectangle of the texture, in 128ths of its width and height.
#[derive(Clone, Copy, Debug, PartialEq, Eq, Structural)]
pub struct AtlasRegion {
    pub u_lo: u16,
    pub v_lo: u16,
    pub u_hi: u16,
    pub v_hi: u16,
}

/// How light is reflected at a vertex: an RGBA specular tint and an
/// exponent.
#[derive(Clone, Copy, Debug, PartialEq, Eq)]
pub struct Material {
    pub specular: [u8; 4],
    pub shininess: u8,
}

/// The normal of a swept pole vertex at angle `a` is
/// `(radial * cos a, vertical, radial * sin a)`. Its two parts are given by
/// their squares in sixteenths, with the sign of the vertical part.
#[derive(Clone, Copy, Debug, PartialEq, Eq, Structural)]
pub struct NormalProfile {
    pub radial_sq: u8,
    pub vertical_sq: u8,
    pub downward: bool,
}

pub open spec fn spec_pole_vertex_count() -> int {
    2 + POLE_RES * POLE_SLICE
}

pub open spec fn spec_pole_index_count() -> int {
    3 * (POLE_SLICE - 1) * 2 * POLE_RES
}

pub open spec fn spec_level(j: int) -> PoleLevel {
    if j == 0 {
        PoleLevel::TruckTop
    } else if j == 1 {
        PoleLevel::TruckCrown
    } else if j == 2 {
        PoleLevel::TruckBottom
    } else if j == 3 {
        PoleLevel::ShaftTop
    } else if j == 4 {
        PoleLevel::ShaftBottom
    } else {
        PoleLevel::BaseRim
    }
}

/// Index of the vertex of level `l` at angular step `i`.
pub open spec fn spec_ring(i: int, l: int) -> int {
    POLE_RING_START + POLE_SLICE * i + l
}

/// Vertex `v` of the background.
pub open spec fn spec_scene_vertex(v: int) -> SceneVertex {
    if v < 4 {
        SceneVertex::Ground { x_hi: v == 1 || v == 2, z_hi: v == 2 || v == 3 }
    } else if v < 8 {
        SceneVertex::Wall { x_hi: v == 5 || v == 6, y_hi: v == 6 || v == 7 }
    } else if v == POLE_APEX {
        SceneVertex::PoleApex
    } else if v < POLE_BASE {
        SceneVertex::PoleRing {
            step: ((v - POLE_RING_START) / POLE_SLICE as int) as u16,
            level: spec_level((v - POLE_RING_START) % POLE_SLICE as int),
        }
    } else {
        SceneVertex::PoleBase
    }
}

/// The two triangles of the ground, then the two of the wall.
pub open spec fn spec_quad_indices() -> Seq<int> {
    seq![0, 1, 2, 0, 2, 3, 4, 5, 6, 4, 6, 7]
}

/// Corner `q` of the two triangles that join levels `b` and `b + 1`
/// between angular step `i` and the next one, `n`.
pub open spec fn spec_band_corner(i: int, n: int, b: int, q: int) -> int {
    let step = if q == 2 || q == 4 || q == 5 {
        n
    } else {
        i
    };
    let level = if q == 1 || q == 3 || q == 4 {
        b + 1
    } else {
        b
    };
    spec_ring(step, level)
}

/// Entry `j` of the 30 that angular step `i` adds: a triangle from the
/// apex, two triangles for each of the four bands between consecutive
/// levels down to the shaft's bottom, and a triangle to the base's centre.
/// The last step joins back to the first.
pub open spec fn spec_step_index(i: int, j: int) -> int {
    let n = (i + 1) % (POLE_RES as int);
    if j < 3 {
        seq![POLE_APEX as int, spec_ring(i, 0), spec_ring(n, 0)][j]
    } else if j < 27 {
        spec_band_corner(i, n, (j - 3) / 6, (j - 3) % 6)
    } else {
        seq![spec_ring(i, 5), POLE_BASE as int, spec_ring(n, 5)][j - 27]
    }
}

/// Entry `k` of the background's triangle list.
pub open spec fn spec_scene_index(k: int) -> int {
    if k < 12 {
        spec_quad_indices()[k]
    } else {
        spec_step_index((k - 12) / 30, (k - 12) % 30)
    }
}

pub open spec fn spec_level_profile(l: PoleLevel) -> (int, int) {
    match l {
        PoleLevel::TruckTop => (5000, 50),
        PoleLevel::TruckCrown => (4100, 200),
        PoleLevel::TruckBottom => (3800, 150),
        PoleLevel::ShaftTop => (3775, 100),
        PoleLevel::ShaftBottom => (-10000, 100),
        PoleLevel::BaseRim => (-10000, 100),
    }
}

/// The truck's top slopes up and out, its bottom slopes down and out; the
/// shaft faces straight out, and the base rim straight down.
pub open spec fn spec_level_normal(l: PoleLevel) -> NormalProfile {
    match l {
        PoleLevel::TruckTop => NormalProfile { radial_sq: 4, vertical_sq: 12, downward: false },
        PoleLevel::TruckBottom => NormalProfile { radial_sq: 15, vertical_sq: 1, downward: true },
        PoleLevel::BaseRim => NormalProfile { radial_sq: 0, vertical_sq: 16, downward: true },
        _ => NormalProfile { radial_sq: 16, vertical_sq: 0, downward: false },
    }
}

/// The pole's axis, one shaft radius behind the flag's edge.
pub open spec fn spec_axis() -> (int, int) {
    (-100, 0)
}

pub open spec fn spec_anchor(v: SceneVertex) -> Anchor {
    match v {
        SceneVertex::Ground { x_hi, z_hi } => Anchor {
            center_x: if x_hi {
                18750
            } else {
                -8750i32
            },
            y: -10000i32,
            center_z: if z_hi {
                2000
            } else {
                -24500i32
            },
            radius: 0,
        },
        SceneVertex::Wall { x_hi, y_hi } => Anchor {
            center_x: if x_hi {
                18750
            } else {
                -8750i32
            },
            y: if y_hi {
                20000
            } else {
                -10000i32
            },
            center_z: 2000,
            radius: 0,
        },
        SceneVertex::PoleApex => Anchor {
            center_x: spec_axis().0 as i32,
            y: spec_level_profile(PoleLevel::TruckTop).0 as i32,
            center_z: spec_axis().1 as i32,
            radius: 0,
        },
        SceneVertex::PoleRing { step, level } => Anchor {
            center_x: spec_axis().0 as i32,
            y: spec_level_profile(level).0 as i32,
            center_z: spec_axis().1 as i32,
            radius: spec_level_profile(level).1 as i32,
        },
        SceneVertex::PoleBase => Anchor {
            center_x: spec_axis().0 as i32,
            y: spec_level_profile(PoleLevel::ShaftBottom).0 as i32,
            center_z: spec_axis().1 as i32,
            radius: 0,
        },
    }
}

pub open spec fn spec_piece(v: SceneVertex) -> Piece {
    match v {
        SceneVertex::Ground { .. } => Piece::Ground,
        SceneVertex::Wall { .. } => Piece::Wall,
        _ => Piece::Pole,
    }
}

pub open spec fn spec_atlas_region(p: Piece) -> AtlasRegion {
    match p {
        Piece::Pole => AtlasRegion { u_lo: 0, v_lo: 0, u_hi: 4, v_hi: 128 },
        Piece::Ground => AtlasRegion { u_lo: 4, v_lo: 1, u_hi: 66, v_hi: 127 },
        Piece::Wall => AtlasRegion { u_lo: 66, v_lo: 1, u_hi: 128, v_hi: 127 },
    }
}

/// The pole is shiny metal; ground and wall are matte.
pub open spec fn spec_material(p: Piece) -> Material {
    match p {
        Piece::Pole => Material { specular: [255, 255, 192, 0], shininess: POLE_SHININESS },
        _ => Material { specular: [0, 0, 0, 0], shininess: 0 },
    }
}

pub fn level_at(j: u16) -> (r: PoleLevel)
    requires
        j < POLE_SLICE,
    ensures
        r == spec_level(j as int),
{
    if j == 0 {
        PoleLevel::TruckTop
    } else if j == 1 {
        PoleLevel::TruckCrown
    } else if j == 2 {
        PoleLevel::TruckBottom
    } else if j == 3 {
        PoleLevel::ShaftTop
    } else if j == 4 {
        PoleLevel::ShaftBottom
    } else {
        PoleLevel::BaseRim
    }
}

/// Vertex `v` of the background.
pub fn scene_vertex(v: u16) -> (r: SceneVertex)
    requires
        (v as int) < BACKGROUND_VERTEX_COUNT,
    ensures
        r == spec_scene_vertex(v as int),
{
    if v < 4 {
        SceneVertex::Ground { x_hi: v == 1 || v == 2, z_hi: v == 2 || v == 3 }
    } else if v < 8 {
        SceneVertex::Wall { x_hi: v == 5 || v == 6, y_hi: v == 6 || v == 7 }
    } else if v == POLE_APEX {
        SceneVertex::PoleApex
    } else if v < POLE_BASE {
        let step = (v - POLE_RING_START) / POLE_SLICE;
        let j = (v - POLE_RING_START) % POLE_SLICE;
        SceneVertex::PoleRing { step, level: level_at(j) }
    } else {
        SceneVertex::PoleBase
    }
}

/// Every vertex of the background, in storage order.
pub fn scene_vertices() -> (r: Vec<SceneVertex>)
    ensures
        r@.len() == BACKGROUND_VERTEX_COUNT,
        r@.len() == spec_pole_vertex_count() + 8,
        forall|v: int| 0 <= v < r@.len() ==> r@[v] == spec_scene_vertex(v),
{
    let mut r: Vec<SceneVertex> = Vec::new();
    let mut v: u16 = 0;
    while (v as usize) < BACKGROUND_VERTEX_COUNT
        invariant
            v <= BACKGROUND_VERTEX_COUNT,
            r@.len() == v,
            forall|w: int| 0 <= w < r@.len() ==> r@[w] == spec_scene_vertex(w),
        decreases BACKGROUND_VERTEX_COUNT - v,
    {
        r.push(scene_vertex(v));
        v = v + 1;
    }
    r
}

pub fn level_profile(l: PoleLevel) -> (r: (i32, i32))
    ensures
        (r.0 as int, r.1 as int) == spec_level_profile(l),
{
    match l {
        PoleLevel::TruckTop => (5000, 50),
        PoleLevel::TruckCrown => (4100, 200),
        PoleLevel::TruckBottom => (3800, 150),
        PoleLevel::ShaftTop => (3775, 100),
        PoleLevel::ShaftBottom => (-10000, 100),
        PoleLevel::BaseRim => (-10000, 100),
    }
}

/// The normal of a profile level; it has unit length.
pub fn level_normal(l: PoleLevel) -> (r: NormalProfile)
    ensures
        r == spec_level_normal(l),
        r.radial_sq + r.vertical_sq == 16,
{
    match l {
        PoleLevel::TruckTop => NormalProfile { radial_sq: 4, vertical_sq: 12, downward: false },
        PoleLevel::TruckBottom => NormalProfile { radial_sq: 15, vertical_sq: 1, downward: true },
        PoleLevel::BaseRim => NormalProfile { radial_sq: 0, vertical_sq: 16, downward: true },
        _ => NormalProfile { radial_sq: 16, vertical_sq: 0, downward: false },
    }
}

/// Where vertex `v` lies before the sweep.
pub fn anchor(v: SceneVertex) -> (r: Anchor)
    ensures
        r == spec_anchor(v),
{
    let axis_x: i32 = -100;
    let axis_z: i32 = 0;
    match v {
        SceneVertex::Ground { x_hi, z_hi } => Anchor {
            center_x: if x_hi {
                18750
            } else {
                -8750
            },
            y: -10000,
            center_z: if z_hi {
                2000
            } else {
                -24500
            },
            radius: 0,
        },
        SceneVertex::Wall { x_hi, y_hi } => Anchor {
            center_x: if x_hi {
                18750
            } else {
                -8750
            },
            y: if y_hi {
                20000
            } else {
                -10000
            },
            center_z: 2000,
            radius: 0,
        },
        SceneVertex::PoleApex => Anchor {
            center_x: axis_x,
            y: level_profile(PoleLevel::TruckTop).0,
            center_z: axis_z,
            radius: 0,
        },
        SceneVertex::PoleRing { step, level } => {
            let (y, radius) = level_profile(level);
            Anchor { center_x: axis_x, y, center_z: axis_z, radius }
        },
        SceneVertex::PoleBase => Anchor {
            center_x: axis_x,
            y: level_profile(PoleLevel::ShaftBottom).0,
            center_z: axis_z,
            radius: 0,
        },
    }
}

pub fn piece(v: SceneVertex) -> (r: Piece)
    ensures
        r == spec_piece(v),
{
    match v {
        SceneVertex::Ground { .. } => Piece::Ground,
        SceneVertex::Wall { .. } => Piece::Wall,
        _ => Piece::Pole,
    }
}

pub fn atlas_region(p: Piece) -> (r: AtlasRegion)
    ensures
        r == spec_atlas_region(p),
{
    match p {
        Piece::Pole => AtlasRegion { u_lo: 0, v_lo: 0, u_hi: 4, v_hi: 128 },
        Piece::Ground => AtlasRegion { u_lo: 4, v_lo: 1, u_hi: 66, v_hi: 127 },
        Piece::Wall => AtlasRegion { u_lo: 66, v_lo: 1, u_hi: 128, v_hi: 127 },
    }
}

pub fn material(p: Piece) -> (r: Material)
    ensures
        r == spec_material(p),
{
    match p {
        Piece::Pole => Material { specular: [255, 255, 192, 0], shininess: POLE_SHININESS },
        _ => Material { specular: [0, 0, 0, 0], shininess: 0 },
    }
}

/// The index of the vertex of level `l` at angular step `i`.
fn ring(i: u16, l: u16) -> (r: u16)
    requires
        i < POLE_RES,
        l < POLE_SLICE,
    ensures
        r == spec_ring(i as int, l as int),
        POLE_RING_START <= r < POLE_BASE,
{
    POLE_RING_START + POLE_SLICE * i + l
}

/// Entry `j` of the step's entries sits at `12 + 30 * i + j`.
proof fn lemma_scene_index_of_step(i: int, j: int)
    requires
        0 <= i < POLE_RES,
        0 <= j < 30,
    ensures
        spec_scene_index(12 + 30 * i + j) == spec_step_index(i, j),
{
    lemma_fundamental_div_mod_converse(30 * i + j, 30, i, j);
}

/// Corner `q` of band `b` sits at entry `3 + 6 * b + q` of its step.
proof fn lemma_step_index_of_band(i: int, b: int, q: int)
    requires
        0 <= b < 4,
        0 <= q < 6,
    ensures
        spec_step_index(i, 3 + 6 * b + q) == spec_band_corner(
            i,
            (i + 1) % (POLE_RES as int),
            b,
            q,
        ),
{
    lemma_fundamental_div_mod_converse(6 * b + q, 6, b, q);
}

/// The background's triangle list.
pub fn scene_indices() -> (r: Vec<u16>)
    ensures
        r@.len() == BACKGROUND_INDEX_COUNT,
        r@.len() == spec_pole_index_count() + 12,
        forall|k: int| 0 <= k < r@.len() ==> r@[k] as int == spec_scene_index(k),
        forall|k: int| 0 <= k < r@.len() ==> (r@[k] as int) < BACKGROUND_VERTEX_COUNT,
{
    let mut r: Vec<u16> = Vec::new();
    r.push(0);
    r.push(1);
    r.push(2);
    r.push(0);
    r.push(2);
    r.push(3);
    r.push(4);
    r.push(5);
    r.push(6);
    r.push(4);
    r.push(6);
    r.push(7);
    assert(forall|k: int| 0 <= k < 12 ==> r@[k] as int == spec_scene_index(k));
    let mut i: u16 = 0;
    while i < POLE_RES
        invariant
            i <= POLE_RES,
            r@.len() == 12 + 30 * i,
            forall|k: int| 0 <= k < r@.len() ==> r@[k] as int == spec_scene_index(k),
        decreases POLE_RES - i,
    {
        let n: u16 = if i + 1 == POLE_RES {
            0
        } else {
            i + 1
        };
        assert(n == (i + 1) % (POLE_RES as int));
        let ghost start = r@.len() as int;
        proof {
            lemma_scene_index_of_step(i as int, 0);
            lemma_scene_index_of_step(i as int, 1);
            lemma_scene_index_of_step(i as int, 2);
        }
        r.push(POLE_APEX);
        r.push(ring(i, 0));
        r.push(ring(n, 0));
        let mut b: u16 = 0;
        while b < 4
            invariant
                i < POLE_RES,
                n == (i + 1) % (POLE_RES as int),
                start == 12 + 30 * i,
                b <= 4,
                r@.len() == start + 3 + 6 * b,
                forall|k: int| 0 <= k < r@.len() ==> r@[k] as int == spec_scene_index(k),
            decreases 4 - b,
        {
            proof {
                lemma_step_index_of_band(i as int, b as int, 0);
                lemma_scene_index_of_step(i as int, 3 + 6 * b + 0);
                lemma_step_index_of_band(i as int, b as int, 1);
                lemma_scene_index_of_step(i as int, 3 + 6 * b + 1);
                lemma_step_index_of_band(i as int, b as int, 2);
                lemma_scene_index_of_step(i as int, 3 + 6 * b + 2);
                lemma_step_index_of_band(i as int, b as int, 3);
                lemma_scene_index_of_step(i as int, 3 + 6 * b + 3);
                lemma_step_index_of_band(i as int, b as int, 4);
                lemma_scene_index_of_step(i as int, 3 + 6 * b + 4);
                lemma_step_index_of_band(i as int, b as int, 5);
                lemma_scene_index_of_step(i as int, 3 + 6 * b + 5);
            }
            r.push(ring(i, b));
            r.push(ring(i, b + 1));
            r.push(ring(n, b));
            r.push(ring(i, b + 1));
            r.push(ring(n, b + 1));
            r.push(ring(n, b));
            b = b + 1;
        }
        proof {
            lemma_scene_index_of_step(i as int, 27);
            lemma_scene_index_of_step(i as int, 28);
            lemma_scene_index_of_step(i as int, 29);
        }
        r.push(ring(i, 5));
        r.push(POLE_BASE);
        r.push(ring(n, 5));
        i = i + 1;
    }
    proof {
        lemma_scene_counts();
        assert forall|k: int| 0 <= k < r@.len() implies (r@[k] as int) < BACKGROUND_VERTEX_COUNT by {
            assert(r@[k] as int == spec_scene_index(k));
        }
    }
    r
}

/// The background holds the ground's and the wall's four corners and two
/// triangles each, plus a pole of `2 + POLE_RES * POLE_SLICE` vertices and
/// `3 * (POLE_SLICE - 1) * 2 * POLE_RES` triangle corners; every entry of
/// its triangle list names one of its vertices.
pub proof fn lemma_scene_counts()
    ensures
        BACKGROUND_VERTEX_COUNT == spec_pole_vertex_count() + 4 + 4,
        BACKGROUND_INDEX_COUNT == spec_pole_index_count() + 6 + 6,
        BACKGROUND_INDEX_COUNT % 3 == 0,
        forall|k: int|
            0 <= k < BACKGROUND_INDEX_COUNT ==> 0 <= #[trigger] spec_scene_index(k)
                < BACKGROUND_VERTEX_COUNT,
{
    assert forall|k: int| 0 <= k < BACKGROUND_INDEX_COUNT implies 0 <= #[trigger] spec_scene_index(k)
        < BACKGROUND_VERTEX_COUNT by {
        if k >= 12 {
            lemma_fundamental_div_mod(k - 12, 30);
            lemma_mod_pos_bound(k - 12, 30);
            let j = (k - 12) % 30;
            if 3 <= j < 27 {
                lemma_fundamental_div_mod(j - 3, 6);
                lemma_mod_pos_bound(j - 3, 6);
            }
        }
    }
}

} // verus!
