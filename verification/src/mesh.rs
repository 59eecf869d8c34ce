//! Regular-grid tessellation of a surface into renderable buffers.
//!
//! The generator samples a [`SurfaceFunction`] over an `N x N` grid and
//! emits three parallel buffers: positions, gradient-based normals and
//! a 16-bit index stream describing either filled triangles or their
//! wireframe edges.  Row 0 sits at domain `y = +1` (image-style
//! top-to-bottom ordering), the height stands on the middle axis, and
//! every cell is split along the same diagonal into the two triangles
//! `(tl, bl, tr)` and `(tr, bl, br)`.
//!
//! Normals are the un-normalized vectors `(-df/dx, 1, -df/dy)`; unit
//! length is left to the rendering backend, a known precision caveat of
//! this pipeline rather than something silently corrected here.

use vstd::prelude::*;
use vstd::arithmetic::div_mod::lemma_fundamental_div_mod_converse;
use vstd::arithmetic::div_mod::lemma_mod_pos_bound;
use vstd::arithmetic::div_mod::lemma_multiply_divide_lt;
use vstd::arithmetic::div_mod::lemma_div_pos_is_pos;
use crate::error::PlotError;
use crate::numeric::SCALE;
use crate::surface::Rational;
use crate::surface::SurfaceFunction;

verus! {

/// Smallest grid that has any cells.
pub const MIN_RESOLUTION: u16 = 2;

/// Largest grid whose vertices a 16-bit index stream can address.
pub const MAX_RESOLUTION: u16 = 256;

/// A supported grid resolution.
pub open spec fn grid_valid(n: int) -> bool {
    MIN_RESOLUTION <= n <= MAX_RESOLUTION
}

/// Column of sample `i` on an `n`-wide grid.
pub open spec fn grid_col(i: int, n: int) -> int {
    i % n
}

/// Row of sample `i` on an `n`-wide grid.
pub open spec fn grid_row(i: int, n: int) -> int {
    i / n
}

/// Numerator of the domain `x` coordinate of sample `i`: columns map
/// left-to-right onto `[-1, 1]` over the denominator `n - 1`.
pub open spec fn x_num_at(i: int, n: int) -> int {
    2 * grid_col(i, n) - (n - 1)
}

/// Numerator of the domain `y` coordinate of sample `i`: row 0 maps to
/// `+1` and the last row to `-1`, over the denominator `n - 1`.
pub open spec fn y_num_at(i: int, n: int) -> int {
    (n - 1) - 2 * grid_row(i, n)
}

/// The exact domain `x` coordinate of sample `i`.
pub open spec fn coord_x_at(i: int, n: int) -> Rational {
    Rational { num: x_num_at(i, n) as i32, den: (n - 1) as u32 }
}

/// The exact domain `y` coordinate of sample `i`.
pub open spec fn coord_y_at(i: int, n: int) -> Rational {
    Rational { num: y_num_at(i, n) as i32, den: (n - 1) as u32 }
}

/// A sampled surface point: domain coordinates on the outer axes, the
/// field value on the middle axis, so the plot stands upright in the
/// default view.
#[derive(Clone, Copy, Debug, PartialEq, Eq, Structural)]
pub struct Vertex {
    /// Domain `x`, the first position component.
    pub x: Rational,
    /// The field value `f(x, y)` in micro units, the middle component.
    pub height: i64,
    /// Domain `y`, the third position component.
    pub y: Rational,
}

/// The un-normalized gradient-based normal `(-df/dx, 1, -df/dy)` at a
/// sample, in micro units (`1` is `SCALE`).
#[derive(Clone, Copy, Debug, PartialEq, Eq, Structural)]
pub struct SurfaceNormal {
    /// First component, `-df/dx`.
    pub x: i64,
    /// Middle component, one whole unit.
    pub y: i64,
    /// Third component, `-df/dy`.
    pub z: i64,
}

/// The vertex the generator owes at sample `i`.
pub open spec fn vertex_at<F: SurfaceFunction>(f: F, i: int, n: int) -> Vertex {
    Vertex {
        x: coord_x_at(i, n),
        height: f.spec_height(coord_x_at(i, n), coord_y_at(i, n)),
        y: coord_y_at(i, n),
    }
}

/// The normal the generator owes at sample `i`.
pub open spec fn normal_at<F: SurfaceFunction>(f: F, i: int, n: int) -> SurfaceNormal {
    SurfaceNormal {
        x: (-f.spec_grad_x(coord_x_at(i, n), coord_y_at(i, n))) as i64,
        y: SCALE,
        z: (-f.spec_grad_y(coord_x_at(i, n), coord_y_at(i, n))) as i64,
    }
}

/// Number of grid cells; each contributes two triangles.
pub open spec fn cell_count(n: int) -> int {
    (n - 1) * (n - 1)
}

/// Column of cell `j`.
pub open spec fn cell_col(j: int, n: int) -> int {
    j % (n - 1)
}

/// Row of cell `j`.
pub open spec fn cell_row(j: int, n: int) -> int {
    j / (n - 1)
}

/// Top-left vertex index of cell `j`.
pub open spec fn top_left(j: int, n: int) -> int {
    cell_row(j, n) * n + cell_col(j, n)
}

/// Top-right vertex index of cell `j`.
pub open spec fn top_right(j: int, n: int) -> int {
    top_left(j, n) + 1
}

/// Bottom-left vertex index of cell `j`.
pub open spec fn bottom_left(j: int, n: int) -> int {
    top_left(j, n) + n
}

/// Bottom-right vertex index of cell `j`.
pub open spec fn bottom_right(j: int, n: int) -> int {
    top_left(j, n) + n + 1
}

/// Entry `k` of the filled-triangle index stream: each cell emits the
/// two triangles `(tl, bl, tr)` and `(tr, bl, br)`, in that fixed
/// winding order.
pub open spec fn tri_index_at(k: int, n: int) -> int {
    let j = k / 6;
    let r = k % 6;
    if r == 0 {
        top_left(j, n)
    } else if r == 1 {
        bottom_left(j, n)
    } else if r == 2 {
        top_right(j, n)
    } else if r == 3 {
        top_right(j, n)
    } else if r == 4 {
        bottom_left(j, n)
    } else {
        bottom_right(j, n)
    }
}

/// Entry `k` of the wireframe index stream: line pairs covering the
/// three edges of each of the same two triangles.
pub open spec fn wire_index_at(k: int, n: int) -> int {
    let j = k / 12;
    let r = k % 12;
    if r == 0 {
        top_left(j, n)
    } else if r == 1 {
        bottom_left(j, n)
    } else if r == 2 {
        bottom_left(j, n)
    } else if r == 3 {
        top_right(j, n)
    } else if r == 4 {
        top_right(j, n)
    } else if r == 5 {
        top_left(j, n)
    } else if r == 6 {
        top_right(j, n)
    } else if r == 7 {
        bottom_left(j, n)
    } else if r == 8 {
        bottom_left(j, n)
    } else if r == 9 {
        bottom_right(j, n)
    } else if r == 10 {
        bottom_right(j, n)
    } else {
        top_right(j, n)
    }
}

/// The three parallel buffers of one tessellated surface, regenerated
/// wholesale on each render request.
pub struct Mesh {
    /// `n * n` sampled points, row-major, `index = row * n + col`.
    pub positions: Vec<Vertex>,
    /// One normal per position, index-aligned with `positions`.
    pub normals: Vec<SurfaceNormal>,
    /// Triangle triples, or line pairs in wireframe mode, referencing
    /// `positions` and `normals`.
    pub indices: Vec<u16>,
    /// Whether `indices` holds line pairs instead of triangle triples.
    pub wireframe: bool,
}

/// What a generated mesh must be, exactly, for surface `f`, resolution
/// `n` and the chosen index topology.
pub open spec fn mesh_matches<F: SurfaceFunction>(m: Mesh, f: F, n: int, wireframe: bool) -> bool {
    &&& m.positions@.len() == n * n
    &&& m.normals@.len() == n * n
    &&& forall|i: int| 0 <= i < n * n ==> #[trigger] m.positions@[i] == vertex_at(f, i, n)
    &&& forall|i: int| 0 <= i < n * n ==> #[trigger] m.normals@[i] == normal_at(f, i, n)
    &&& m.wireframe == wireframe
    &&& if wireframe {
        &&& m.indices@.len() == 12 * cell_count(n)
        &&& forall|k: int|
            0 <= k < 12 * cell_count(n) ==> (#[trigger] m.indices@[k]) as int == wire_index_at(
                k,
                n,
            )
    } else {
        &&& m.indices@.len() == 6 * cell_count(n)
        &&& forall|k: int|
            0 <= k < 6 * cell_count(n) ==> (#[trigger] m.indices@[k]) as int == tri_index_at(k, n)
    }
}

/// Samples a surface over a regular grid.  The resolution and the
/// surface's own parameters are validated at construction, so that
/// generation itself is total.
pub struct MeshGenerator<F: SurfaceFunction> {
    /// The surface being plotted, owned for the plot's lifetime.
    pub surface: F,
    /// Samples per grid side.
    pub resolution: u16,
    /// Emit wireframe line pairs instead of filled triangles.
    pub wireframe: bool,
}

impl<F: SurfaceFunction> MeshGenerator<F> {
    /// A generator is well formed when its resolution is supported and
    /// its surface is within the surface's own supported range.
    pub open spec fn wf(self) -> bool {
        &&& grid_valid(self.resolution as int)
        &&& self.surface.wf()
    }

    /// Build a generator, rejecting an unsupported resolution: fewer
    /// than two samples per side gives an empty index set, more than
    /// 256 would overflow the 16-bit index width.
    pub fn new(surface: F, resolution: u16, wireframe: bool) -> (r: Result<
        MeshGenerator<F>,
        PlotError,
    >)
        requires
            surface.wf(),
        ensures
            resolution < MIN_RESOLUTION ==> (r matches Err(e) && e
                == PlotError::ResolutionTooSmall),
            resolution > MAX_RESOLUTION ==> (r matches Err(e) && e
                == PlotError::ResolutionTooLarge),
            MIN_RESOLUTION <= resolution <= MAX_RESOLUTION ==> (r matches Ok(g) && g == (
            MeshGenerator { surface, resolution, wireframe }) && g.wf()),
    {
        if resolution < MIN_RESOLUTION {
            Err(PlotError::ResolutionTooSmall)
        } else if resolution > MAX_RESOLUTION {
            Err(PlotError::ResolutionTooLarge)
        } else {
            Ok(MeshGenerator { surface, resolution, wireframe })
        }
    }

    /// Tessellate: emit exactly the positions, normals and indices that
    /// [`mesh_matches`] describes.  Deterministic and side-effect free,
    /// so regenerating for the same generator gives the same mesh.
    pub fn generate(&self) -> (m: Mesh)
        requires
            self.wf(),
        ensures
            mesh_matches(m, self.surface, self.resolution as int, self.wireframe),
    {
        let n: usize = self.resolution as usize;
        proof {
            assert(n * n <= 65536) by (nonlinear_arith)
                requires
                    n <= 256,
            ;
        }
        let total: usize = n * n;
        let den: u32 = (self.resolution - 1) as u32;
        let mut positions: Vec<Vertex> = Vec::new();
        let mut normals: Vec<SurfaceNormal> = Vec::new();
        let mut i: usize = 0;
        while i < total
            invariant
                self.wf(),
                n == self.resolution,
                2 <= n <= 256,
                total == n * n,
                den == n - 1,
                i <= total,
                positions@.len() == i,
                normals@.len() == i,
                forall|t: int|
                    0 <= t < i ==> #[trigger] positions@[t] == vertex_at(
                        self.surface,
                        t,
                        n as int,
                    ),
                forall|t: int|
                    0 <= t < i ==> #[trigger] normals@[t] == normal_at(self.surface, t, n as int),
            decreases total - i,
        {
            proof {
                lemma_mod_pos_bound(i as int, n as int);
                lemma_div_pos_is_pos(i as int, n as int);
                assert(i < n * n);
                lemma_multiply_divide_lt(i as int, n as int, n as int);
            }
            let col: usize = i % n;
            let row: usize = i / n;
            let x_num: i32 = 2 * (col as i32) - (den as i32);
            let y_num: i32 = (den as i32) - 2 * (row as i32);
            let x = Rational { num: x_num, den };
            let y = Rational { num: y_num, den };
            proof {
                assert(x == coord_x_at(i as int, n as int));
                assert(y == coord_y_at(i as int, n as int));
            }
            let h = self.surface.height(x, y);
            let g = self.surface.gradient(x, y);
            positions.push(Vertex { x, height: h, y });
            normals.push(SurfaceNormal { x: -g.0, y: SCALE, z: -g.1 });
            proof {
                assert(positions@[i as int] == vertex_at(self.surface, i as int, n as int));
                assert(normals@[i as int] == normal_at(self.surface, i as int, n as int));
            }
            i = i + 1;
        }
        let indices = if self.wireframe {
            self.generate_wire_indices()
        } else {
            self.generate_tri_indices()
        };
        Mesh { positions, normals, indices, wireframe: self.wireframe }
    }

    /// Emit the filled-triangle index stream.
    fn generate_tri_indices(&self) -> (indices: Vec<u16>)
        requires
            grid_valid(self.resolution as int),
        ensures
            indices@.len() == 6 * cell_count(self.resolution as int),
            forall|k: int|
                0 <= k < indices@.len() ==> (#[trigger] indices@[k]) as int == tri_index_at(
                    k,
                    self.resolution as int,
                ),
    {
        let n: usize = self.resolution as usize;
        proof {
            assert((n - 1) * (n - 1) <= 65025) by (nonlinear_arith)
                requires
                    2 <= n <= 256,
            ;
        }
        let cells: usize = (n - 1) * (n - 1);
        let mut indices: Vec<u16> = Vec::new();
        let mut j: usize = 0;
        while j < cells
            invariant
                n == self.resolution,
                2 <= n <= 256,
                cells == cell_count(n as int),
                j <= cells,
                indices@.len() == 6 * j,
                forall|k: int|
                    0 <= k < 6 * j ==> (#[trigger] indices@[k]) as int == tri_index_at(k, n as int),
            decreases cells - j,
        {
            let (tl, tr, bl, br) = cell_corners(j, n);
            indices.push(tl);
            indices.push(bl);
            indices.push(tr);
            indices.push(tr);
            indices.push(bl);
            indices.push(br);
            proof {
                let jj = j as int;
                assert forall|k: int| 6 * jj <= k < 6 * jj + 6 implies (#[trigger] indices@[k])
                    as int == tri_index_at(k, n as int) by {
                    lemma_fundamental_div_mod_converse(k, 6, jj, k - 6 * jj);
                }
            }
            j = j + 1;
        }
        indices
    }

    /// Emit the wireframe index stream: the same triangles as edges.
    fn generate_wire_indices(&self) -> (indices: Vec<u16>)
        requires
            grid_valid(self.resolution as int),
        ensures
            indices@.len() == 12 * cell_count(self.resolution as int),
            forall|k: int|
                0 <= k < indices@.len() ==> (#[trigger] indices@[k]) as int == wire_index_at(
                    k,
                    self.resolution as int,
                ),
    {
        let n: usize = self.resolution as usize;
        proof {
            assert((n - 1) * (n - 1) <= 65025) by (nonlinear_arith)
                requires
                    2 <= n <= 256,
            ;
        }
        let cells: usize = (n - 1) * (n - 1);
        let mut indices: Vec<u16> = Vec::new();
        let mut j: usize = 0;
        while j < cells
            invariant
                n == self.resolution,
                2 <= n <= 256,
                cells == cell_count(n as int),
                j <= cells,
                indices@.len() == 12 * j,
                forall|k: int|
                    0 <= k < 12 * j ==> (#[trigger] indices@[k]) as int == wire_index_at(
                        k,
                        n as int,
                    ),
            decreases cells - j,
        {
            let (tl, tr, bl, br) = cell_corners(j, n);
            indices.push(tl);
            indices.push(bl);
            indices.push(bl);
            indices.push(tr);
            indices.push(tr);
            indices.push(tl);
            indices.push(tr);
            indices.push(bl);
            indices.push(bl);
            indices.push(br);
            indices.push(br);
            indices.push(tr);
            proof {
                let jj = j as int;
                assert forall|k: int| 12 * jj <= k < 12 * jj + 12 implies (#[trigger] indices@[k])
                    as int == wire_index_at(k, n as int) by {
                    lemma_fundamental_div_mod_converse(k, 12, jj, k - 12 * jj);
                }
            }
            j = j + 1;
        }
        indices
    }
}

/// The four corner vertex indices of cell `j`, proved to fit the
/// 16-bit index width.
fn cell_corners(j: usize, n: usize) -> (r: (u16, u16, u16, u16))
    requires
        grid_valid(n as int),
        j < cell_count(n as int),
    ensures
        r.0 as int == top_left(j as int, n as int),
        r.1 as int == top_right(j as int, n as int),
        r.2 as int == bottom_left(j as int, n as int),
        r.3 as int == bottom_right(j as int, n as int),
{
    proof {
        lemma_mod_pos_bound(j as int, n as int - 1);
        lemma_div_pos_is_pos(j as int, n as int - 1);
        assert(cell_count(n as int) == (n - 1) * (n - 1));
        lemma_multiply_divide_lt(j as int, n as int - 1, n as int - 1);
    }
    let cx: usize = j % (n - 1);
    let cy: usize = j / (n - 1);
    proof {
        assert(cy * n + cx + n + 1 <= n * n - 1) by (nonlinear_arith)
            requires
                2 <= n,
                0 <= cx <= n - 2,
                0 <= cy <= n - 2,
        ;
        assert(n * n <= 65536) by (nonlinear_arith)
            requires
                n <= 256,
        ;
    }
    let tl: usize = cy * n + cx;
    let tr: u16 = (tl + 1) as u16;
    let bl: u16 = (tl + n) as u16;
    let br: u16 = (tl + n + 1) as u16;
    (tl as u16, tr, bl, br)
}

/// Every index the generator can emit addresses one of the `n * n`
/// samples: the filled-triangle case.
pub proof fn lemma_tri_index_in_bounds(k: int, n: int)
    requires
        grid_valid(n),
        0 <= k < 6 * cell_count(n),
    ensures
        0 <= tri_index_at(k, n) < n * n,
{
    lemma_mod_pos_bound(k, 6);
    lemma_div_pos_is_pos(k, 6);
    assert(k < 6 * cell_count(n));
    lemma_multiply_divide_lt(k, 6, cell_count(n));
    lemma_cell_corners_in_bounds(k / 6, n);
}

/// Every index the generator can emit addresses one of the `n * n`
/// samples: the wireframe case.
pub proof fn lemma_wire_index_in_bounds(k: int, n: int)
    requires
        grid_valid(n),
        0 <= k < 12 * cell_count(n),
    ensures
        0 <= wire_index_at(k, n) < n * n,
{
    lemma_mod_pos_bound(k, 12);
    lemma_div_pos_is_pos(k, 12);
    lemma_multiply_divide_lt(k, 12, cell_count(n));
    lemma_cell_corners_in_bounds(k / 12, n);
}

/// All four corners of a cell address valid samples.
proof fn lemma_cell_corners_in_bounds(j: int, n: int)
    requires
        grid_valid(n),
        0 <= j < cell_count(n),
    ensures
        0 <= top_left(j, n),
        bottom_right(j, n) < n * n,
        top_right(j, n) < n * n,
        bottom_left(j, n) < n * n,
        top_left(j, n) < n * n,

{
    lemma_mod_pos_bound(j, n - 1);
    lemma_div_pos_is_pos(j, n - 1);
    assert(cell_count(n) == (n - 1) * (n - 1));
    lemma_multiply_divide_lt(j, n - 1, n - 1);
    let cx = cell_col(j, n);
    let cy = cell_row(j, n);
    assert(cy * n + cx >= 0) by (nonlinear_arith)
        requires
            cx >= 0,
            cy >= 0,
            n >= 2,
    ;
    assert(cy * n + cx + n + 1 <= n * n - 1) by (nonlinear_arith)
        requires
            2 <= n,
            0 <= cx <= n - 2,
            0 <= cy <= n - 2,
    ;
}

/// Whatever topology was chosen, every emitted index is in range for
/// the position and normal buffers.
pub proof fn lemma_mesh_indices_in_bounds<F: SurfaceFunction>(
    m: Mesh,
    f: F,
    n: int,
    wireframe: bool,
)
    requires
        grid_valid(n),
        mesh_matches(m, f, n, wireframe),
    ensures
        forall|k: int|
            0 <= k < m.indices@.len() ==> ((#[trigger] m.indices@[k]) as int) < m.positions@.len(),
{
    assert forall|k: int| 0 <= k < m.indices@.len() implies ((#[trigger] m.indices@[k]) as int)
        < m.positions@.len() by {
        if wireframe {
            lemma_wire_index_in_bounds(k, n);
        } else {
            lemma_tri_index_in_bounds(k, n);
        }
    }
}

/// Generation is deterministic: any two meshes that meet the
/// generation contract for the same surface, resolution and topology
/// hold identical buffers, so regenerating is idempotent.
pub proof fn lemma_mesh_determined<F: SurfaceFunction>(
    m1: Mesh,
    m2: Mesh,
    f: F,
    n: int,
    wireframe: bool,
)
    requires
        mesh_matches(m1, f, n, wireframe),
        mesh_matches(m2, f, n, wireframe),
    ensures
        m1.positions@ == m2.positions@,
        m1.normals@ == m2.normals@,
        m1.indices@ == m2.indices@,
        m1.wireframe == m2.wireframe,
{
    assert(m1.positions@ =~= m2.positions@);
    assert(m1.normals@ =~= m2.normals@);
    assert forall|k: int| 0 <= k < m1.indices@.len() implies m1.indices@[k] == m2.indices@[k] by {
        assert(m1.indices@[k] as int == m2.indices@[k] as int);
    }
    assert(m1.indices@ =~= m2.indices@);
}

/// The wireframe stream draws exactly the edges of the triangles the
/// filled stream draws: for each cell, its six line pairs are the
/// three edges of each of the cell's two triangles.
pub proof fn lemma_wire_covers_triangle_edges(j: int, n: int)
    requires
        grid_valid(n),
        0 <= j < cell_count(n),
    ensures
        ({
            let t0 = tri_index_at(6 * j, n);
            let t1 = tri_index_at(6 * j + 1, n);
            let t2 = tri_index_at(6 * j + 2, n);
            let s0 = tri_index_at(6 * j + 3, n);
            let s1 = tri_index_at(6 * j + 4, n);
            let s2 = tri_index_at(6 * j + 5, n);
            &&& wire_index_at(12 * j, n) == t0 && wire_index_at(12 * j + 1, n) == t1
            &&& wire_index_at(12 * j + 2, n) == t1 && wire_index_at(12 * j + 3, n) == t2
            &&& wire_index_at(12 * j + 4, n) == t2 && wire_index_at(12 * j + 5, n) == t0
            &&& wire_index_at(12 * j + 6, n) == s0 && wire_index_at(12 * j + 7, n) == s1
            &&& wire_index_at(12 * j + 8, n) == s1 && wire_index_at(12 * j + 9, n) == s2
            &&& wire_index_at(12 * j + 10, n) == s2 && wire_index_at(12 * j + 11, n) == s0
        }),
{
    lemma_fundamental_div_mod_converse(6 * j, 6, j, 0);
    lemma_fundamental_div_mod_converse(6 * j + 1, 6, j, 1);
    lemma_fundamental_div_mod_converse(6 * j + 2, 6, j, 2);
    lemma_fundamental_div_mod_converse(6 * j + 3, 6, j, 3);
    lemma_fundamental_div_mod_converse(6 * j + 4, 6, j, 4);
    lemma_fundamental_div_mod_converse(6 * j + 5, 6, j, 5);
    lemma_fundamental_div_mod_converse(12 * j, 12, j, 0);
    lemma_fundamental_div_mod_converse(12 * j + 1, 12, j, 1);
    lemma_fundamental_div_mod_converse(12 * j + 2, 12, j, 2);
    lemma_fundamental_div_mod_converse(12 * j + 3, 12, j, 3);
    lemma_fundamental_div_mod_converse(12 * j + 4, 12, j, 4);
    lemma_fundamental_div_mod_converse(12 * j + 5, 12, j, 5);
    lemma_fundamental_div_mod_converse(12 * j + 6, 12, j, 6);
    lemma_fundamental_div_mod_converse(12 * j + 7, 12, j, 7);
    lemma_fundamental_div_mod_converse(12 * j + 8, 12, j, 8);
    lemma_fundamental_div_mod_converse(12 * j + 9, 12, j, 9);
    lemma_fundamental_div_mod_converse(12 * j + 10, 12, j, 10);
    lemma_fundamental_div_mod_converse(12 * j + 11, 12, j, 11);
}

/// Boundary orientation of the grid: the first sample sits at domain
/// `(-1, +1)` and the last at `(+1, -1)`, for every resolution.
pub proof fn lemma_grid_corner_mapping(n: int)
    requires
        grid_valid(n),
    ensures
        x_num_at(0, n) == -(n - 1),
        y_num_at(0, n) == n - 1,
        x_num_at(n * n - 1, n) == n - 1,
        y_num_at(n * n - 1, n) == -(n - 1),
{
    vstd::arithmetic::div_mod::lemma_div_of0(n);
    vstd::arithmetic::div_mod::lemma_small_mod(0, n as nat);
    assert((n - 1) * n + (n - 1) == n * n - 1) by (nonlinear_arith);
    lemma_fundamental_div_mod_converse(n * n - 1, n, n - 1, n - 1);
}

} // verus!
