//! Grid mesh generator: one continuous line strip covering the unit square
//! of the X-Z plane.
//!
//! Every coordinate the mesh ever uses has the exact form `2*k/n - 1`, so a
//! vertex is kept as its pair of lattice indices `(xi, zi)`: the real
//! position is `x = 2*xi/width - 1`, `y = 0`, `z = 2*zi/depth - 1`, with
//! `xi` ranging over `0..=width` and `zi` over `0..=depth` (the upper index
//! gives the `+1.0` boundary that connector vertices sit on). The renderer
//! turns indices into floating-point positions with exactly that formula.
//!
//! The strip is: for each of `depth` rows, `width` vertices left to right;
//! between consecutive rows a pair of degenerate connector vertices (end of
//! the current row's boundary, start of the next row). Then the same again
//! column-wise. Drawn as a line strip this traces the whole grid without
//! lifting the pen.

use vstd::prelude::*;

verus! {

/// A mesh vertex as a lattice point: position `(2*xi/width - 1, 0,
/// 2*zi/depth - 1)` in world units.
#[derive(Copy, Clone, PartialEq, Eq, Structural, Debug)]
pub struct GridVertex {
    pub xi: u32,
    pub zi: u32,
}

/// Lattice point constructor; the identity embedding whenever the indices
/// are in `u32` range.
pub open spec fn gv(xi: int, zi: int) -> GridVertex {
    GridVertex { xi: xi as u32, zi: zi as u32 }
}

/// Row `z` of the horizontal pass: `w` vertices left to right.
pub open spec fn hrow(w: int, z: int) -> Seq<GridVertex> {
    Seq::new(w as nat, |i: int| gv(i, z))
}

/// Column `x` of the vertical pass: `d` vertices front to back.
pub open spec fn vcol(d: int, x: int) -> Seq<GridVertex> {
    Seq::new(d as nat, |j: int| gv(x, j))
}

/// The first `z` rows of the horizontal pass, each followed by its two
/// connector vertices except the final row of the grid.
pub open spec fn hpass(w: int, d: int, z: int) -> Seq<GridVertex>
    decreases z,
{
    if z <= 0 {
        Seq::<GridVertex>::empty()
    } else {
        hpass(w, d, z - 1) + hrow(w, z - 1) + (if z - 1 < d - 1 {
            seq![gv(w, z - 1), gv(0, z)]
        } else {
            Seq::<GridVertex>::empty()
        })
    }
}

/// The first `x` columns of the vertical pass, with connectors likewise.
pub open spec fn vpass(w: int, d: int, x: int) -> Seq<GridVertex>
    decreases x,
{
    if x <= 0 {
        Seq::<GridVertex>::empty()
    } else {
        vpass(w, d, x - 1) + vcol(d, x - 1) + (if x - 1 < w - 1 {
            seq![gv(x - 1, d), gv(x, 0)]
        } else {
            Seq::<GridVertex>::empty()
        })
    }
}

/// The whole strip: horizontal pass, then vertical pass.
pub open spec fn grid_vertices(w: int, d: int) -> Seq<GridVertex> {
    hpass(w, d, d) + vpass(w, d, w)
}

/// Length of a partial horizontal pass: `z` rows of `w` vertices and two
/// connectors per completed row other than the grid's last.
pub proof fn lemma_hpass_len(w: int, d: int, z: int)
    requires
        1 <= w,
        1 <= d,
        0 <= z <= d,
    ensures
        hpass(w, d, z).len() == z * w + 2 * (if z < d { z } else { d - 1 }),
    decreases z,
{
    if z > 0 {
        lemma_hpass_len(w, d, z - 1);
        assert(hpass(w, d, z) == hpass(w, d, z - 1) + hrow(w, z - 1) + (if z - 1 < d - 1 {
            seq![gv(w, z - 1), gv(0, z)]
        } else {
            Seq::<GridVertex>::empty()
        }));
        assert(hrow(w, z - 1).len() == w);
        assert(z * w == (z - 1) * w + w) by (nonlinear_arith);
        if z < d {
            assert(hpass(w, d, z).len() == (z - 1) * w + 2 * (z - 1) + w + 2);
        } else {
            assert(hpass(w, d, z).len() == (z - 1) * w + 2 * (d - 1) + w);
        }
    } else {
        assert(hpass(w, d, z).len() == 0);
    }
}

/// Length of a partial vertical pass, symmetrically.
pub proof fn lemma_vpass_len(w: int, d: int, x: int)
    requires
        1 <= w,
        1 <= d,
        0 <= x <= w,
    ensures
        vpass(w, d, x).len() == x * d + 2 * (if x < w { x } else { w - 1 }),
    decreases x,
{
    if x > 0 {
        lemma_vpass_len(w, d, x - 1);
        assert(vcol(d, x - 1).len() == d);
        assert(x * d == (x - 1) * d + d) by (nonlinear_arith);
        if x < w {
            assert(vpass(w, d, x).len() == (x - 1) * d + 2 * (x - 1) + d + 2);
        } else {
            assert(vpass(w, d, x).len() == (x - 1) * d + 2 * (w - 1) + d);
        }
    } else {
        assert(vpass(w, d, x).len() == 0);
    }
}

/// Total vertex count of the strip:
/// `w*d` row vertices plus `2*(d-1)` row connectors plus `w*d` column
/// vertices plus `2*(w-1)` column connectors.
pub proof fn lemma_grid_len(w: int, d: int)
    requires
        1 <= w,
        1 <= d,
    ensures
        grid_vertices(w, d).len() == w * d + (d - 1) * 2 + w * d + (w - 1) * 2,
{
    lemma_hpass_len(w, d, d);
    lemma_vpass_len(w, d, w);
    assert(d * w == w * d) by (nonlinear_arith);
}

/// Within the horizontal pass, row `r` starts at index `r*(w+2)`: its
/// `i`-th vertex is the lattice point `(i, r)`.
pub proof fn lemma_hpass_index(w: int, d: int, z: int, r: int, i: int)
    requires
        1 <= w,
        1 <= d,
        z <= d,
        0 <= r < z,
        0 <= i < w,
    ensures
        0 <= r * (w + 2) + i < hpass(w, d, z).len(),
        hpass(w, d, z)[r * (w + 2) + i] == gv(i, r),
    decreases z,
{
    lemma_hpass_len(w, d, z);
    lemma_hpass_len(w, d, z - 1);
    assert((z - 1) * w + 2 * (z - 1) == (z - 1) * (w + 2)) by (nonlinear_arith);
    if r < z - 1 {
        lemma_hpass_index(w, d, z - 1, r, i);
    } else {
        assert(r * (w + 2) + i == hpass(w, d, z - 1).len() + i);
    }
    assert(r * (w + 2) >= 0) by (nonlinear_arith)
        requires
            r >= 0,
            w >= 1,
    ;
}

/// Within the vertical pass, column `c` starts at index `c*(d+2)`: its
/// `j`-th vertex is the lattice point `(c, j)`.
pub proof fn lemma_vpass_index(w: int, d: int, x: int, c: int, j: int)
    requires
        1 <= w,
        1 <= d,
        x <= w,
        0 <= c < x,
        0 <= j < d,
    ensures
        0 <= c * (d + 2) + j < vpass(w, d, x).len(),
        vpass(w, d, x)[c * (d + 2) + j] == gv(c, j),
    decreases x,
{
    lemma_vpass_len(w, d, x);
    lemma_vpass_len(w, d, x - 1);
    assert((x - 1) * d + 2 * (x - 1) == (x - 1) * (d + 2)) by (nonlinear_arith);
    if c < x - 1 {
        lemma_vpass_index(w, d, x - 1, c, j);
    } else {
        assert(c * (d + 2) + j == vpass(w, d, x - 1).len() + j);
    }
    assert(c * (d + 2) >= 0) by (nonlinear_arith)
        requires
            c >= 0,
            d >= 1,
    ;
}

/// The connector pair following row `r` sits at indices `r*(w+2)+w` and
/// `r*(w+2)+w+1`: the current row's boundary point, then the next row's
/// start.
pub proof fn lemma_hpass_connector(w: int, d: int, z: int, r: int)
    requires
        1 <= w,
        1 <= d,
        z <= d,
        0 <= r < z,
        r < d - 1,
    ensures
        0 <= r * (w + 2) + w,
        r * (w + 2) + w + 1 < hpass(w, d, z).len(),
        hpass(w, d, z)[r * (w + 2) + w] == gv(w, r),
        hpass(w, d, z)[r * (w + 2) + w + 1] == gv(0, r + 1),
    decreases z,
{
    lemma_hpass_len(w, d, z);
    lemma_hpass_len(w, d, z - 1);
    assert((z - 1) * w + 2 * (z - 1) == (z - 1) * (w + 2)) by (nonlinear_arith);
    if r < z - 1 {
        lemma_hpass_connector(w, d, z - 1, r);
    } else {
        assert(r * (w + 2) + w == hpass(w, d, z - 1).len() + w);
    }
    assert(r * (w + 2) >= 0) by (nonlinear_arith)
        requires
            r >= 0,
            w >= 1,
    ;
}

/// The connector pair following column `c`, symmetrically: the column's
/// boundary point, then the next column's start.
pub proof fn lemma_vpass_connector(w: int, d: int, x: int, c: int)
    requires
        1 <= w,
        1 <= d,
        x <= w,
        0 <= c < x,
        c < w - 1,
    ensures
        0 <= c * (d + 2) + d,
        c * (d + 2) + d + 1 < vpass(w, d, x).len(),
        vpass(w, d, x)[c * (d + 2) + d] == gv(c, d),
        vpass(w, d, x)[c * (d + 2) + d + 1] == gv(c + 1, 0),
    decreases x,
{
    lemma_vpass_len(w, d, x);
    lemma_vpass_len(w, d, x - 1);
    assert((x - 1) * d + 2 * (x - 1) == (x - 1) * (d + 2)) by (nonlinear_arith);
    if c < x - 1 {
        lemma_vpass_connector(w, d, x - 1, c);
    } else {
        assert(c * (d + 2) + d == vpass(w, d, x - 1).len() + d);
    }
    assert(c * (d + 2) >= 0) by (nonlinear_arith)
        requires
            c >= 0,
            d >= 1,
    ;
}

/// Law: between consecutive rows the strip holds exactly the degenerate
/// connector pair — a vertex on the row's `x = +1` boundary (lattice
/// `xi = w`), then the next row's `x = -1` start — so drawing never lifts
/// the pen and never strays off the grid boundary.
pub proof fn lemma_row_connector(w: int, d: int, r: int)
    requires
        1 <= w <= u32::MAX,
        1 <= d <= u32::MAX,
        0 <= r < d - 1,
    ensures
        ({
            let s = grid_vertices(w, d);
            let k = r * (w + 2) + w;
            &&& 0 <= k
            &&& k + 1 < s.len()
            &&& s[k] == gv(w, r)
            &&& s[k + 1] == gv(0, r + 1)
        }),
{
    lemma_hpass_connector(w, d, d, r);
    lemma_hpass_len(w, d, d);
}

/// Law: between consecutive columns of the vertical pass the strip holds
/// the symmetric connector pair on the `z = +1` and `z = -1` boundaries.
pub proof fn lemma_col_connector(w: int, d: int, c: int)
    requires
        1 <= w <= u32::MAX,
        1 <= d <= u32::MAX,
        0 <= c < w - 1,
    ensures
        ({
            let s = grid_vertices(w, d);
            let k = w * d + 2 * (d - 1) + c * (d + 2) + d;
            &&& 0 <= k
            &&& k + 1 < s.len()
            &&& s[k] == gv(c, d)
            &&& s[k + 1] == gv(c + 1, 0)
        }),
{
    lemma_vpass_connector(w, d, w, c);
    lemma_hpass_len(w, d, d);
    lemma_vpass_len(w, d, w);
    assert(d * w == w * d) by (nonlinear_arith);
}

/// Law: within any row of the grid, consecutive non-connector vertices
/// step by exactly one lattice unit along x — that is, by `2/w` in world
/// units — and not at all along z (y is identically zero for the mesh).
pub proof fn lemma_row_spacing(w: int, d: int, r: int, i: int)
    requires
        1 <= w <= u32::MAX,
        1 <= d <= u32::MAX,
        0 <= r < d,
        0 <= i,
        i + 1 < w,
    ensures
        ({
            let s = grid_vertices(w, d);
            let k = r * (w + 2) + i;
            &&& 0 <= k
            &&& k + 1 < s.len()
            &&& s[k] == gv(i, r)
            &&& s[k + 1] == gv(i + 1, r)
            &&& s[k + 1].xi == s[k].xi + 1
            &&& s[k + 1].zi == s[k].zi
        }),
{
    lemma_hpass_index(w, d, d, r, i);
    lemma_hpass_index(w, d, d, r, i + 1);
    lemma_hpass_len(w, d, d);
}

/// Law: within any column of the vertical pass, consecutive non-connector
/// vertices step by exactly one lattice unit along z — `2/d` in world
/// units — and not at all along x. The vertical pass begins at offset
/// `w*d + 2*(d-1)` in the strip.
pub proof fn lemma_col_spacing(w: int, d: int, c: int, j: int)
    requires
        1 <= w <= u32::MAX,
        1 <= d <= u32::MAX,
        0 <= c < w,
        0 <= j,
        j + 1 < d,
    ensures
        ({
            let s = grid_vertices(w, d);
            let k = w * d + 2 * (d - 1) + c * (d + 2) + j;
            &&& 0 <= k
            &&& k + 1 < s.len()
            &&& s[k] == gv(c, j)
            &&& s[k + 1] == gv(c, j + 1)
            &&& s[k + 1].zi == s[k].zi + 1
            &&& s[k + 1].xi == s[k].xi
        }),
{
    lemma_vpass_index(w, d, w, c, j);
    lemma_vpass_index(w, d, w, c, j + 1);
    lemma_hpass_len(w, d, d);
    lemma_vpass_len(w, d, w);
    assert(d * w == w * d) by (nonlinear_arith);
}

/// The grid mesh: the two generation parameters and the finished strip.
pub struct GridMesh {
    pub width: u32,
    pub depth: u32,
    pub vertices: Vec<GridVertex>,
}

impl GridMesh {
    /// A well-formed mesh is exactly the strip its parameters dictate.
    pub open spec fn wf(self) -> bool {
        &&& 1 <= self.width
        &&& 1 <= self.depth
        &&& self.vertices@ == grid_vertices(self.width as int, self.depth as int)
    }

    /// Number of vertices in the strip (the draw call's vertex range).
    pub fn vertex_count(&self) -> (n: usize)
        ensures
            n == self.vertices@.len(),
    {
        self.vertices.len()
    }
}

/// Build the full line-strip grid for the given positive parameters.
/// The result is the unique strip `grid_vertices(width, depth)`; in
/// particular the generator is deterministic, and the count follows the
/// closed formula below for every positive `width` and `depth` — also for
/// the degenerate `width == 1` or `depth == 1`, where rows or columns have
/// no interior segment.
pub fn create_grid(width: u32, depth: u32) -> (m: GridMesh)
    requires
        1 <= width,
        1 <= depth,
    ensures
        m.width == width,
        m.depth == depth,
        m.wf(),
        m.vertices@.len() == width * depth + (depth - 1) * 2 + width * depth + (width - 1) * 2,
{
    let ghost w = width as int;
    let ghost d = depth as int;
    let mut vertices: Vec<GridVertex> = Vec::new();

    let mut z: u32 = 0;
    while z < depth
        invariant
            1 <= width,
            1 <= depth,
            z <= depth,
            w == width as int,
            d == depth as int,
            vertices@ == hpass(w, d, z as int),
        decreases depth - z,
    {
        let mut x: u32 = 0;
        while x < width
            invariant
                1 <= width,
                1 <= depth,
                z < depth,
                x <= width,
                w == width as int,
                d == depth as int,
                vertices@ == hpass(w, d, z as int) + hrow(w, z as int).take(x as int),
            decreases width - x,
        {
            vertices.push(GridVertex { xi: x, zi: z });
            proof {
                assert(hrow(w, z as int).take(x as int + 1) =~= hrow(w, z as int).take(
                    x as int,
                ).push(gv(x as int, z as int)));
            }
            x = x + 1;
        }
        proof {
            assert(hrow(w, z as int).take(w) =~= hrow(w, z as int));
        }
        if z < depth - 1 {
            vertices.push(GridVertex { xi: width, zi: z });
            vertices.push(GridVertex { xi: 0, zi: z + 1 });
            proof {
                assert(vertices@ =~= hpass(w, d, z as int + 1));
            }
        } else {
            proof {
                assert(vertices@ =~= hpass(w, d, z as int + 1));
            }
        }
        z = z + 1;
    }

    let mut x: u32 = 0;
    while x < width
        invariant
            1 <= width,
            1 <= depth,
            x <= width,
            w == width as int,
            d == depth as int,
            vertices@ == hpass(w, d, d) + vpass(w, d, x as int),
        decreases width - x,
    {
        let mut z: u32 = 0;
        while z < depth
            invariant
                1 <= width,
                1 <= depth,
                x < width,
                z <= depth,
                w == width as int,
                d == depth as int,
                vertices@ == hpass(w, d, d) + vpass(w, d, x as int) + vcol(d, x as int).take(
                    z as int,
                ),
            decreases depth - z,
        {
            vertices.push(GridVertex { xi: x, zi: z });
            proof {
                assert(vcol(d, x as int).take(z as int + 1) =~= vcol(d, x as int).take(
                    z as int,
                ).push(gv(x as int, z as int)));
                assert(vertices@ =~= hpass(w, d, d) + vpass(w, d, x as int) + vcol(
                    d,
                    x as int,
                ).take(z as int + 1));
            }
            z = z + 1;
        }
        proof {
            assert(vcol(d, x as int).take(d) =~= vcol(d, x as int));
        }
        if x < width - 1 {
            vertices.push(GridVertex { xi: x, zi: depth });
            vertices.push(GridVertex { xi: x + 1, zi: 0 });
            proof {
                assert(vertices@ =~= hpass(w, d, d) + vpass(w, d, x as int + 1));
            }
        } else {
            proof {
                assert(vertices@ =~= hpass(w, d, d) + vpass(w, d, x as int + 1));
            }
        }
        x = x + 1;
    }

    proof {
        lemma_grid_len(w, d);
    }
    GridMesh { width, depth, vertices }
}

/// Law: the generator is a pure function of its parameters — two
/// well-formed meshes built for the same `(width, depth)` hold identical
/// vertex sequences.
pub proof fn lemma_generator_deterministic(a: GridMesh, b: GridMesh)
    requires
        a.wf(),
        b.wf(),
        a.width == b.width,
        a.depth == b.depth,
    ensures
        a.vertices@ == b.vertices@,
{
}

} // verus!
