//! Procedural tube mesh: a cross-section polygon swept along the wave
//! centreline and triangulated, with an end cap at each end.
//!
//! The mesh is pure index structure plus per-vertex cross-section offsets.
//! A vertex does not carry its longitudinal coordinate directly: it carries
//! the index of the cross-section it belongs to (`slice`), from which the
//! renderer derives the coordinate `-0.5 + slice/segment_count` in its own
//! floating-point world.  The offset values themselves (`p`, `q`, and the
//! following polygon vertex's `next_p`, `next_q`) are only copied, never
//! computed on, so the builder is generic over their scalar type.

use vstd::prelude::*;
use vstd::arithmetic::div_mod::{
    lemma_fundamental_div_mod_converse, lemma_mod_self_0, lemma_small_mod,
};
use vstd::arithmetic::mul::lemma_mul_inequality;

verus! {

/// One mesh vertex: which cross-section it sits on, its own offset in the
/// cross-section plane, and the offset of the next polygon vertex in winding
/// order (carried here so the shading stage can form a face normal without a
/// separate normal pass).
#[derive(Debug, PartialEq)]
pub struct Vertex<S> {
    /// Index of the cross-section (longitudinal slice) this vertex lies on.
    pub slice: usize,
    /// Offset along the first cross-section axis.
    pub p: S,
    /// Offset along the second cross-section axis.
    pub q: S,
    /// `p` of the next polygon vertex in winding order.
    pub next_p: S,
    /// `q` of the next polygon vertex in winding order.
    pub next_q: S,
}

/// Why mesh construction can fail.
#[derive(Clone, Copy, Debug, PartialEq, Eq, Structural)]
pub enum GeometryError {
    /// `segment_count * cross_section.len()` exceeds the 16-bit index space.
    IndexOverflow,
}

/// Largest number of vertices addressable with 16-bit indices.
pub const MAX_VERTICES: usize = 65536;

/// The vertex at flat position `v` of the mesh built over cross-section
/// polygon `cs`: cross-section `v / k` occupies positions `[v/k * k, v/k * k + k)`,
/// and within it the polygon is laid out in order.
pub open spec fn mesh_vertex<S>(cs: Seq<(S, S)>, v: int) -> Vertex<S> {
    let k = cs.len() as int;
    let i = v / k;
    let j = v % k;
    Vertex {
        slice: i as usize,
        p: cs[j].0,
        q: cs[j].1,
        next_p: cs[(j + 1) % k].0,
        next_q: cs[(j + 1) % k].1,
    }
}

/// Index triple of one triangle.
pub open spec fn tri(a: int, b: int, c: int) -> Seq<int> {
    seq![a, b, c]
}

/// Front end-cap fan: triangles `1..=t`, triangle `s` being `[s, s+1, 0]`.
/// The full cap is `front_cap(k) == front_cap_tris(k - 2)`.
pub open spec fn front_cap_tris(t: int) -> Seq<int>
    decreases t,
{
    if t <= 0 {
        Seq::empty()
    } else {
        front_cap_tris(t - 1) + tri(t, t + 1, 0)
    }
}

/// Front end-cap of a `k`-gon cross-section: a fan of `k - 2` triangles
/// around vertex 0, wound like the side faces seen from outside.
pub open spec fn front_cap(k: int) -> Seq<int> {
    front_cap_tris(k - 2)
}

/// Back end-cap fan over the ring based at `b`, first `c` triangles in
/// emission order: emission `e` (from 1) is `[b+k-e, b+k-e-1, b]`, so the
/// fan runs backwards around the ring, mirroring the front cap's winding.
pub open spec fn back_cap_tris(b: int, k: int, c: int) -> Seq<int>
    decreases c,
{
    if c <= 0 {
        Seq::empty()
    } else {
        back_cap_tris(b, k, c - 1) + tri(b + k - c, b + k - c - 1, b)
    }
}

/// Back end-cap of the ring based at `b`: `k - 2` triangles.
pub open spec fn back_cap(b: int, k: int) -> Seq<int> {
    back_cap_tris(b, k, k - 2)
}

/// The two side triangles joining edge `j` of ring `i - 1` to edge `j` of
/// ring `i` (a quad split along its diagonal, both halves wound alike).
pub open spec fn quad(i: int, k: int, j: int) -> Seq<int> {
    let i1 = i * k;
    let i0 = (i - 1) * k;
    let j1 = (j + 1) % k;
    tri(i1 + j, i1 + j1, i0 + j) + tri(i1 + j1, i0 + j1, i0 + j)
}

/// First `j` quads of the band of side faces between rings `i - 1` and `i`.
pub open spec fn band(i: int, k: int, j: int) -> Seq<int>
    decreases j,
{
    if j <= 0 {
        Seq::empty()
    } else {
        band(i, k, j - 1) + quad(i, k, j - 1)
    }
}

/// All side faces up to (excluding) ring `i`: bands `1..=i-1`, each of `k` quads.
pub open spec fn sides_upto(k: int, i: int) -> Seq<int>
    decreases i,
{
    if i <= 1 {
        Seq::empty()
    } else {
        sides_upto(k, i - 1) + band(i - 1, k, k)
    }
}

/// The complete index list of the tube mesh with `n` cross-sections of `k`
/// vertices each, in emission order: front cap, side bands, back cap.
pub open spec fn mesh_indices(n: int, k: int) -> Seq<int> {
    front_cap(k) + sides_upto(k, n) + back_cap((n - 1) * k, k)
}

/// The `u16` index buffer seen as a sequence of mathematical integers.
pub open spec fn index_values(s: Seq<u16>) -> Seq<int> {
    Seq::new(s.len(), |m: int| s[m] as int)
}

/// Pushing three indices appends one triangle to the integer view of the
/// index buffer.
proof fn lemma_index_values_push3(s: Seq<u16>, a: u16, b: u16, c: u16)
    ensures
        index_values(s.push(a).push(b).push(c)) =~= index_values(s) + tri(
            a as int,
            b as int,
            c as int,
        ),
{
}

/// Build the tube mesh: `segment_count` cross-sections of the given polygon,
/// joined by side quads, closed by two caps.  Fails, producing no buffers,
/// exactly when the vertex count exceeds the 16-bit index space.
///
/// The caps fan-triangulate the polygon around its first vertex, which
/// caps the tube correctly for a convex cross-section; their winding
/// matches the side faces' (`crate::winding::lemma_winding_consistent`).
pub fn build_geometry<S: Copy>(
    segment_count: usize,
    cross_section: &Vec<(S, S)>,
) -> (r: Result<(Vec<Vertex<S>>, Vec<u16>), GeometryError>)
    requires
        1 <= segment_count,
        3 <= cross_section@.len(),
    ensures
        match r {
            Ok(mesh) => {
                &&& segment_count * cross_section@.len() <= MAX_VERTICES
                &&& mesh.0@.len() == segment_count * cross_section@.len()
                &&& (forall|v: int|
                    0 <= v < mesh.0@.len() ==> mesh.0@[v] == mesh_vertex(cross_section@, v))
                &&& index_values(mesh.1@) == mesh_indices(
                    segment_count as int,
                    cross_section@.len() as int,
                )
                &&& mesh.1@.len() == 6 * (segment_count - 1) * cross_section@.len() + 6 * (
                cross_section@.len() - 2)
                &&& (forall|m: int|
                    0 <= m < mesh.1@.len()
                        ==> (mesh.1@[m] as int) < segment_count * cross_section@.len())
            },
            Err(e) => {
                &&& e == GeometryError::IndexOverflow
                &&& segment_count * cross_section@.len() > MAX_VERTICES
            },
        },
{
    let n = segment_count;
    let k = cross_section.len();
    let total = match n.checked_mul(k) {
        Some(t) => t,
        None => {
            proof {
                lemma_mul_inequality(1, n as int, k as int);
            }
            return Err(GeometryError::IndexOverflow);
        },
    };
    if total > MAX_VERTICES {
        return Err(GeometryError::IndexOverflow);
    }

    // Vertices: ring after ring, the polygon in order, each vertex paired
    // with the offsets of its winding-order successor.
    let mut vertices: Vec<Vertex<S>> = Vec::new();
    let mut i: usize = 0;
    let ghost csg = cross_section@;
    while i < n
        invariant
            0 <= i <= n,
            n * k == total,
            total <= MAX_VERTICES,
            1 <= n,
            3 <= k,
            csg == cross_section@,
            k == csg.len(),
            vertices@.len() == i * k,
            forall|v: int| 0 <= v < vertices@.len() ==> vertices@[v] == mesh_vertex(csg, v),
        decreases n - i,
    {
        let mut j: usize = 0;
        while j < k
            invariant
                0 <= j <= k,
                0 <= i < n,
                n * k == total,
                total <= MAX_VERTICES,
                3 <= k,
                csg == cross_section@,
                k == csg.len(),
                vertices@.len() == i * k + j,
                forall|v: int| 0 <= v < vertices@.len() ==> vertices@[v] == mesh_vertex(csg, v),
            decreases k - j,
        {
            let jn = if j + 1 == k {
                0
            } else {
                j + 1
            };
            let (p, q) = cross_section[j];
            let (next_p, next_q) = cross_section[jn];
            proof {
                let v = i * k + j;
                lemma_fundamental_div_mod_converse(v, k as int, i as int, j as int);
                if j + 1 == k {
                    lemma_mod_self_0(k as int);
                } else {
                    lemma_small_mod((j + 1) as nat, k as nat);
                }
            }
            vertices.push(Vertex { slice: i, p, q, next_p, next_q });
            j = j + 1;
        }
        proof {
            assert((i + 1) * k == i * k + k) by (nonlinear_arith);
        }
        i = i + 1;
    }
    assert(vertices@.len() == total);

    // Indices.  Emission order: front cap, then the side bands from ring 1
    // up, then the back cap — the concatenation `mesh_indices` describes.
    let mut indices: Vec<u16> = Vec::new();
    let ghost kk = k as int;
    let ghost nn = n as int;

    // Front cap: fan around vertex 0 of ring 0.
    proof {
        assert(k <= total) by (nonlinear_arith)
            requires
                total == n * k,
                1 <= n,
                0 <= k,
        ;
    }
    let mut t: usize = 1;
    while t < k - 1
        invariant
            1 <= t <= k - 1,
            3 <= k,
            k <= total <= MAX_VERTICES,
            kk == k,
            index_values(indices@) == front_cap_tris(t - 1),
        decreases k - 1 - t,
    {
        indices.push(t as u16);
        indices.push((t + 1) as u16);
        indices.push(0u16);
        proof {
            assert(front_cap_tris(t as int) == front_cap_tris(t - 1) + tri(
                t as int,
                t + 1,
                0,
            ));
            assert(index_values(indices@) =~= front_cap_tris(t - 1) + tri(t as int, t + 1, 0));
        }
        t = t + 1;
    }
    assert(index_values(indices@) == front_cap(kk));

    // Side bands.
    let mut i: usize = 1;
    let mut base1: usize = k;  // == i * k
    while i < n
        invariant
            1 <= i <= n,
            nn == n,
            kk == k,
            3 <= k,
            1 <= n,
            n * k == total,
            total <= MAX_VERTICES,
            base1 == i * k,
            k <= base1,
            index_values(indices@) == front_cap(kk) + sides_upto(kk, i as int),
        decreases n - i,
    {
        proof {
            assert(base1 + k <= total) by (nonlinear_arith)
                requires
                    base1 == i * k,
                    total == n * k,
                    i < n,
                    0 <= k,
            ;
        }
        let base0 = base1 - k;  // == (i - 1) * k
        proof {
            assert((i - 1) * k == i * k - k) by (nonlinear_arith);
        }
        let mut j: usize = 0;
        while j < k
            invariant
                0 <= j <= k,
                1 <= i < n,
                nn == n,
                kk == k,
                3 <= k,
                n * k == total,
                total <= MAX_VERTICES,
                base1 == i * k,
                base0 == (i - 1) * k,
                base0 + k == base1,
                index_values(indices@) == front_cap(kk) + sides_upto(kk, i as int) + band(
                    i as int,
                    kk,
                    j as int,
                ),
            decreases k - j,
        {
            let j1 = if j + 1 == k {
                0
            } else {
                j + 1
            };
            proof {
                assert(base1 + k <= total) by (nonlinear_arith)
                    requires
                        base1 == i * k,
                        total == n * k,
                        i < n,
                        0 < k,
                ;
                if j + 1 == k {
                    lemma_mod_self_0(k as int);
                } else {
                    lemma_small_mod((j + 1) as nat, k as nat);
                }
            }
            let ghost before = indices@;
            indices.push((base1 + j) as u16);
            indices.push((base1 + j1) as u16);
            indices.push((base0 + j) as u16);
            let ghost mid = indices@;
            indices.push((base1 + j1) as u16);
            indices.push((base0 + j1) as u16);
            indices.push((base0 + j) as u16);
            proof {
                lemma_index_values_push3(
                    before,
                    (base1 + j) as u16,
                    (base1 + j1) as u16,
                    (base0 + j) as u16,
                );
                lemma_index_values_push3(
                    mid,
                    (base1 + j1) as u16,
                    (base0 + j1) as u16,
                    (base0 + j) as u16,
                );
                assert(band(i as int, kk, j + 1) == band(i as int, kk, j as int) + quad(
                    i as int,
                    kk,
                    j as int,
                ));
                assert(index_values(indices@) =~= front_cap(kk) + sides_upto(kk, i as int) + (band(
                    i as int,
                    kk,
                    j as int,
                ) + quad(i as int, kk, j as int)));
            }
            j = j + 1;
        }
        proof {
            assert(sides_upto(kk, i + 1) == sides_upto(kk, i as int) + band(i as int, kk, kk));
            assert(index_values(indices@) =~= front_cap(kk) + sides_upto(kk, i + 1));
            assert((i + 1) * k == i * k + k) by (nonlinear_arith);
        }
        base1 = base1 + k;
        i = i + 1;
    }
    assert(index_values(indices@) == front_cap(kk) + sides_upto(kk, nn));

    // Back cap: fan around vertex 0 of the last ring, wound the other way.
    let backbase = total - k;  // == (n - 1) * k
    proof {
        assert((nn - 1) * kk == nn * kk - kk) by (nonlinear_arith);
    }
    let mut e: usize = 1;
    while e < k - 1
        invariant
            1 <= e <= k - 1,
            nn == n,
            kk == k,
            3 <= k,
            1 <= n,
            n * k == total,
            total <= MAX_VERTICES,
            backbase == (nn - 1) * kk,
            backbase == total - k,
            index_values(indices@) == front_cap(kk) + sides_upto(kk, nn) + back_cap_tris(
                (nn - 1) * kk,
                kk,
                e - 1,
            ),
        decreases k - 1 - e,
    {
        let ghost before = indices@;
        indices.push((backbase + (k - e)) as u16);
        indices.push((backbase + (k - e) - 1) as u16);
        indices.push(backbase as u16);
        proof {
            lemma_index_values_push3(
                before,
                (backbase + (k - e)) as u16,
                (backbase + (k - e) - 1) as u16,
                backbase as u16,
            );
            let bb = (nn - 1) * kk;
            assert(back_cap_tris(bb, kk, e as int) == back_cap_tris(bb, kk, e - 1) + tri(
                bb + kk - e,
                bb + kk - e - 1,
                bb,
            ));
            assert(index_values(indices@) =~= front_cap(kk) + sides_upto(kk, nn) + back_cap_tris(
                bb,
                kk,
                e as int,
            ));
        }
        e = e + 1;
    }
    assert(index_values(indices@) == mesh_indices(nn, kk));

    proof {
        lemma_mesh_indices_len(nn, kk);
        lemma_mesh_indices_bounds(nn, kk);
        assert(forall|m: int|
            0 <= m < indices@.len() ==> (indices@[m] as int) < total as int) by {
            assert(forall|m: int| 0 <= m < indices@.len() ==> indices@[m] as int == index_values(
                indices@,
            )[m]);
        }
    }
    Ok((vertices, indices))
}

/// `front_cap_tris(t)` holds `3 t` indices.
pub proof fn lemma_front_cap_tris_len(t: int)
    requires
        0 <= t,
    ensures
        front_cap_tris(t).len() == 3 * t,
    decreases t,
{
    if t > 0 {
        lemma_front_cap_tris_len(t - 1);
    }
}

/// `back_cap_tris(b, k, c)` holds `3 c` indices.
pub proof fn lemma_back_cap_tris_len(b: int, k: int, c: int)
    requires
        0 <= c,
    ensures
        back_cap_tris(b, k, c).len() == 3 * c,
    decreases c,
{
    if c > 0 {
        lemma_back_cap_tris_len(b, k, c - 1);
    }
}

/// `band(i, k, j)` holds `6 j` indices.
pub proof fn lemma_band_len(i: int, k: int, j: int)
    requires
        0 <= j,
    ensures
        band(i, k, j).len() == 6 * j,
    decreases j,
{
    if j > 0 {
        lemma_band_len(i, k, j - 1);
    }
}

/// The side faces up to ring `i` hold `6 (i - 1) k` indices.
pub proof fn lemma_sides_upto_len(k: int, i: int)
    requires
        1 <= i,
        0 <= k,
    ensures
        sides_upto(k, i).len() == 6 * (i - 1) * k,
    decreases i,
{
    if i > 1 {
        lemma_sides_upto_len(k, i - 1);
        lemma_band_len(i - 1, k, k);
        assert(6 * (i - 2) * k + 6 * k == 6 * (i - 1) * k) by (nonlinear_arith);
    } else {
        assert(6 * 0 * k == 0) by (nonlinear_arith);
    }
}

/// The whole mesh holds `6 (n-1) k` side indices plus `3 (k-2)` per cap.
pub proof fn lemma_mesh_indices_len(n: int, k: int)
    requires
        1 <= n,
        3 <= k,
    ensures
        mesh_indices(n, k).len() == 6 * (n - 1) * k + 6 * (k - 2),
{
    lemma_front_cap_tris_len(k - 2);
    lemma_sides_upto_len(k, n);
    lemma_back_cap_tris_len((n - 1) * k, k, k - 2);
}

/// Every index of the front cap lies in `[0, t + 2)`.
proof fn lemma_front_cap_tris_bounds(t: int)
    requires
        0 <= t,
    ensures
        forall|m: int|
            0 <= m < front_cap_tris(t).len() ==> 0 <= #[trigger] front_cap_tris(t)[m] < t + 2,
    decreases t,
{
    if t > 0 {
        lemma_front_cap_tris_bounds(t - 1);
        lemma_front_cap_tris_len(t - 1);
    }
}

/// Every index of the back cap over the ring based at `b` lies in `[b, b + k)`.
proof fn lemma_back_cap_tris_bounds(b: int, k: int, c: int)
    requires
        0 <= c <= k - 2,
    ensures
        forall|m: int|
            0 <= m < back_cap_tris(b, k, c).len() ==> b <= #[trigger] back_cap_tris(b, k, c)[m] < b
                + k,
    decreases c,
{
    if c > 0 {
        lemma_back_cap_tris_bounds(b, k, c - 1);
        lemma_back_cap_tris_len(b, k, c - 1);
    }
}

/// Every index of a band between rings `i - 1` and `i` lies in
/// `[(i - 1) k, (i + 1) k)`.
proof fn lemma_band_bounds(i: int, k: int, j: int)
    requires
        0 <= j <= k,
        1 <= i,
        3 <= k,
    ensures
        forall|m: int|
            0 <= m < band(i, k, j).len() ==> (i - 1) * k <= #[trigger] band(i, k, j)[m] < (i + 1)
                * k,
    decreases j,
{
    if j > 0 {
        lemma_band_bounds(i, k, j - 1);
        lemma_band_len(i, k, j - 1);
        assert((i - 1) * k == i * k - k && (i + 1) * k == i * k + k) by (nonlinear_arith);
        assert(0 <= (j - 1 + 1) % k < k) by {
            if j < k {
                lemma_small_mod(j as nat, k as nat);
            } else {
                lemma_mod_self_0(k);
            }
        }
    }
}

/// Every side-face index below ring `i` lies in `[0, i k)`.
proof fn lemma_sides_upto_bounds(k: int, i: int)
    requires
        1 <= i,
        3 <= k,
    ensures
        forall|m: int|
            0 <= m < sides_upto(k, i).len() ==> 0 <= #[trigger] sides_upto(k, i)[m] < i * k,
    decreases i,
{
    if i > 1 {
        lemma_sides_upto_bounds(k, i - 1);
        lemma_sides_upto_len(k, i - 1);
        lemma_band_bounds(i - 1, k, k);
        assert((i - 1 - 1) * k >= 0 && (i - 1 + 1) * k == i * k && (i - 1) * k <= i * k)
            by (nonlinear_arith)
            requires
                2 <= i,
                3 <= k,
        ;
    } else {
        assert(1 * k > 0) by (nonlinear_arith)
            requires
                3 <= k,
        ;
    }
}

/// Every index of the whole mesh addresses one of its `n k` vertices.
pub proof fn lemma_mesh_indices_bounds(n: int, k: int)
    requires
        1 <= n,
        3 <= k,
    ensures
        forall|m: int|
            0 <= m < mesh_indices(n, k).len() ==> 0 <= #[trigger] mesh_indices(n, k)[m] < n * k,
{
    lemma_front_cap_tris_bounds(k - 2);
    lemma_front_cap_tris_len(k - 2);
    lemma_sides_upto_bounds(k, n);
    lemma_sides_upto_len(k, n);
    lemma_back_cap_tris_bounds((n - 1) * k, k, k - 2);
    lemma_back_cap_tris_len((n - 1) * k, k, k - 2);
    assert(k <= n * k && (n - 1) * k >= 0 && (n - 1) * k + k == n * k) by (nonlinear_arith)
        requires
            1 <= n,
            3 <= k,
    ;
}

} // verus!
