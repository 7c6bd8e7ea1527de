//! Winding consistency of the tube mesh.
//!
//! All triangles of the mesh share one handedness.  Combinatorially: in a
//! consistently wound closed triangle mesh, every directed edge of every
//! triangle is traversed exactly as often in the opposite direction by the
//! neighbouring triangles.  The statement proved here
//! ([`lemma_winding_consistent`]) is that for every ordered vertex pair
//! `(a, b)`, the directed edge `(a, b)` occurs in the mesh's triangle list
//! exactly as often as `(b, a)` — a single triangle with inverted winding
//! would unbalance its three edges.
//!
//! The proof walks the mesh the way the builder emits it: the front cap
//! leaves the ring-0 edges uncancelled in the forward direction, each side
//! band consumes the forward edges of the ring below and exposes those of
//! the ring above, and the back cap consumes the last ring's forward edges.

use vstd::prelude::*;
use crate::geometry::{
    back_cap, back_cap_tris, band, front_cap, front_cap_tris, lemma_band_len,
    lemma_front_cap_tris_len, lemma_mesh_indices_len, lemma_sides_upto_len, mesh_indices, quad,
    sides_upto, tri,
};
use vstd::arithmetic::div_mod::{lemma_mod_multiples_basic, lemma_mod_self_0, lemma_small_mod};

verus! {

/// How often the directed edge `(a, b)` occurs among the three edges
/// `(x,y)`, `(y,z)`, `(z,x)` of the triangle `[x, y, z]`.
pub open spec fn tri_edge_count(x: int, y: int, z: int, a: int, b: int) -> int {
    (if x == a && y == b {
        1int
    } else {
        0int
    }) + (if y == a && z == b {
        1int
    } else {
        0int
    }) + (if z == a && x == b {
        1int
    } else {
        0int
    })
}

/// How often the directed edge `(a, b)` occurs in a triangle list
/// (three consecutive indices per triangle).
pub open spec fn edge_count(s: Seq<int>, a: int, b: int) -> int
    decreases s.len(),
{
    if s.len() < 3 {
        0
    } else {
        tri_edge_count(s[0], s[1], s[2], a, b) + edge_count(s.skip(3), a, b)
    }
}

/// Signed balance of the directed edge `(a, b)` against its reverse.
spec fn edge_balance(s: Seq<int>, a: int, b: int) -> int {
    edge_count(s, a, b) - edge_count(s, b, a)
}

/// The ring vertex following `v` on the ring of `k` vertices based at `base`.
spec fn ring_step(base: int, k: int, v: int) -> int {
    base + (v - base + 1) % k
}

/// `(a, b)` runs forward along the ring based at `base`, leaving one of the
/// first `j` ring vertices.
spec fn ring_fwd(base: int, k: int, j: int, a: int, b: int) -> bool {
    base <= a < base + j && b == ring_step(base, k, a)
}

/// Signed indicator of the first `j` forward ring edges at `base`.
spec fn ring_ind(base: int, k: int, j: int, a: int, b: int) -> int {
    (if ring_fwd(base, k, j, a, b) {
        1int
    } else {
        0int
    }) - (if ring_fwd(base, k, j, b, a) {
        1int
    } else {
        0int
    })
}

/// Signed indicator of the single directed edge `(x, y)`.
spec fn edge_ind(x: int, y: int, a: int, b: int) -> int {
    (if a == x && b == y {
        1int
    } else {
        0int
    }) - (if a == y && b == x {
        1int
    } else {
        0int
    })
}

/// Signed indicator of the run of edges `base+lo -> base+lo+1 -> ... -> base+hi`.
spec fn seg_ind(base: int, lo: int, hi: int, a: int, b: int) -> int {
    (if base + lo <= a < base + hi && b == a + 1 {
        1int
    } else {
        0int
    }) - (if base + lo <= b < base + hi && a == b + 1 {
        1int
    } else {
        0int
    })
}

/// Edge counting distributes over concatenation of triangle lists.
proof fn lemma_edge_count_concat(s: Seq<int>, t: Seq<int>, a: int, b: int)
    requires
        s.len() % 3 == 0,
    ensures
        edge_count(s + t, a, b) == edge_count(s, a, b) + edge_count(t, a, b),
    decreases s.len(),
{
    if s.len() == 0 {
        assert(s + t =~= t);
    } else {
        assert((s + t).skip(3) =~= s.skip(3) + t);
        lemma_edge_count_concat(s.skip(3), t, a, b);
    }
}

/// A single triangle counts exactly its own edges.
proof fn lemma_edge_count_tri(x: int, y: int, z: int, a: int, b: int)
    ensures
        edge_count(tri(x, y, z), a, b) == tri_edge_count(x, y, z, a, b),
{
    let s = tri(x, y, z);
    assert(s.len() == 3 && s[0] == x && s[1] == y && s[2] == z);
    assert(s.skip(3) =~= Seq::<int>::empty());
    assert(edge_count(s.skip(3), a, b) == 0);
}

/// Balance of a partial front-cap fan: an open path `0 -> 1 -> ... -> t+1`
/// closed by the spoke `t+1 -> 0`.
proof fn lemma_front_cap_balance(t: int, a: int, b: int)
    requires
        0 <= t,
    ensures
        edge_balance(front_cap_tris(t), a, b) == seg_ind(0, 0, t + 1, a, b) + edge_ind(
            t + 1,
            0,
            a,
            b,
        ),
    decreases t,
{
    if t == 0 {
        assert(front_cap_tris(0) =~= Seq::<int>::empty());
    } else {
        lemma_front_cap_balance(t - 1, a, b);
        lemma_front_cap_tris_len(t - 1);
        lemma_edge_count_concat(front_cap_tris(t - 1), tri(t, t + 1, 0), a, b);
        lemma_edge_count_concat(front_cap_tris(t - 1), tri(t, t + 1, 0), b, a);
        lemma_edge_count_tri(t, t + 1, 0, a, b);
        lemma_edge_count_tri(t, t + 1, 0, b, a);
    }
}

/// The full front cap exposes exactly the forward edges of ring 0.
proof fn lemma_front_cap_ring(k: int, a: int, b: int)
    requires
        3 <= k,
    ensures
        edge_balance(front_cap(k), a, b) == ring_ind(0, k, k, a, b),
{
    lemma_front_cap_balance(k - 2, a, b);
    if 0 <= a < k - 1 {
        lemma_small_mod((a + 1) as nat, k as nat);
    }
    if a == k - 1 {
        lemma_mod_self_0(k);
    }
    if 0 <= b < k - 1 {
        lemma_small_mod((b + 1) as nat, k as nat);
    }
    if b == k - 1 {
        lemma_mod_self_0(k);
    }
}

/// Balance of a partial side band: the forward ring edges built so far on
/// top, their reverses below, and the two open vertical edges at the seam.
proof fn lemma_band_balance(i: int, k: int, j: int, a: int, b: int)
    requires
        1 <= i,
        3 <= k,
        0 <= j <= k,
    ensures
        edge_balance(band(i, k, j), a, b) == ring_ind(i * k, k, j, a, b) - ring_ind(
            (i - 1) * k,
            k,
            j,
            a,
            b,
        ) + edge_ind((i - 1) * k, i * k, a, b) + edge_ind(
            i * k + (j % k),
            (i - 1) * k + (j % k),
            a,
            b,
        ),
    decreases j,
{
    let i1 = i * k;
    let i0 = (i - 1) * k;
    assert(i * k == (i - 1) * k + k) by (nonlinear_arith);
    if j == 0 {
        assert(band(i, k, 0) =~= Seq::<int>::empty());
        lemma_small_mod(0nat, k as nat);
    } else {
        lemma_band_balance(i, k, j - 1, a, b);
        lemma_band_len(i, k, j - 1);
        let x = j - 1;
        let x1 = j % k;
        if j < k {
            lemma_small_mod(j as nat, k as nat);
        } else {
            lemma_mod_self_0(k);
        }
        lemma_small_mod(x as nat, k as nat);
        // The quad's two triangles.
        let t1 = tri(i1 + x, i1 + x1, i0 + x);
        let t2 = tri(i1 + x1, i0 + x1, i0 + x);
        assert(quad(i, k, x) == t1 + t2);
        lemma_edge_count_concat(band(i, k, x), quad(i, k, x), a, b);
        lemma_edge_count_concat(band(i, k, x), quad(i, k, x), b, a);
        lemma_edge_count_concat(t1, t2, a, b);
        lemma_edge_count_concat(t1, t2, b, a);
        lemma_edge_count_tri(i1 + x, i1 + x1, i0 + x, a, b);
        lemma_edge_count_tri(i1 + x, i1 + x1, i0 + x, b, a);
        lemma_edge_count_tri(i1 + x1, i0 + x1, i0 + x, a, b);
        lemma_edge_count_tri(i1 + x1, i0 + x1, i0 + x, b, a);
        // The top edge `(i1+x, i1+x1)` extends the partial forward ring at `i1`,
        // the bottom edge `(i0+x1, i0+x)` its reverse at `i0`.
        assert(forall|p: int, q: int|
            #[trigger] ring_fwd(i1, k, j, p, q) <==> ring_fwd(i1, k, j - 1, p, q) || (p == i1 + x
                && q == i1 + x1)) by {
            assert(ring_step(i1, k, i1 + x) == i1 + x1);
        }
        assert(forall|p: int, q: int|
            #[trigger] ring_fwd(i0, k, j, p, q) <==> ring_fwd(i0, k, j - 1, p, q) || (p == i0 + x
                && q == i0 + x1)) by {
            assert(ring_step(i0, k, i0 + x) == i0 + x1);
        }
    }
}

/// Balance of the side faces up to ring `i`: forward edges of ring `i - 1`
/// minus forward edges of ring 0.
proof fn lemma_sides_balance(k: int, i: int, a: int, b: int)
    requires
        3 <= k,
        1 <= i,
    ensures
        edge_balance(sides_upto(k, i), a, b) == ring_ind((i - 1) * k, k, k, a, b) - ring_ind(
            0,
            k,
            k,
            a,
            b,
        ),
    decreases i,
{
    if i == 1 {
        assert(sides_upto(k, 1) =~= Seq::<int>::empty());
        assert((1 - 1) * k == 0) by (nonlinear_arith);
    } else {
        lemma_sides_balance(k, i - 1, a, b);
        lemma_sides_upto_len(k, i - 1);
        lemma_band_balance(i - 1, k, k, a, b);
        assert(6 * (i - 2) * k == 3 * (2 * ((i - 2) * k))) by (nonlinear_arith);
        lemma_mod_multiples_basic(2 * ((i - 2) * k), 3);
        lemma_edge_count_concat(sides_upto(k, i - 1), band(i - 1, k, k), a, b);
        lemma_edge_count_concat(sides_upto(k, i - 1), band(i - 1, k, k), b, a);
        lemma_mod_self_0(k);
    }
}

/// Balance of a partial back-cap fan: the reversed path near the ring's end
/// together with its two open spokes.
proof fn lemma_back_cap_balance(bb: int, k: int, c: int, a: int, b: int)
    requires
        3 <= k,
        0 <= c <= k - 2,
    ensures
        edge_balance(back_cap_tris(bb, k, c), a, b) == -seg_ind(bb, k - 1 - c, k - 1, a, b)
            + edge_ind(bb, bb + k - 1, a, b) + edge_ind(bb + k - c - 1, bb, a, b),
    decreases c,
{
    if c == 0 {
        assert(back_cap_tris(bb, k, 0) =~= Seq::<int>::empty());
    } else {
        lemma_back_cap_balance(bb, k, c - 1, a, b);
        lemma_back_cap_len_is_triples(bb, k, c - 1);
        lemma_edge_count_concat(
            back_cap_tris(bb, k, c - 1),
            tri(bb + k - c, bb + k - c - 1, bb),
            a,
            b,
        );
        lemma_edge_count_concat(
            back_cap_tris(bb, k, c - 1),
            tri(bb + k - c, bb + k - c - 1, bb),
            b,
            a,
        );
        lemma_edge_count_tri(bb + k - c, bb + k - c - 1, bb, a, b);
        lemma_edge_count_tri(bb + k - c, bb + k - c - 1, bb, b, a);
    }
}

proof fn lemma_back_cap_len_is_triples(bb: int, k: int, c: int)
    requires
        0 <= c,
    ensures
        back_cap_tris(bb, k, c).len() % 3 == 0,
    decreases c,
{
    if c > 0 {
        lemma_back_cap_len_is_triples(bb, k, c - 1);
    }
}

/// The full back cap consumes exactly the forward edges of its ring.
proof fn lemma_back_cap_ring(bb: int, k: int, a: int, b: int)
    requires
        3 <= k,
    ensures
        edge_balance(back_cap(bb, k), a, b) == -ring_ind(bb, k, k, a, b),
{
    lemma_back_cap_balance(bb, k, k - 2, a, b);
    if bb <= a < bb + k - 1 {
        lemma_small_mod((a - bb + 1) as nat, k as nat);
    }
    if a == bb + k - 1 {
        lemma_mod_self_0(k);
    }
    if bb <= b < bb + k - 1 {
        lemma_small_mod((b - bb + 1) as nat, k as nat);
    }
    if b == bb + k - 1 {
        lemma_mod_self_0(k);
    }
}

/// Balance of the whole mesh, one vertex pair at a time: the caps cancel
/// exactly what the bands leave open.
proof fn lemma_mesh_balance(n: int, k: int, a: int, b: int)
    requires
        1 <= n,
        3 <= k,
    ensures
        edge_balance(mesh_indices(n, k), a, b) == 0,
{
    lemma_front_cap_ring(k, a, b);
    lemma_sides_balance(k, n, a, b);
    lemma_back_cap_ring((n - 1) * k, k, a, b);
    lemma_front_cap_tris_len(k - 2);
    lemma_sides_upto_len(k, n);
    lemma_mod_multiples_basic(k - 2, 3);
    assert(3 * (k - 2) + 6 * (n - 1) * k == 3 * ((k - 2) + 2 * ((n - 1) * k)))
        by (nonlinear_arith);
    lemma_mod_multiples_basic((k - 2) + 2 * ((n - 1) * k), 3);
    lemma_edge_count_concat(front_cap(k), sides_upto(k, n), a, b);
    lemma_edge_count_concat(front_cap(k), sides_upto(k, n), b, a);
    lemma_edge_count_concat(front_cap(k) + sides_upto(k, n), back_cap((n - 1) * k, k), a, b);
    lemma_edge_count_concat(front_cap(k) + sides_upto(k, n), back_cap((n - 1) * k, k), b, a);
}

/// Winding consistency: in the tube mesh over `n` cross-sections of `k`
/// vertices, every directed triangle edge `(a, b)` occurs exactly as often
/// as its reverse `(b, a)`, so every face shares one handedness with its
/// neighbours.
pub proof fn lemma_winding_consistent(n: int, k: int)
    requires
        1 <= n,
        3 <= k,
    ensures
        forall|a: int, b: int|
            #[trigger] edge_count(mesh_indices(n, k), a, b) == edge_count(mesh_indices(n, k), b, a),
{
    assert forall|a: int, b: int|
        #[trigger] edge_count(mesh_indices(n, k), a, b) == edge_count(
            mesh_indices(n, k),
            b,
            a,
        ) by {
        lemma_mesh_balance(n, k, a, b);
    }
}

} // verus!
