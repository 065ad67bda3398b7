//! The triangle lists of the debug gizmo meshes: which vertices each triangle joins.
//! The vertex positions are floats and are made by the caller in the order these lists
//! assume.
//!
//! A cuboid has six faces of four vertices each, face by face, every face split into
//! two triangles. A cylinder of `s` segments lists its bottom centre, its bottom ring
//! of `s` vertices, its top centre, its top ring, and then a bottom and a top vertex of
//! the side wall for each segment; each cap is a fan round its centre and each segment
//! of the wall two triangles. A sphere of `s` segments and `r` rings (at least three
//! and two) lists `r + 1` rings of `s + 1` vertices; each cell between two rings is two
//! triangles. A pill of `s` segments and `r` rings lists four wall vertices per
//! segment, then its bottom and its top hemisphere, each `r + 1` rings of `s + 1`
//! vertices; the wall of each segment is two triangles, and so is each cell of a
//! hemisphere, turned the other way round on the bottom one.
use vstd::prelude::*;

verus! {

/// The corner of its face that entry `k` of a face's six entries names.
pub open spec fn face_corner(k: int) -> int {
    if k == 0 || k == 3 {
        0
    } else if k == 1 {
        1
    } else if k == 2 || k == 4 {
        2
    } else {
        3
    }
}

/// The triangles of a cuboid: face `f` joins its corners 0, 1, 2 and 0, 2, 3.
pub fn cuboid_indices() -> (r: Vec<u32>)
    ensures
        r@.len() == 36,
        forall|f: int, k: int| 0 <= f < 6 && 0 <= k < 6 ==> #[trigger] r@[6 * f + k] == 4 * f + face_corner(k),
{
    let mut r: Vec<u32> = Vec::new();
    let mut f: u32 = 0;
    while f < 6
        invariant
            f <= 6,
            r@.len() == 6 * f,
            forall|g: int, k: int| 0 <= g < f && 0 <= k < 6 ==> #[trigger] r@[6 * g + k] == 4 * g + face_corner(k),
        decreases 6 - f,
    {
        let b = 4 * f;
        let ghost before = r@;
        r.push(b);
        r.push(b + 1);
        r.push(b + 2);
        r.push(b);
        r.push(b + 2);
        r.push(b + 3);
        assert forall|g: int, k: int| 0 <= g < f + 1 && 0 <= k < 6 implies #[trigger] r@[6 * g + k] == 4 * g
            + face_corner(k) by {
            if g < f {
                assert(r@[6 * g + k] == before[6 * g + k]);
            }
        }
        f = f + 1;
    }
    r
}

/// The segment after segment `i` of `s`, going round.
pub open spec fn next_segment(i: int, s: int) -> int {
    if i + 1 == s {
        0
    } else {
        i + 1
    }
}

/// Entry `k` of the bottom cap's triangle `i`: the centre, the next ring vertex and
/// ring vertex `i`.
pub open spec fn bottom_cap_index(i: int, k: int, s: int) -> int {
    if k == 0 {
        0
    } else if k == 1 {
        1 + next_segment(i, s)
    } else {
        1 + i
    }
}

/// Entry `k` of the top cap's triangle `i`: the centre, ring vertex `i` and the next.
pub open spec fn top_cap_index(i: int, k: int, s: int) -> int {
    if k == 0 {
        s + 1
    } else if k == 1 {
        s + 2 + i
    } else {
        s + 2 + next_segment(i, s)
    }
}

/// Entry `k` of the two wall triangles of segment `i`: bottom `i`, bottom next, top
/// `i`, then top `i`, bottom next, top next.
pub open spec fn wall_index(i: int, k: int, s: int) -> int {
    let base = 2 * s + 2;
    let n = next_segment(i, s);
    if k == 0 {
        base + 2 * i
    } else if k == 1 || k == 4 {
        base + 2 * n
    } else if k == 2 || k == 3 {
        base + 2 * i + 1
    } else {
        base + 2 * n + 1
    }
}

/// The triangles of a cylinder of `segments` segments: the bottom cap, then the top
/// cap, then the wall.
pub fn cylinder_indices(segments: u32) -> (r: Vec<u32>)
    requires
        4 * segments + 2 <= u32::MAX,
        12 * segments <= usize::MAX,
    ensures
        r@.len() == 12 * segments,
        forall|i: int, k: int|
            0 <= i < segments && 0 <= k < 3 ==> #[trigger] r@[3 * i + k] == bottom_cap_index(i, k, segments as int),
        forall|i: int, k: int|
            0 <= i < segments && 0 <= k < 3 ==> #[trigger] r@[3 * segments + 3 * i + k] == top_cap_index(
                i,
                k,
                segments as int,
            ),
        forall|i: int, k: int|
            0 <= i < segments && 0 <= k < 6 ==> #[trigger] r@[6 * segments + 6 * i + k] == wall_index(
                i,
                k,
                segments as int,
            ),
{
    let s = segments;
    let mut r: Vec<u32> = Vec::new();
    let mut i: u32 = 0;
    while i < s
        invariant
            s == segments,
            4 * s + 2 <= u32::MAX,
            i <= s,
            r@.len() == 3 * i,
            forall|j: int, k: int| 0 <= j < i && 0 <= k < 3 ==> #[trigger] r@[3 * j + k] == bottom_cap_index(j, k, s as int),
        decreases s - i,
    {
        let next = if i + 1 == s { 0 } else { i + 1 };
        let ghost before = r@;
        r.push(0);
        r.push(1 + next);
        r.push(1 + i);
        assert forall|j: int, k: int| 0 <= j < i + 1 && 0 <= k < 3 implies #[trigger] r@[3 * j + k]
            == bottom_cap_index(j, k, s as int) by {
            if j < i {
                assert(r@[3 * j + k] == before[3 * j + k]);
            }
        }
        i = i + 1;
    }
    let ghost bottom = r@;
    i = 0;
    while i < s
        invariant
            s == segments,
            4 * s + 2 <= u32::MAX,
            i <= s,
            r@.len() == 3 * s + 3 * i,
            forall|j: int| 0 <= j < 3 * s ==> r@[j] == bottom[j],
            forall|j: int, k: int|
                0 <= j < s && 0 <= k < 3 ==> #[trigger] bottom[3 * j + k] == bottom_cap_index(j, k, s as int),
            forall|j: int, k: int|
                0 <= j < i && 0 <= k < 3 ==> #[trigger] r@[3 * s + 3 * j + k] == top_cap_index(j, k, s as int),
        decreases s - i,
    {
        let next = if i + 1 == s { 0 } else { i + 1 };
        let ghost before = r@;
        r.push(s + 1);
        r.push(s + 2 + i);
        r.push(s + 2 + next);
        assert forall|j: int, k: int| 0 <= j < i + 1 && 0 <= k < 3 implies #[trigger] r@[3 * s + 3 * j + k]
            == top_cap_index(j, k, s as int) by {
            if j < i {
                assert(r@[3 * s + 3 * j + k] == before[3 * s + 3 * j + k]);
            }
        }
        i = i + 1;
    }
    let ghost caps = r@;
    assert forall|j: int, k: int| 0 <= j < s && 0 <= k < 3 implies #[trigger] caps[3 * j + k] == bottom_cap_index(
        j,
        k,
        s as int,
    ) by {
        assert(caps[3 * j + k] == bottom[3 * j + k]);
    }
    i = 0;
    while i < s
        invariant
            s == segments,
            4 * s + 2 <= u32::MAX,
            i <= s,
            r@.len() == 6 * s + 6 * i,
            forall|j: int| 0 <= j < 6 * s ==> r@[j] == caps[j],
            forall|j: int, k: int|
                0 <= j < s && 0 <= k < 3 ==> #[trigger] caps[3 * j + k] == bottom_cap_index(j, k, s as int),
            forall|j: int, k: int|
                0 <= j < s && 0 <= k < 3 ==> #[trigger] caps[3 * s + 3 * j + k] == top_cap_index(j, k, s as int),
            forall|j: int, k: int|
                0 <= j < i && 0 <= k < 6 ==> #[trigger] r@[6 * s + 6 * j + k] == wall_index(j, k, s as int),
        decreases s - i,
    {
        let next = if i + 1 == s { 0 } else { i + 1 };
        let base = 2 * s + 2;
        let ghost before = r@;
        r.push(base + 2 * i);
        r.push(base + 2 * next);
        r.push(base + 2 * i + 1);
        r.push(base + 2 * i + 1);
        r.push(base + 2 * next);
        r.push(base + 2 * next + 1);
        assert forall|j: int, k: int| 0 <= j < i + 1 && 0 <= k < 6 implies #[trigger] r@[6 * s + 6 * j + k]
            == wall_index(j, k, s as int) by {
            if j < i {
                assert(r@[6 * s + 6 * j + k] == before[6 * s + 6 * j + k]);
            }
        }
        i = i + 1;
    }
    assert forall|j: int, k: int| 0 <= j < s && 0 <= k < 3 implies #[trigger] r@[3 * j + k] == bottom_cap_index(
        j,
        k,
        s as int,
    ) by {
        assert(r@[3 * j + k] == caps[3 * j + k]);
    }
    assert forall|j: int, k: int| 0 <= j < s && 0 <= k < 3 implies #[trigger] r@[3 * s + 3 * j + k]
        == top_cap_index(j, k, s as int) by {
        assert(r@[3 * s + 3 * j + k] == caps[3 * s + 3 * j + k]);
    }
    r
}

/// Entry `k` of the two triangles of the cell at ring `ring` and segment `seg` of a
/// sphere whose rings hold `stride` vertices: with `a` the cell's corner on its ring,
/// `a + 1` the next, and `c`, `c + 1` the two on the next ring, the triangles are
/// `a, a + 1, c` and `a + 1, c + 1, c`.
pub open spec fn sphere_corner(ring: int, seg: int, k: int, stride: int) -> int {
    let a = ring * stride + seg;
    let c = (ring + 1) * stride + seg;
    if k == 0 {
        a
    } else if k == 1 || k == 3 {
        a + 1
    } else if k == 2 || k == 5 {
        c
    } else {
        c + 1
    }
}

/// At least `lo`.
pub open spec fn at_least(v: u32, lo: u32) -> u32 {
    if v < lo {
        lo
    } else {
        v
    }
}

proof fn lemma_cell_order(rr: int, ss: int, ring: int, seg: int, segs: int)
    requires
        0 <= ss < segs,
        0 <= rr,
        0 <= seg,
        rr < ring || (rr == ring && ss < seg),
    ensures
        rr * segs + ss < ring * segs + seg,
        0 <= rr * segs + ss,
{
    if rr < ring {
        assert(rr * segs + segs <= ring * segs) by (nonlinear_arith)
            requires
                rr < ring,
                0 <= segs,
        ;
    }
    assert(0 <= rr * segs) by (nonlinear_arith)
        requires
            0 <= rr,
            0 <= segs,
    ;
}

/// The triangles of a sphere of `segments` segments and `rings` rings, at least three
/// segments and two rings: cell by cell, ring by ring.
pub fn sphere_indices(segments: u32, rings: u32) -> (r: Vec<u32>)
    requires
        (at_least(rings, 2) + 1) * (at_least(segments, 3) + 1) <= u32::MAX,
        6 * at_least(rings, 2) * at_least(segments, 3) <= usize::MAX,
    ensures
        r@.len() == 6 * at_least(rings, 2) * at_least(segments, 3),
        forall|ring: int, seg: int, k: int|
            0 <= ring < at_least(rings, 2) && 0 <= seg < at_least(segments, 3) && 0 <= k < 6
                ==> #[trigger] r@[6 * (ring * at_least(segments, 3) + seg) + k] == sphere_corner(
                ring,
                seg,
                k,
                at_least(segments, 3) + 1,
            ),
{
    let segs: u32 = if segments < 3 {
        3
    } else {
        segments
    };
    let rgs: u32 = if rings < 2 {
        2
    } else {
        rings
    };
    assert(segs + 1 <= (rgs + 1) * (segs + 1)) by (nonlinear_arith)
        requires
            rgs >= 2,
    ;
    let stride: u32 = segs + 1;
    let mut r: Vec<u32> = Vec::new();
    let mut ring: u32 = 0;
    while ring < rgs
        invariant
            segs == at_least(segments, 3),
            rgs == at_least(rings, 2),
            stride == segs + 1,
            (rgs + 1) * (segs + 1) <= u32::MAX,
            ring <= rgs,
            r@.len() == 6 * (ring * segs),
            forall|rr: int, ss: int, k: int|
                0 <= rr < ring && 0 <= ss < segs && 0 <= k < 6 ==> #[trigger] r@[6 * (rr * segs + ss) + k]
                    == sphere_corner(rr, ss, k, stride as int),
        decreases rgs - ring,
    {
        let mut seg: u32 = 0;
        assert((ring + 2) * (stride as int) <= (rgs + 1) * (stride as int)) by (nonlinear_arith)
            requires
                ring + 1 <= rgs,
                0 <= stride,
        ;
        assert((ring + 1) * (stride as int) == ring * (stride as int) + stride) by (nonlinear_arith);
        assert((ring + 2) * (stride as int) == (ring + 1) * (stride as int) + stride) by (nonlinear_arith);
        while seg < segs
            invariant
                segs == at_least(segments, 3),
                rgs == at_least(rings, 2),
                stride == segs + 1,
                (rgs + 1) * (segs + 1) <= u32::MAX,
                ring < rgs,
                (ring + 2) * (stride as int) <= (rgs + 1) * (stride as int),
                (ring + 1) * (stride as int) == ring * (stride as int) + stride,
                (ring + 2) * (stride as int) == (ring + 1) * (stride as int) + stride,
                seg <= segs,
                r@.len() == 6 * (ring * segs + seg),
                forall|rr: int, ss: int, k: int|
                    0 <= ss < segs && 0 <= k < 6 && 0 <= rr && (rr < ring || (rr == ring && ss < seg))
                        ==> #[trigger] r@[6 * (rr * segs + ss) + k] == sphere_corner(rr, ss, k, stride as int),
            decreases segs - seg,
        {
            let i0 = ring * stride + seg;
            let i1 = i0 + 1;
            let i2 = (ring + 1) * stride + seg;
            let i3 = i2 + 1;
            let ghost before = r@;
            let ghost q = ring * segs + seg;
            r.push(i0);
            r.push(i1);
            r.push(i2);
            r.push(i1);
            r.push(i3);
            r.push(i2);
            assert forall|rr: int, ss: int, k: int|
                0 <= ss < segs && 0 <= k < 6 && 0 <= rr && (rr < ring || (rr == ring && ss < seg + 1))
                    implies #[trigger] r@[6 * (rr * segs + ss) + k] == sphere_corner(rr, ss, k, stride as int) by {
                if rr < ring || ss < seg {
                    lemma_cell_order(rr, ss, ring as int, seg as int, segs as int);
                    assert(r@[6 * (rr * segs + ss) + k] == before[6 * (rr * segs + ss) + k]);
                } else {
                    assert(rr * segs + ss == q);
                }
            }
            seg = seg + 1;
        }
        assert(ring * segs + segs == (ring + 1) * segs) by (nonlinear_arith);
        ring = ring + 1;
    }
    assert(6 * (rgs * segs) == 6 * rgs * segs) by (nonlinear_arith);
    r
}

/// Entry `k` of the two triangles of the cell at ring `ring` and segment `seg` of a
/// pill's hemisphere whose rings hold `s + 1` vertices, counted from the hemisphere's
/// first vertex: with `a`, `a + 1` on the cell's ring and `c`, `c + 1` on the next, the
/// top hemisphere's triangles are `a, a + 1, c` and `a + 1, c + 1, c`, the bottom one's
/// `a, c, a + 1` and `a + 1, c, c + 1`.
pub open spec fn hemisphere_corner(ring: int, seg: int, k: int, s: int, bottom: bool) -> int {
    let a = ring * (s + 1) + seg;
    let c = a + s + 1;
    if k == 0 {
        a
    } else if k == 1 {
        if bottom {
            c
        } else {
            a + 1
        }
    } else if k == 2 {
        if bottom {
            a + 1
        } else {
            c
        }
    } else if k == 3 {
        a + 1
    } else if k == 4 {
        if bottom {
            c
        } else {
            c + 1
        }
    } else {
        if bottom {
            c + 1
        } else {
            c
        }
    }
}

/// Entry `k` of the two wall triangles of a pill's segment `i`: its corners 0, 1, 2 and
/// 0, 2, 3.
pub open spec fn pill_wall_index(i: int, k: int) -> int {
    4 * i + face_corner(k)
}

fn push_hemisphere(r: &mut Vec<u32>, base: u32, segs: u32, rings: u32, bottom: bool)
    requires
        base + (rings + 1) * (segs + 1) <= u32::MAX,
        old(r)@.len() + 6 * (rings * segs) <= usize::MAX,
    ensures
        final(r)@.len() == old(r)@.len() + 6 * (rings * segs),
        forall|j: int| 0 <= j < old(r)@.len() ==> final(r)@[j] == old(r)@[j],
        forall|ring: int, seg: int, k: int|
            0 <= ring < rings && 0 <= seg < segs && 0 <= k < 6 ==> #[trigger] final(r)@[old(r)@.len() + 6 * (
            ring * segs + seg) + k] == base + hemisphere_corner(ring, seg, k, segs as int, bottom),
{
    let ghost start = r@;
    let ghost n0 = r@.len();
    assert(segs + 1 <= (rings + 1) * (segs + 1)) by (nonlinear_arith)
        requires
            rings >= 0,
    ;
    let stride: u32 = segs + 1;
    let mut ring: u32 = 0;
    while ring < rings
        invariant
            base + (rings + 1) * (segs + 1) <= u32::MAX,
            stride == segs + 1,
            ring <= rings,
            n0 == start.len(),
            r@.len() == n0 + 6 * (ring * segs),
            forall|j: int| 0 <= j < n0 ==> r@[j] == start[j],
            forall|rr: int, ss: int, k: int|
                0 <= rr < ring && 0 <= ss < segs && 0 <= k < 6 ==> #[trigger] r@[n0 + 6 * (rr * segs + ss) + k]
                    == base + hemisphere_corner(rr, ss, k, segs as int, bottom),
        decreases rings - ring,
    {
        assert((ring + 2) * (stride as int) <= (rings + 1) * (stride as int)) by (nonlinear_arith)
            requires
                ring + 1 <= rings,
                0 <= stride,
        ;
        assert((ring + 2) * (stride as int) == ring * (stride as int) + stride + stride) by (nonlinear_arith);
        let mut seg: u32 = 0;
        while seg < segs
            invariant
                base + (rings + 1) * (segs + 1) <= u32::MAX,
                stride == segs + 1,
                ring < rings,
                (ring + 2) * (stride as int) <= (rings + 1) * (stride as int),
                (ring + 2) * (stride as int) == ring * (stride as int) + stride + stride,
                seg <= segs,
                n0 == start.len(),
                r@.len() == n0 + 6 * (ring * segs + seg),
                forall|j: int| 0 <= j < n0 ==> r@[j] == start[j],
                forall|rr: int, ss: int, k: int|
                    0 <= ss < segs && 0 <= k < 6 && 0 <= rr && (rr < ring || (rr == ring && ss < seg))
                        ==> #[trigger] r@[n0 + 6 * (rr * segs + ss) + k] == base + hemisphere_corner(
                        rr,
                        ss,
                        k,
                        segs as int,
                        bottom,
                    ),
            decreases segs - seg,
        {
            let i0 = ring * stride + seg;
            let i1 = i0 + 1;
            let i2 = i0 + segs + 1;
            let i3 = i2 + 1;
            let ghost before = r@;
            let ghost q = ring * segs + seg;
            if bottom {
                r.push(base + i0);
                r.push(base + i2);
                r.push(base + i1);
                r.push(base + i1);
                r.push(base + i2);
                r.push(base + i3);
            } else {
                r.push(base + i0);
                r.push(base + i1);
                r.push(base + i2);
                r.push(base + i1);
                r.push(base + i3);
                r.push(base + i2);
            }
            assert forall|rr: int, ss: int, k: int|
                0 <= ss < segs && 0 <= k < 6 && 0 <= rr && (rr < ring || (rr == ring && ss < seg + 1))
                    implies #[trigger] r@[n0 + 6 * (rr * segs + ss) + k] == base + hemisphere_corner(
                    rr,
                    ss,
                    k,
                    segs as int,
                    bottom,
                ) by {
                if rr < ring || ss < seg {
                    lemma_cell_order(rr, ss, ring as int, seg as int, segs as int);
                    assert(r@[n0 + 6 * (rr * segs + ss) + k] == before[n0 + 6 * (rr * segs + ss) + k]);
                } else {
                    assert(rr * segs + ss == q);
                }
            }
            seg = seg + 1;
        }
        assert(ring * segs + segs == (ring + 1) * segs) by (nonlinear_arith);
        ring = ring + 1;
    }
}

/// The triangles of a pill of `segments` segments and `rings` rings: the wall, then the
/// bottom hemisphere, then the top one.
pub fn pill_indices(segments: u32, rings: u32) -> (r: Vec<u32>)
    requires
        4 * segments + 2 * (rings + 1) * (segments + 1) <= u32::MAX,
        6 * segments + 12 * (rings * segments) <= usize::MAX,
    ensures
        r@.len() == 6 * segments + 12 * (rings * segments),
        forall|i: int, k: int| 0 <= i < segments && 0 <= k < 6 ==> #[trigger] r@[6 * i + k] == pill_wall_index(i, k),
        forall|ring: int, seg: int, k: int|
            0 <= ring < rings && 0 <= seg < segments && 0 <= k < 6 ==> #[trigger] r@[6 * segments + 6 * (ring
                * segments + seg) + k] == 4 * segments + hemisphere_corner(ring, seg, k, segments as int, true),
        forall|ring: int, seg: int, k: int|
            0 <= ring < rings && 0 <= seg < segments && 0 <= k < 6 ==> #[trigger] r@[6 * segments + 6 * (
            rings * segments) + 6 * (ring * segments + seg) + k] == 4 * segments + (rings + 1) * (segments
                + 1) + hemisphere_corner(ring, seg, k, segments as int, false),
{
    let s = segments;
    let mut r: Vec<u32> = Vec::new();
    let mut i: u32 = 0;
    while i < s
        invariant
            s == segments,
            4 * s + 2 * (rings + 1) * (s + 1) <= u32::MAX,
            i <= s,
            r@.len() == 6 * i,
            forall|j: int, k: int| 0 <= j < i && 0 <= k < 6 ==> #[trigger] r@[6 * j + k] == pill_wall_index(j, k),
        decreases s - i,
    {
        let b = 4 * i;
        let ghost before = r@;
        r.push(b);
        r.push(b + 1);
        r.push(b + 2);
        r.push(b);
        r.push(b + 2);
        r.push(b + 3);
        assert forall|j: int, k: int| 0 <= j < i + 1 && 0 <= k < 6 implies #[trigger] r@[6 * j + k]
            == pill_wall_index(j, k) by {
            if j < i {
                assert(r@[6 * j + k] == before[6 * j + k]);
            }
        }
        i = i + 1;
    }
    let ghost wall = r@;
    assert(rings + 1 <= (rings + 1) * (s + 1) && s + 1 <= (rings + 1) * (s + 1)) by (nonlinear_arith)
        requires
            rings >= 0,
            s >= 0,
    ;
    assert(4 * s + 2 * (rings + 1) * (s + 1) == 4 * s + (rings + 1) * (s + 1) + (rings + 1) * (s + 1))
        by (nonlinear_arith);
    let hemisphere_size: u32 = (rings + 1) * (s + 1);
    let bottom_base: u32 = 4 * s;
    let top_base: u32 = 4 * s + hemisphere_size;
    push_hemisphere(&mut r, bottom_base, s, rings, true);
    let ghost after_bottom = r@;
    push_hemisphere(&mut r, top_base, s, rings, false);
    assert forall|j: int, k: int| 0 <= j < s && 0 <= k < 6 implies #[trigger] r@[6 * j + k] == pill_wall_index(
        j,
        k,
    ) by {
        assert(r@[6 * j + k] == after_bottom[6 * j + k]);
        assert(after_bottom[6 * j + k] == wall[6 * j + k]);
    }
    assert forall|ring: int, seg: int, k: int|
        0 <= ring < rings && 0 <= seg < s && 0 <= k < 6 implies #[trigger] r@[6 * s + 6 * (ring * s + seg)
        + k] == 4 * s + hemisphere_corner(ring, seg, k, s as int, true) by {
        lemma_cell_order(ring, seg, rings as int, 0, s as int);
        assert(r@[6 * s + 6 * (ring * s + seg) + k] == after_bottom[6 * s + 6 * (ring * s + seg) + k]);
    }
    r
}

} // verus!
