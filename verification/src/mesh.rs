use vstd::prelude::*;

verus! {

/// The vertex before `i` on a ring of `vertices` vertices.
pub open spec fn previous_vertex(i: int, vertices: int) -> int {
    if i == 0 {
        vertices - 1
    } else {
        i - 1
    }
}

/// The vertex after `i` on a ring of `vertices` vertices.
pub open spec fn next_vertex(i: int, vertices: int) -> int {
    if i == vertices - 1 {
        0
    } else {
        i + 1
    }
}

/// The triangle at position `t` of a flat triangle list.
pub open spec fn triangle_at(indices: Seq<u32>, t: int) -> (int, int, int) {
    (indices[3 * t] as int, indices[3 * t + 1] as int, indices[3 * t + 2] as int)
}

/// Whether `tri`, walked in its winding order, goes from vertex `a` straight to vertex `b`.
pub open spec fn has_directed_edge(tri: (int, int, int), a: int, b: int) -> bool {
    ||| tri.0 == a && tri.1 == b
    ||| tri.1 == a && tri.2 == b
    ||| tri.2 == a && tri.0 == b
}

/// Whether the three corners of `tri` are three different vertices among the first `count`.
pub open spec fn proper_triangle(tri: (int, int, int), count: int) -> bool {
    &&& 0 <= tri.0 < count
    &&& 0 <= tri.1 < count
    &&& 0 <= tri.2 < count
    &&& tri.0 != tri.1
    &&& tri.1 != tri.2
    &&& tri.2 != tri.0
}

/// Triangle `t` of a cone whose mesh holds the `vertices` vertices of the base ring first, then
/// the centre of the base (index `vertices`), then the tip (index `vertices + 1`).
///
/// The base triangles, one per ring vertex `i`, come first: centre, `i`, the vertex before `i`;
/// the side triangles follow: tip, the vertex before `i`, `i`.
pub open spec fn cone_triangle(vertices: int, t: int) -> (int, int, int) {
    if t < vertices {
        (vertices, t, previous_vertex(t, vertices))
    } else {
        let i = t - vertices;
        (vertices + 1, previous_vertex(i, vertices), i)
    }
}

/// Triangle `t` of a cylinder whose mesh holds the `vertices` vertices of the bottom ring, then
/// the `vertices` vertices of the top ring, then the centre of the bottom (index
/// `2 * vertices`) and the centre of the top (index `2 * vertices + 1`).
///
/// In three runs, for each ring position `i` with `p` the position before it: a bottom
/// triangle (bottom centre, `i`, `p`); a top triangle (top centre, `vertices + p`,
/// `vertices + i`); and two side triangles (`vertices + i`, `vertices + p`, `i`) and
/// (`vertices + p`, `p`, `i`).
pub open spec fn cylinder_triangle(vertices: int, t: int) -> (int, int, int) {
    if t < vertices {
        (2 * vertices, t, previous_vertex(t, vertices))
    } else if t < 2 * vertices {
        let i = t - vertices;
        (2 * vertices + 1, vertices + previous_vertex(i, vertices), vertices + i)
    } else {
        let i = (t - 2 * vertices) / 2;
        let p = previous_vertex(i, vertices);
        if (t - 2 * vertices) % 2 == 0 {
            (vertices + i, vertices + p, i)
        } else {
            (vertices + p, p, i)
        }
    }
}

/// Whether some triangle of the cone goes from `a` straight to `b`.
pub open spec fn cone_has_edge(vertices: int, a: int, b: int) -> bool {
    exists|u: int| 0 <= u < 2 * vertices && #[trigger] has_directed_edge(cone_triangle(vertices, u), a, b)
}

/// Whether some triangle of the cylinder goes from `a` straight to `b`.
pub open spec fn cylinder_has_edge(vertices: int, a: int, b: int) -> bool {
    exists|u: int|
        0 <= u < 4 * vertices && #[trigger] has_directed_edge(cylinder_triangle(vertices, u), a, b)
}

/// Triangle `t` of the cone is proper, and each of its edges is walked the other way by some
/// triangle of the cone.
pub open spec fn cone_triangle_closed(vertices: int, t: int) -> bool {
    let tri = cone_triangle(vertices, t);
    &&& proper_triangle(tri, vertices + 2)
    &&& cone_has_edge(vertices, tri.1, tri.0)
    &&& cone_has_edge(vertices, tri.2, tri.1)
    &&& cone_has_edge(vertices, tri.0, tri.2)
}

/// Triangle `t` of the cylinder is proper, and each of its edges is walked the other way by
/// some triangle of the cylinder.
pub open spec fn cylinder_triangle_closed(vertices: int, t: int) -> bool {
    let tri = cylinder_triangle(vertices, t);
    &&& proper_triangle(tri, 2 * vertices + 2)
    &&& cylinder_has_edge(vertices, tri.1, tri.0)
    &&& cylinder_has_edge(vertices, tri.2, tri.1)
    &&& cylinder_has_edge(vertices, tri.0, tri.2)
}

/// Pushing three indices onto a list of `count` whole triangles keeps those triangles and adds
/// one made of the three indices.
proof fn lemma_push_triangle(s: Seq<u32>, count: int, a: u32, b: u32, c: u32)
    requires
        0 <= count,
        s.len() == 3 * count,
    ensures
        forall|t: int|
            0 <= t < count ==> #[trigger] triangle_at(s.push(a).push(b).push(c), t) == triangle_at(
                s,
                t,
            ),
        triangle_at(s.push(a).push(b).push(c), count) == (a as int, b as int, c as int),
{
    let s3 = s.push(a).push(b).push(c);
    assert forall|t: int| 0 <= t < count implies #[trigger] triangle_at(s3, t) == triangle_at(s, t) by {
        assert(3 * t + 2 < s.len());
    }
}

proof fn lemma_ring_neighbours(i: int, vertices: int)
    requires
        2 < vertices,
        0 <= i < vertices,
    ensures
        0 <= previous_vertex(i, vertices) < vertices,
        0 <= next_vertex(i, vertices) < vertices,
        previous_vertex(i, vertices) != i,
        previous_vertex(next_vertex(i, vertices), vertices) == i,
{
}

proof fn lemma_cylinder_side_triangles(vertices: int, i: int)
    requires
        2 < vertices,
        0 <= i < vertices,
    ensures
        cylinder_triangle(vertices, 2 * vertices + 2 * i) == (
            vertices + i,
            vertices + previous_vertex(i, vertices),
            i,
        ),
        cylinder_triangle(vertices, 2 * vertices + 2 * i + 1) == (
            vertices + previous_vertex(i, vertices),
            previous_vertex(i, vertices),
            i,
        ),
{
    assert((2 * i) / 2 == i && (2 * i) % 2 == 0);
    assert((2 * i + 1) / 2 == i && (2 * i + 1) % 2 == 1);
}

/// Whether no two different triangles of the cone walk the same edge in the same direction.
pub open spec fn cone_edges_walked_once(vertices: int) -> bool {
    forall|t1: int, t2: int, a: int, b: int|
        0 <= t1 < 2 * vertices && 0 <= t2 < 2 * vertices
            && #[trigger] has_directed_edge(cone_triangle(vertices, t1), a, b)
            && #[trigger] has_directed_edge(cone_triangle(vertices, t2), a, b) ==> t1 == t2
}

/// Whether no two different triangles of the cylinder walk the same edge in the same direction.
pub open spec fn cylinder_edges_walked_once(vertices: int) -> bool {
    forall|t1: int, t2: int, a: int, b: int|
        0 <= t1 < 4 * vertices && 0 <= t2 < 4 * vertices
            && #[trigger] has_directed_edge(cylinder_triangle(vertices, t1), a, b)
            && #[trigger] has_directed_edge(cylinder_triangle(vertices, t2), a, b) ==> t1 == t2
}

/// Splits a cylinder triangle position into its run (bottom, top, first side, second side) and
/// its ring position.
proof fn lemma_cylinder_position(vertices: int, t: int) -> (run_and_ring: (int, int))
    requires
        2 < vertices,
        0 <= t < 4 * vertices,
    ensures
        0 <= run_and_ring.0 < 4,
        0 <= run_and_ring.1 < vertices,
        run_and_ring.0 == 0 ==> t == run_and_ring.1,
        run_and_ring.0 == 1 ==> t == vertices + run_and_ring.1,
        run_and_ring.0 == 2 ==> t == 2 * vertices + 2 * run_and_ring.1,
        run_and_ring.0 == 3 ==> t == 2 * vertices + 2 * run_and_ring.1 + 1,
{
    if t < vertices {
        (0, t)
    } else if t < 2 * vertices {
        (1, t - vertices)
    } else {
        let i = (t - 2 * vertices) / 2;
        if (t - 2 * vertices) % 2 == 0 {
            (2, i)
        } else {
            (3, i)
        }
    }
}

proof fn lemma_ring_distinct(i: int, j: int, vertices: int)
    requires
        2 < vertices,
        0 <= i < vertices,
        0 <= j < vertices,
    ensures
        previous_vertex(i, vertices) == previous_vertex(j, vertices) ==> i == j,
        previous_vertex(previous_vertex(i, vertices), vertices) != i,
{
}

/// Every triangle of a cone uses three different vertices of the mesh, and the triangles close
/// the surface with one winding: every edge that one triangle walks is walked the other way by
/// another, and no two triangles walk an edge the same way.
pub proof fn lemma_cone_closed_surface(vertices: int)
    requires
        2 < vertices,
    ensures
        forall|t: int| 0 <= t < 2 * vertices ==> #[trigger] cone_triangle_closed(vertices, t),
        cone_edges_walked_once(vertices),
{
    assert forall|t1: int, t2: int, a: int, b: int|
        0 <= t1 < 2 * vertices && 0 <= t2 < 2 * vertices
            && #[trigger] has_directed_edge(cone_triangle(vertices, t1), a, b)
            && #[trigger] has_directed_edge(cone_triangle(vertices, t2), a, b) implies t1 == t2 by {
        let i1 = if t1 < vertices { t1 } else { t1 - vertices };
        let i2 = if t2 < vertices { t2 } else { t2 - vertices };
        lemma_ring_neighbours(i1, vertices);
        lemma_ring_neighbours(i2, vertices);
        lemma_ring_distinct(i1, i2, vertices);
        lemma_ring_distinct(i2, i1, vertices);
    }
    assert forall|t: int| 0 <= t < 2 * vertices implies #[trigger] cone_triangle_closed(vertices, t) by {
        let v = vertices;
        if t < v {
            let i = t;
            let p = previous_vertex(i, v);
            lemma_ring_neighbours(i, v);
            lemma_ring_neighbours(p, v);
            assert(has_directed_edge(cone_triangle(v, next_vertex(i, v)), i, v));
            assert(has_directed_edge(cone_triangle(v, v + i), p, i));
            assert(has_directed_edge(cone_triangle(v, p), v, p));
        } else {
            let i = t - v;
            let p = previous_vertex(i, v);
            lemma_ring_neighbours(i, v);
            lemma_ring_neighbours(p, v);
            assert(has_directed_edge(cone_triangle(v, v + p), p, v + 1));
            assert(has_directed_edge(cone_triangle(v, i), i, p));
            assert(has_directed_edge(cone_triangle(v, v + next_vertex(i, v)), v + 1, i));
        }
    }
}

/// Every triangle of a cylinder uses three different vertices of the mesh, and the triangles
/// close the surface with one winding: every edge that one triangle walks is walked the other
/// way by another, and no two triangles walk an edge the same way.
pub proof fn lemma_cylinder_closed_surface(vertices: int)
    requires
        2 < vertices,
    ensures
        forall|t: int|
            0 <= t < 4 * vertices ==> #[trigger] cylinder_triangle_closed(vertices, t),
        cylinder_edges_walked_once(vertices),
{
    assert forall|t1: int, t2: int, a: int, b: int|
        0 <= t1 < 4 * vertices && 0 <= t2 < 4 * vertices
            && #[trigger] has_directed_edge(cylinder_triangle(vertices, t1), a, b)
            && #[trigger] has_directed_edge(cylinder_triangle(vertices, t2), a, b) implies t1 == t2 by {
        let (r1, i1) = lemma_cylinder_position(vertices, t1);
        let (r2, i2) = lemma_cylinder_position(vertices, t2);
        lemma_ring_neighbours(i1, vertices);
        lemma_ring_neighbours(i2, vertices);
        lemma_ring_distinct(i1, i2, vertices);
        lemma_ring_distinct(i2, i1, vertices);
        lemma_cylinder_side_triangles(vertices, i1);
        lemma_cylinder_side_triangles(vertices, i2);
    }
    assert forall|t: int| 0 <= t < 4 * vertices implies #[trigger] cylinder_triangle_closed(vertices, t) by {
        let v = vertices;
        if t < v {
            let i = t;
            let p = previous_vertex(i, v);
            lemma_ring_neighbours(i, v);
            lemma_ring_neighbours(p, v);
            lemma_cylinder_side_triangles(v, i);
            assert(has_directed_edge(cylinder_triangle(v, next_vertex(i, v)), i, 2 * v));
            assert(has_directed_edge(cylinder_triangle(v, 2 * v + 2 * i + 1), p, i));
            assert(has_directed_edge(cylinder_triangle(v, p), 2 * v, p));
        } else if t < 2 * v {
            let i = t - v;
            let p = previous_vertex(i, v);
            lemma_ring_neighbours(i, v);
            lemma_ring_neighbours(p, v);
            lemma_cylinder_side_triangles(v, i);
            assert(has_directed_edge(cylinder_triangle(v, v + p), v + p, 2 * v + 1));
            assert(has_directed_edge(cylinder_triangle(v, 2 * v + 2 * i), v + i, v + p));
            assert(has_directed_edge(cylinder_triangle(v, v + next_vertex(i, v)), 2 * v + 1, v + i));
        } else {
            let i = (t - 2 * v) / 2;
            let p = previous_vertex(i, v);
            let n = next_vertex(i, v);
            lemma_ring_neighbours(i, v);
            lemma_ring_neighbours(p, v);
            lemma_cylinder_side_triangles(v, i);
            lemma_cylinder_side_triangles(v, p);
            lemma_cylinder_side_triangles(v, n);
            if (t - 2 * v) % 2 == 0 {
                assert(t == 2 * v + 2 * i);
                assert(has_directed_edge(cylinder_triangle(v, v + i), v + p, v + i));
                assert(has_directed_edge(cylinder_triangle(v, 2 * v + 2 * i + 1), i, v + p));
                assert(has_directed_edge(cylinder_triangle(v, 2 * v + 2 * n + 1), v + i, i));
            } else {
                assert(t == 2 * v + 2 * i + 1);
                assert(has_directed_edge(cylinder_triangle(v, 2 * v + 2 * p), p, v + p));
                assert(has_directed_edge(cylinder_triangle(v, i), i, p));
                assert(has_directed_edge(cylinder_triangle(v, 2 * v + 2 * i), v + p, i));
            }
        }
    }
}

/// The triangle list of a cone with `vertices` base vertices, triangle by triangle as
/// `cone_triangle` lays it out. Every index names one of the `vertices + 2` vertices.
pub fn cone_indices(vertices: u32) -> (indices: Vec<u32>)
    requires
        2 < vertices,
        2 * vertices <= u32::MAX,
        6 * vertices <= usize::MAX,
    ensures
        indices.len() == 6 * vertices,
        forall|t: int|
            0 <= t < 2 * vertices ==> #[trigger] triangle_at(indices@, t) == cone_triangle(
                vertices as int,
                t,
            ),
        forall|k: int| 0 <= k < indices.len() ==> #[trigger] indices@[k] < vertices + 2,
{
    let origin_index = vertices;
    let tip_index = vertices + 1;
    let mut indices: Vec<u32> = Vec::new();
    let mut i: u32 = 0;
    while i < vertices
        invariant
            2 < vertices,
            2 * vertices <= u32::MAX,
            origin_index == vertices,
            tip_index == vertices + 1,
            i <= vertices,
            indices.len() == 3 * i,
            forall|t: int|
                0 <= t < i ==> #[trigger] triangle_at(indices@, t) == cone_triangle(
                    vertices as int,
                    t,
                ),
        decreases vertices - i,
    {
        let ghost before = indices@;
        let previous = if i == 0 { vertices - 1 } else { i - 1 };
        indices.push(origin_index);
        indices.push(i);
        indices.push(previous);
        proof {
            lemma_push_triangle(before, i as int, origin_index, i, previous);
        }
        i += 1;
    }
    let mut i: u32 = 0;
    while i < vertices
        invariant
            2 < vertices,
            2 * vertices <= u32::MAX,
            origin_index == vertices,
            tip_index == vertices + 1,
            i <= vertices,
            indices.len() == 3 * vertices + 3 * i,
            forall|t: int|
                0 <= t < vertices + i ==> #[trigger] triangle_at(indices@, t) == cone_triangle(
                    vertices as int,
                    t,
                ),
        decreases vertices - i,
    {
        let ghost before = indices@;
        let previous = if i == 0 { vertices - 1 } else { i - 1 };
        indices.push(tip_index);
        indices.push(previous);
        indices.push(i);
        proof {
            lemma_push_triangle(before, vertices + i, tip_index, previous, i);
        }
        i += 1;
    }
    assert forall|k: int| 0 <= k < indices.len() implies #[trigger] indices@[k] < vertices + 2 by {
        let t = k / 3;
        assert(triangle_at(indices@, t) == cone_triangle(vertices as int, t));
        lemma_ring_neighbours(if t < vertices { t } else { t - vertices }, vertices as int);
    }
    indices
}

/// The triangle list of a cylinder with `vertices` vertices on each ring, triangle by triangle
/// as `cylinder_triangle` lays it out. Every index names one of the `2 * vertices + 2`
/// vertices.
pub fn cylinder_indices(vertices: u32) -> (indices: Vec<u32>)
    requires
        2 < vertices,
        4 * vertices <= u32::MAX,
        12 * vertices <= usize::MAX,
    ensures
        indices.len() == 12 * vertices,
        forall|t: int|
            0 <= t < 4 * vertices ==> #[trigger] triangle_at(indices@, t) == cylinder_triangle(
                vertices as int,
                t,
            ),
        forall|k: int| 0 <= k < indices.len() ==> #[trigger] indices@[k] < 2 * vertices + 2,
{
    let bottom_center_index = vertices + vertices;
    let top_center_index = vertices + vertices + 1;
    let mut indices: Vec<u32> = Vec::new();
    let mut i: u32 = 0;
    while i < vertices
        invariant
            2 < vertices,
            4 * vertices <= u32::MAX,
            bottom_center_index == 2 * vertices,
            top_center_index == 2 * vertices + 1,
            i <= vertices,
            indices.len() == 3 * i,
            forall|t: int|
                0 <= t < i ==> #[trigger] triangle_at(indices@, t) == cylinder_triangle(
                    vertices as int,
                    t,
                ),
        decreases vertices - i,
    {
        let ghost before = indices@;
        let previous = if i == 0 { vertices - 1 } else { i - 1 };
        indices.push(bottom_center_index);
        indices.push(i);
        indices.push(previous);
        proof {
            lemma_push_triangle(before, i as int, bottom_center_index, i, previous);
        }
        i += 1;
    }
    let mut i: u32 = 0;
    while i < vertices
        invariant
            2 < vertices,
            4 * vertices <= u32::MAX,
            bottom_center_index == 2 * vertices,
            top_center_index == 2 * vertices + 1,
            i <= vertices,
            indices.len() == 3 * vertices + 3 * i,
            forall|t: int|
                0 <= t < vertices + i ==> #[trigger] triangle_at(indices@, t)
                    == cylinder_triangle(vertices as int, t),
        decreases vertices - i,
    {
        let ghost before = indices@;
        let previous = if i == 0 { vertices - 1 } else { i - 1 };
        indices.push(top_center_index);
        indices.push(vertices + previous);
        indices.push(vertices + i);
        proof {
            lemma_push_triangle(before, vertices + i, top_center_index, (vertices + previous) as u32, (vertices + i) as u32);
        }
        i += 1;
    }
    let mut i: u32 = 0;
    while i < vertices
        invariant
            2 < vertices,
            4 * vertices <= u32::MAX,
            bottom_center_index == 2 * vertices,
            top_center_index == 2 * vertices + 1,
            i <= vertices,
            indices.len() == 6 * vertices + 6 * i,
            forall|t: int|
                0 <= t < 2 * vertices + 2 * i ==> #[trigger] triangle_at(indices@, t)
                    == cylinder_triangle(vertices as int, t),
        decreases vertices - i,
    {
        let ghost before = indices@;
        let previous = if i == 0 { vertices - 1 } else { i - 1 };
        indices.push(vertices + i);
        indices.push(vertices + previous);
        indices.push(i);
        let ghost middle = indices@;
        proof {
            lemma_push_triangle(before, 2 * vertices + 2 * i, (vertices + i) as u32, (vertices + previous) as u32, i);
        }
        indices.push(vertices + previous);
        indices.push(previous);
        indices.push(i);
        proof {
            lemma_push_triangle(middle, 2 * vertices + 2 * i + 1, (vertices + previous) as u32, previous, i);
            lemma_cylinder_side_triangles(vertices as int, i as int);
        }
        i += 1;
    }
    assert forall|k: int| 0 <= k < indices.len() implies #[trigger] indices@[k] < 2 * vertices + 2 by {
        let t = k / 3;
        assert(triangle_at(indices@, t) == cylinder_triangle(vertices as int, t));
        if t < 2 * vertices {
            lemma_ring_neighbours(if t < vertices { t } else { t - vertices }, vertices as int);
        } else {
            lemma_ring_neighbours((t - 2 * vertices) / 2, vertices as int);
        }
    }
    indices
}

} // verus!
