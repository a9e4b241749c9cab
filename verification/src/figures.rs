//! Geodesic meshes: the icosahedron and its recursive subdivision into
//! a sphere, with shared-vertex deduplication at split edges.

use vstd::prelude::*;

use crate::coords::{cartesian_to_spherical, Point3D};
use crate::fx::{fx_div, fx_mul, spec_fx_add, spec_fx_div, spec_fx_mul};
use crate::scene::{spec_elevation_upto, ElevationFunction};

verus! {

/// Half the golden ratio's projection of the icosahedron edge, in fixed
/// point: the larger coordinate of a unit icosahedron vertex.
pub const FX_ICO_A: i64 = 891972;

/// The smaller coordinate of a unit icosahedron vertex, in fixed point.
pub const FX_ICO_B: i64 = 551269;

/// A triple of vertex indices naming one triangle.
pub type Indices3D = (usize, usize, usize);

/// Powers of four.
pub open spec fn spec_pow4(p: int) -> int
    decreases p,
{
    if p <= 0 {
        1
    } else {
        4 * spec_pow4(p - 1)
    }
}

/// Powers of four are positive.
proof fn lemma_pow4_pos(p: int)
    ensures
        spec_pow4(p) >= 1,
    decreases p,
{
    if p > 0 {
        lemma_pow4_pos(p - 1);
    }
}

/// Powers of four are monotone in the exponent.
proof fn lemma_pow4_mono(p: int, q: int)
    requires
        p <= q,
    ensures
        spec_pow4(p) <= spec_pow4(q),
    decreases q - p,
{
    if p < q {
        lemma_pow4_mono(p, q - 1);
        lemma_pow4_pos(q - 1);
    }
}

/// Powers of four up to the supported subdivision depth stay small.
proof fn lemma_pow4_bound(p: int)
    requires
        0 <= p <= 12,
    ensures
        1 <= spec_pow4(p) <= 16777216,
{
    lemma_pow4_pos(p);
    lemma_pow4_mono(p, 12);
    assert(spec_pow4(12) == 16777216) by {
        reveal_with_fuel(spec_pow4, 14);
    }
}

/// A mesh: vertices and triangles over them.
#[derive(Clone, Debug)]
pub struct Polyhedron {
    pub vertices: Vec<Point3D>,
    pub triangles: Vec<Indices3D>,
}

impl Polyhedron {
    /// Pack a vertex list and a triangle list.
    pub fn new(vertices: Vec<Point3D>, triangles: Vec<Indices3D>) -> (r: Polyhedron)
        ensures
            r.vertices == vertices,
            r.triangles == triangles,
    {
        Polyhedron { vertices, triangles }
    }

    /// Pack a mesh from plain coordinate triples.
    pub fn new_from_tuples(vertices: Vec<(i64, i64, i64)>, triangles: Vec<Indices3D>) -> (r:
        Polyhedron)
        ensures
            r.vertices@.len() == vertices@.len(),
            forall|i: int|
                0 <= i < vertices@.len() ==> (#[trigger] r.vertices@[i]) == (Point3D {
                    x: vertices@[i].0,
                    y: vertices@[i].1,
                    z: vertices@[i].2,
                }),
            r.triangles == triangles,
    {
        let mut new_vertices: Vec<Point3D> = Vec::new();
        let mut i: usize = 0;
        while i < vertices.len()
            invariant
                0 <= i <= vertices@.len(),
                new_vertices@.len() == i,
                forall|j: int|
                    0 <= j < i ==> (#[trigger] new_vertices@[j]) == (Point3D {
                        x: vertices@[j].0,
                        y: vertices@[j].1,
                        z: vertices@[j].2,
                    }),
            decreases vertices@.len() - i,
        {
            let t = vertices[i];
            new_vertices.push(Point3D::new(t.0, t.1, t.2));
            i = i + 1;
        }
        Polyhedron::new(new_vertices, triangles)
    }

    /// The vertex list.
    pub fn get_vertices(&self) -> (r: &Vec<Point3D>)
        ensures
            r == &self.vertices,
    {
        &self.vertices
    }

    /// The triangle list.
    pub fn get_triangles(&self) -> (r: &Vec<Indices3D>)
        ensures
            r == &self.triangles,
    {
        &self.triangles
    }

    /// What rescaling one vertex through an elevation field returns:
    /// the vertex stretched so that its length becomes the elevation at
    /// its angular position; a zero-length vertex stays unchanged.
    pub open spec fn spec_rescaled_vertex(
        v: Point3D,
        radius: int,
        terrain: Seq<crate::scene::TerrainData>,
    ) -> Point3D {
        let s = crate::coords::spec_cartesian_to_spherical(v.x as int, v.y as int, v.z as int);
        if s.0 == 0 {
            v
        } else {
            let e = spec_elevation_upto(radius, terrain, s.1, s.2, terrain.len() as int);
            let f = spec_fx_div(e, s.0);
            Point3D {
                x: spec_fx_mul(v.x as int, f) as i64,
                y: spec_fx_mul(v.y as int, f) as i64,
                z: spec_fx_mul(v.z as int, f) as i64,
            }
        }
    }

    /// Reproject every vertex to the elevation field's value at the
    /// vertex's angular position.  The elevation function is the only
    /// deformation the engine applies, so the reshaping callback is the
    /// field itself rather than an arbitrary closure.
    pub fn rescale(&mut self, elevation: &ElevationFunction)
        ensures
            final(self).triangles == old(self).triangles,
            final(self).vertices@.len() == old(self).vertices@.len(),
            forall|i: int|
                0 <= i < old(self).vertices@.len() ==> (#[trigger] final(self).vertices@[i])
                    == Polyhedron::spec_rescaled_vertex(
                    old(self).vertices@[i],
                    elevation.radius as int,
                    elevation.terrain@,
                ),
    {
        let mut i: usize = 0;
        while i < self.vertices.len()
            invariant
                self.triangles == old(self).triangles,
                self.vertices@.len() == old(self).vertices@.len(),
                0 <= i <= self.vertices@.len(),
                forall|j: int|
                    0 <= j < i ==> (#[trigger] self.vertices@[j])
                        == Polyhedron::spec_rescaled_vertex(
                        old(self).vertices@[j],
                        elevation.radius as int,
                        elevation.terrain@,
                    ),
                forall|j: int|
                    i <= j < self.vertices@.len() ==> (#[trigger] self.vertices@[j]) == old(
                        self,
                    ).vertices@[j],
            decreases self.vertices@.len() - i,
        {
            let v = self.vertices[i];
            let (r, theta, phi) = cartesian_to_spherical(v.x, v.y, v.z);
            if r != 0 {
                let point = crate::coords::Point::new(theta, phi);
                let e = elevation.evaluate(&point);
                let f = fx_div(e, r);
                let nv = Point3D::new(fx_mul(v.x, f), fx_mul(v.y, f), fx_mul(v.z, f));
                self.vertices.set(i, nv);
            }
            i = i + 1;
        }
    }
}

/// The componentwise sum of two vertices.
pub open spec fn spec_point3d_sum(a: Point3D, b: Point3D) -> Point3D {
    Point3D {
        x: spec_fx_add(a.x as int, b.x as int) as i64,
        y: spec_fx_add(a.y as int, b.y as int) as i64,
        z: spec_fx_add(a.z as int, b.z as int) as i64,
    }
}

/// A vertex reprojected to a new length.
pub open spec fn spec_projected(v: Point3D, new_length: int) -> Point3D {
    let e = Point3D::spec_enlongated(v.x as int, v.y as int, v.z as int, new_length);
    Point3D { x: e.0 as i64, y: e.1 as i64, z: e.2 as i64 }
}

/// Whether vertex `i` is the reprojected midpoint of two earlier
/// vertices: the shape every subdivision vertex has.
pub open spec fn spec_is_midpoint_vertex(vs: Seq<Point3D>, i: int, radius: int) -> bool {
    exists|j: int, k: int|
        #![trigger spec_point3d_sum(vs[j], vs[k])]
        0 <= j < i && 0 <= k < i && vs[i] == spec_projected(
            spec_point3d_sum(vs[j], vs[k]),
            radius,
        )
}

/// The vertex coordinates of the unit icosahedron.
pub open spec fn spec_icosahedron_vertices() -> Seq<Point3D> {
    seq![
        Point3D { x: 0, y: FX_ICO_B, z: FX_ICO_A },
        Point3D { x: 0, y: FX_ICO_B, z: ((-FX_ICO_A) as i64) },
        Point3D { x: 0, y: ((-FX_ICO_B) as i64), z: FX_ICO_A },
        Point3D { x: 0, y: ((-FX_ICO_B) as i64), z: ((-FX_ICO_A) as i64) },
        Point3D { x: FX_ICO_A, y: 0, z: FX_ICO_B },
        Point3D { x: FX_ICO_A, y: 0, z: ((-FX_ICO_B) as i64) },
        Point3D { x: ((-FX_ICO_A) as i64), y: 0, z: FX_ICO_B },
        Point3D { x: ((-FX_ICO_A) as i64), y: 0, z: ((-FX_ICO_B) as i64) },
        Point3D { x: FX_ICO_B, y: FX_ICO_A, z: 0 },
        Point3D { x: FX_ICO_B, y: ((-FX_ICO_A) as i64), z: 0 },
        Point3D { x: ((-FX_ICO_B) as i64), y: FX_ICO_A, z: 0 },
        Point3D { x: ((-FX_ICO_B) as i64), y: ((-FX_ICO_A) as i64), z: 0 },
    ]
}

/// The triangles of the icosahedron.
pub open spec fn spec_icosahedron_triangles() -> Seq<Indices3D> {
    seq![
        (0usize, 2usize, 4usize),
        (0usize, 2usize, 6usize),
        (1usize, 3usize, 5usize),
        (1usize, 3usize, 7usize),
        (4usize, 5usize, 8usize),
        (4usize, 5usize, 9usize),
        (6usize, 7usize, 10usize),
        (6usize, 7usize, 11usize),
        (8usize, 10usize, 0usize),
        (8usize, 10usize, 1usize),
        (9usize, 11usize, 2usize),
        (9usize, 11usize, 3usize),
        (4usize, 8usize, 0usize),
        (5usize, 8usize, 1usize),
        (4usize, 9usize, 2usize),
        (5usize, 9usize, 3usize),
        (6usize, 10usize, 0usize),
        (7usize, 10usize, 1usize),
        (6usize, 11usize, 2usize),
        (7usize, 11usize, 3usize),
    ]
}

/// The fixed twelve-vertex, twenty-triangle icosahedron, all vertices
/// equidistant from the origin.
pub fn icosahedron() -> (r: Polyhedron)
    ensures
        r.vertices@ == spec_icosahedron_vertices(),
        r.triangles@ == spec_icosahedron_triangles(),
        r.vertices@.len() == 12,
        r.triangles@.len() == 20,
        forall|t: int|
            0 <= t < r.triangles@.len() ==> (#[trigger] r.triangles@[t]).0 < 12
                && r.triangles@[t].1 < 12 && r.triangles@[t].2 < 12,
{
    let z: i64 = 0;
    let a = FX_ICO_A;
    let b = FX_ICO_B;
    let mut vertices: Vec<(i64, i64, i64)> = Vec::new();
    vertices.push((z, b, a));
    vertices.push((z, b, -a));
    vertices.push((z, -b, a));
    vertices.push((z, -b, -a));
    vertices.push((a, z, b));
    vertices.push((a, z, -b));
    vertices.push((-a, z, b));
    vertices.push((-a, z, -b));
    vertices.push((b, a, z));
    vertices.push((b, -a, z));
    vertices.push((-b, a, z));
    vertices.push((-b, -a, z));
    let mut triangles: Vec<Indices3D> = Vec::new();
    triangles.push((0, 2, 4));
    triangles.push((0, 2, 6));
    triangles.push((1, 3, 5));
    triangles.push((1, 3, 7));
    triangles.push((4, 5, 8));
    triangles.push((4, 5, 9));
    triangles.push((6, 7, 10));
    triangles.push((6, 7, 11));
    triangles.push((8, 10, 0));
    triangles.push((8, 10, 1));
    triangles.push((9, 11, 2));
    triangles.push((9, 11, 3));
    triangles.push((4, 8, 0));
    triangles.push((5, 8, 1));
    triangles.push((4, 9, 2));
    triangles.push((5, 9, 3));
    triangles.push((6, 10, 0));
    triangles.push((7, 10, 1));
    triangles.push((6, 11, 2));
    triangles.push((7, 11, 3));
    let r = Polyhedron::new_from_tuples(vertices, triangles);
    proof {
        assert(r.vertices@ =~= spec_icosahedron_vertices());
        assert(r.triangles@ =~= spec_icosahedron_triangles());
    }
    r
}

/// Whether an edge's endpoints are exactly the unordered pair `{u, v}`.
pub open spec fn spec_edge_matches(e: (usize, usize), u: int, v: int) -> bool {
    (e.0 == u && e.1 == v) || (e.0 == v && e.1 == u)
}

/// Whether every edge's endpoints index existing vertices.
pub open spec fn spec_edges_bounded(edges: Seq<(usize, usize)>, n_vertices: int) -> bool {
    forall|j: int|
        0 <= j < edges.len() ==> (#[trigger] edges[j]).0 < n_vertices && edges[j].1 < n_vertices
}

/// Whether triangle `t`'s three edge references name the edges whose
/// endpoints are exactly its three vertex pairs (the first reference
/// opposite the first vertex, and so on).
pub open spec fn spec_triangle_consistent(
    triangles: Seq<Indices3D>,
    edges: Seq<(usize, usize)>,
    tri_edges: Seq<(usize, usize, usize)>,
    t: int,
) -> bool {
    let tri = triangles[t];
    let te = tri_edges[t];
    &&& (te.0 as int) < edges.len()
    &&& (te.1 as int) < edges.len()
    &&& (te.2 as int) < edges.len()
    &&& spec_edge_matches(edges[te.0 as int], tri.1 as int, tri.2 as int)
    &&& spec_edge_matches(edges[te.1 as int], tri.0 as int, tri.2 as int)
    &&& spec_edge_matches(edges[te.2 as int], tri.0 as int, tri.1 as int)
}

/// Whether a triangle list, an edge list and a per-triangle edge
/// reference list describe one mesh.  Two triangles sharing a side
/// share the edge entry, so the midpoint made for that entry is shared
/// too.
pub open spec fn spec_mesh_consistent(
    triangles: Seq<Indices3D>,
    edges: Seq<(usize, usize)>,
    tri_edges: Seq<(usize, usize, usize)>,
) -> bool {
    &&& tri_edges.len() == triangles.len()
    &&& forall|t: int|
        0 <= t < triangles.len() ==> spec_triangle_consistent(triangles, edges, tri_edges, t)
}

/// The edge list of one subdivision pass, by position: first the two
/// halves of each old edge (each ending at that edge's midpoint), then
/// the three inner edges of each old triangle (joining its midpoints).
pub open spec fn spec_split_edge(
    edges: Seq<(usize, usize)>,
    tri_edges: Seq<(usize, usize, usize)>,
    base: int,
    k: int,
) -> (usize, usize) {
    if k < 2 * edges.len() {
        let j = k / 2;
        if k % 2 == 0 {
            (edges[j].0, (base + j) as usize)
        } else {
            (edges[j].1, (base + j) as usize)
        }
    } else {
        let t = (k - 2 * edges.len()) / 3;
        let which = (k - 2 * edges.len()) % 3;
        let te = tri_edges[t];
        if which == 0 {
            ((base + te.0) as usize, (base + te.1) as usize)
        } else if which == 1 {
            ((base + te.0) as usize, (base + te.2) as usize)
        } else {
            ((base + te.1) as usize, (base + te.2) as usize)
        }
    }
}

/// The thirty edges of the icosahedron and, for each of its twenty
/// triangles, the indices of its three edges.
fn icosahedron_topology() -> (r: (Vec<(usize, usize)>, Vec<(usize, usize, usize)>))
    ensures
        r.0@.len() == 30,
        r.1@.len() == 20,
        spec_edges_bounded(r.0@, 12),
        spec_mesh_consistent(spec_icosahedron_triangles(), r.0@, r.1@),
{
    let mut edges: Vec<(usize, usize)> = Vec::new();
    edges.push((2, 4));
    edges.push((0, 4));
    edges.push((0, 2));
    edges.push((2, 6));
    edges.push((0, 6));
    edges.push((3, 5));
    edges.push((1, 5));
    edges.push((1, 3));
    edges.push((3, 7));
    edges.push((1, 7));
    edges.push((5, 8));
    edges.push((4, 8));
    edges.push((4, 5));
    edges.push((5, 9));
    edges.push((4, 9));
    edges.push((7, 10));
    edges.push((6, 10));
    edges.push((6, 7));
    edges.push((7, 11));
    edges.push((6, 11));
    edges.push((0, 10));
    edges.push((0, 8));
    edges.push((8, 10));
    edges.push((1, 10));
    edges.push((1, 8));
    edges.push((2, 11));
    edges.push((2, 9));
    edges.push((9, 11));
    edges.push((3, 11));
    edges.push((3, 9));
    let mut tri_edges: Vec<(usize, usize, usize)> = Vec::new();
    tri_edges.push((0, 1, 2));
    tri_edges.push((3, 4, 2));
    tri_edges.push((5, 6, 7));
    tri_edges.push((8, 9, 7));
    tri_edges.push((10, 11, 12));
    tri_edges.push((13, 14, 12));
    tri_edges.push((15, 16, 17));
    tri_edges.push((18, 19, 17));
    tri_edges.push((20, 21, 22));
    tri_edges.push((23, 24, 22));
    tri_edges.push((25, 26, 27));
    tri_edges.push((28, 29, 27));
    tri_edges.push((21, 1, 11));
    tri_edges.push((24, 6, 10));
    tri_edges.push((26, 0, 14));
    tri_edges.push((29, 5, 13));
    tri_edges.push((20, 4, 16));
    tri_edges.push((23, 9, 15));
    tri_edges.push((25, 3, 19));
    tri_edges.push((28, 8, 18));
    proof {
        assert forall|t: int|
            0 <= t < spec_icosahedron_triangles().len() implies spec_triangle_consistent(
            spec_icosahedron_triangles(),
            edges@,
            tri_edges@,
            t,
        ) by {
            assert(t == 0 || t == 1 || t == 2 || t == 3 || t == 4 || t == 5 || t == 6 || t == 7
                || t == 8 || t == 9 || t == 10 || t == 11 || t == 12 || t == 13 || t == 14
                || t == 15 || t == 16 || t == 17 || t == 18 || t == 19);
        }
    }
    (edges, tri_edges)
}

/// One subdivision pass: a reprojected midpoint per edge, the split
/// edge list, and four subtriangles per triangle, all referencing the
/// shared midpoints by edge index.
#[verifier::loop_isolation(false)]
#[verifier::rlimit(100)]
fn subdivide_pass(
    vertices: &mut Vec<Point3D>,
    triangles: Vec<Indices3D>,
    edges: Vec<(usize, usize)>,
    tri_edges: Vec<(usize, usize, usize)>,
    radius: i64,
) -> (r: (Vec<Indices3D>, Vec<(usize, usize)>, Vec<(usize, usize, usize)>))
    requires
        old(vertices)@.len() >= 12,
        old(vertices)@.len() <= 10 * 16777216 + 2,
        triangles@.len() <= 20 * 16777216,
        edges@.len() <= 30 * 16777216,
        spec_edges_bounded(edges@, old(vertices)@.len() as int),
        spec_mesh_consistent(triangles@, edges@, tri_edges@),
        forall|t: int|
            0 <= t < triangles@.len() ==> (#[trigger] triangles@[t]).0 < old(vertices)@.len()
                && triangles@[t].1 < old(vertices)@.len() && triangles@[t].2 < old(
                vertices,
            )@.len(),
        forall|i: int|
            0 <= i < 12 ==> #[trigger] old(vertices)@[i] == spec_projected(
                spec_icosahedron_vertices()[i],
                radius as int,
            ),
        forall|i: int|
            12 <= i < old(vertices)@.len() ==> spec_is_midpoint_vertex(
                old(vertices)@,
                i,
                radius as int,
            ),
    ensures
        final(vertices)@.len() == old(vertices)@.len() + edges@.len(),
        r.0@.len() == 4 * triangles@.len(),
        r.1@.len() == 2 * edges@.len() + 3 * triangles@.len(),
        spec_edges_bounded(r.1@, final(vertices)@.len() as int),
        spec_mesh_consistent(r.0@, r.1@, r.2@),
        forall|t: int|
            0 <= t < r.0@.len() ==> (#[trigger] r.0@[t]).0 < final(vertices)@.len()
                && r.0@[t].1 < final(vertices)@.len() && r.0@[t].2 < final(vertices)@.len(),
        forall|i: int|
            0 <= i < 12 ==> #[trigger] final(vertices)@[i] == spec_projected(
                spec_icosahedron_vertices()[i],
                radius as int,
            ),
        forall|i: int|
            12 <= i < final(vertices)@.len() ==> spec_is_midpoint_vertex(
                final(vertices)@,
                i,
                radius as int,
            ),
{
        let base = vertices.len();
        let n_edges = edges.len();
        let n_tris = triangles.len();
        let mut j: usize = 0;
        while j < n_edges
            invariant
                0 <= j <= n_edges,
                vertices@.len() == base + j,
                forall|i: int|
                    0 <= i < 12 ==> #[trigger] vertices@[i] == spec_projected(
                        spec_icosahedron_vertices()[i],
                        radius as int,
                    ),
                forall|i: int|
                    12 <= i < vertices@.len() ==> spec_is_midpoint_vertex(
                        vertices@,
                        i,
                        radius as int,
                    ),
            decreases n_edges - j,
        {
            let edge = edges[j];
            let ghost vs = vertices@;
            let summed = vertices[edge.0].plus(&vertices[edge.1]);
            let mid = summed.enlongated(radius);
            proof {
                assert(summed == spec_point3d_sum(vs[edge.0 as int], vs[edge.1 as int]));
                assert(mid == spec_projected(
                    spec_point3d_sum(vs[edge.0 as int], vs[edge.1 as int]),
                    radius as int,
                ));
            }
            vertices.push(mid);
            proof {
                assert forall|i: int|
                    12 <= i < vertices@.len() implies spec_is_midpoint_vertex(
                    vertices@,
                    i,
                    radius as int,
                ) by {
                    if i == vertices@.len() - 1 {
                        let ju = edge.0 as int;
                        let jv = edge.1 as int;
                        assert(vertices@[ju] == vs[ju]);
                        assert(vertices@[jv] == vs[jv]);
                        assert(spec_point3d_sum(vertices@[ju], vertices@[jv])
                            == spec_point3d_sum(vs[ju], vs[jv]));
                        assert(0 <= ju < i && 0 <= jv < i && vertices@[i] == spec_projected(
                            spec_point3d_sum(vertices@[ju], vertices@[jv]),
                            radius as int,
                        ));
                    } else {
                        assert(spec_is_midpoint_vertex(vs, i, radius as int));
                        let (ju, jv) = choose|ju: int, jv: int|
                            #![trigger spec_point3d_sum(vs[ju], vs[jv])]
                            0 <= ju < i && 0 <= jv < i && vs[i] == spec_projected(
                                spec_point3d_sum(vs[ju], vs[jv]),
                                radius as int,
                            );
                        assert(vertices@[ju] == vs[ju]);
                        assert(vertices@[jv] == vs[jv]);
                        assert(vertices@[i] == vs[i]);
                        assert(spec_point3d_sum(vertices@[ju], vertices@[jv])
                            == spec_point3d_sum(vs[ju], vs[jv]));
                        assert(0 <= ju < i && 0 <= jv < i && vertices@[i] == spec_projected(
                            spec_point3d_sum(vertices@[ju], vertices@[jv]),
                            radius as int,
                        ));
                    }
                }
            }
            j = j + 1;
        }
        let mut new_edges: Vec<(usize, usize)> = Vec::new();
        j = 0;
        while j < n_edges
            invariant
                0 <= j <= n_edges,
                new_edges@.len() == 2 * j,
                forall|k: int|
                    0 <= k < new_edges@.len() ==> #[trigger] new_edges@[k] == spec_split_edge(
                        edges@,
                        tri_edges@,
                        base as int,
                        k,
                    ),
            decreases n_edges - j,
        {
            let edge = edges[j];
            new_edges.push((edge.0, base + j));
            new_edges.push((edge.1, base + j));
            proof {
                vstd::arithmetic::div_mod::lemma_fundamental_div_mod_converse_div(
                    2 * (j as int),
                    2,
                    j as int,
                    0,
                );
                vstd::arithmetic::div_mod::lemma_fundamental_div_mod_converse_mod(
                    2 * (j as int),
                    2,
                    j as int,
                    0,
                );
                vstd::arithmetic::div_mod::lemma_fundamental_div_mod_converse_div(
                    2 * (j as int) + 1,
                    2,
                    j as int,
                    1,
                );
                vstd::arithmetic::div_mod::lemma_fundamental_div_mod_converse_mod(
                    2 * (j as int) + 1,
                    2,
                    j as int,
                    1,
                );
            }
            j = j + 1;
        }
        let mut t: usize = 0;
        while t < n_tris
            invariant
                0 <= t <= n_tris,
                new_edges@.len() == 2 * n_edges + 3 * t,
                forall|k: int|
                    0 <= k < new_edges@.len() ==> #[trigger] new_edges@[k] == spec_split_edge(
                        edges@,
                        tri_edges@,
                        base as int,
                        k,
                    ),
            decreases n_tris - t,
        {
            let te = tri_edges[t];
            proof {
                assert(spec_triangle_consistent(triangles@, edges@, tri_edges@, t as int));
            }
            new_edges.push((base + te.0, base + te.1));
            new_edges.push((base + te.0, base + te.2));
            new_edges.push((base + te.1, base + te.2));
            proof {
                vstd::arithmetic::div_mod::lemma_fundamental_div_mod_converse_div(
                    3 * (t as int),
                    3,
                    t as int,
                    0,
                );
                vstd::arithmetic::div_mod::lemma_fundamental_div_mod_converse_mod(
                    3 * (t as int),
                    3,
                    t as int,
                    0,
                );
                vstd::arithmetic::div_mod::lemma_fundamental_div_mod_converse_div(
                    3 * (t as int) + 1,
                    3,
                    t as int,
                    1,
                );
                vstd::arithmetic::div_mod::lemma_fundamental_div_mod_converse_mod(
                    3 * (t as int) + 1,
                    3,
                    t as int,
                    1,
                );
                vstd::arithmetic::div_mod::lemma_fundamental_div_mod_converse_div(
                    3 * (t as int) + 2,
                    3,
                    t as int,
                    2,
                );
                vstd::arithmetic::div_mod::lemma_fundamental_div_mod_converse_mod(
                    3 * (t as int) + 2,
                    3,
                    t as int,
                    2,
                );
            }
            t = t + 1;
        }
        let n_split = new_edges.len();
        let mut new_triangles: Vec<Indices3D> = Vec::new();
        let mut new_tri_edges: Vec<(usize, usize, usize)> = Vec::new();
        t = 0;
        while t < n_tris
            invariant
                0 <= t <= n_tris,
                n_split == new_edges@.len(),
                new_triangles@.len() == 4 * t,
                new_tri_edges@.len() == 4 * t,
                forall|tt: int|
                    0 <= tt < new_triangles@.len() ==> (#[trigger] new_triangles@[tt]).0 < base
                        + n_edges && new_triangles@[tt].1 < base + n_edges
                        && new_triangles@[tt].2 < base + n_edges,
                forall|tt: int|
                    0 <= tt < new_triangles@.len() ==> spec_triangle_consistent(
                        new_triangles@,
                        new_edges@,
                        new_tri_edges@,
                        tt,
                    ),
            decreases n_tris - t,
        {
            let tri = triangles[t];
            let te = tri_edges[t];
            proof {
                assert(spec_triangle_consistent(triangles@, edges@, tri_edges@, t as int));
            }
            let (a, b, c) = tri;
            let (i0, i1, i2) = te;
            let p0 = base + i0;
            let p1 = base + i1;
            let p2 = base + i2;
            let e0 = edges[i0];
            let e1 = edges[i1];
            let e2 = edges[i2];
            let h_a_p1 = if e1.0 == a {
                2 * i1
            } else {
                2 * i1 + 1
            };
            let h_a_p2 = if e2.0 == a {
                2 * i2
            } else {
                2 * i2 + 1
            };
            let h_b_p0 = if e0.0 == b {
                2 * i0
            } else {
                2 * i0 + 1
            };
            let h_b_p2 = if e2.0 == b {
                2 * i2
            } else {
                2 * i2 + 1
            };
            let h_c_p0 = if e0.0 == c {
                2 * i0
            } else {
                2 * i0 + 1
            };
            let h_c_p1 = if e1.0 == c {
                2 * i1
            } else {
                2 * i1 + 1
            };
            let inner0 = 2 * n_edges + 3 * t;
            let inner1 = inner0 + 1;
            let inner2 = inner0 + 2;
            proof {
                vstd::arithmetic::div_mod::lemma_fundamental_div_mod_converse_div(
                    2 * (i0 as int),
                    2,
                    i0 as int,
                    0,
                );
                vstd::arithmetic::div_mod::lemma_fundamental_div_mod_converse_mod(
                    2 * (i0 as int),
                    2,
                    i0 as int,
                    0,
                );
                vstd::arithmetic::div_mod::lemma_fundamental_div_mod_converse_div(
                    2 * (i0 as int) + 1,
                    2,
                    i0 as int,
                    1,
                );
                vstd::arithmetic::div_mod::lemma_fundamental_div_mod_converse_mod(
                    2 * (i0 as int) + 1,
                    2,
                    i0 as int,
                    1,
                );
                vstd::arithmetic::div_mod::lemma_fundamental_div_mod_converse_div(
                    2 * (i1 as int),
                    2,
                    i1 as int,
                    0,
                );
                vstd::arithmetic::div_mod::lemma_fundamental_div_mod_converse_mod(
                    2 * (i1 as int),
                    2,
                    i1 as int,
                    0,
                );
                vstd::arithmetic::div_mod::lemma_fundamental_div_mod_converse_div(
                    2 * (i1 as int) + 1,
                    2,
                    i1 as int,
                    1,
                );
                vstd::arithmetic::div_mod::lemma_fundamental_div_mod_converse_mod(
                    2 * (i1 as int) + 1,
                    2,
                    i1 as int,
                    1,
                );
                vstd::arithmetic::div_mod::lemma_fundamental_div_mod_converse_div(
                    2 * (i2 as int),
                    2,
                    i2 as int,
                    0,
                );
                vstd::arithmetic::div_mod::lemma_fundamental_div_mod_converse_mod(
                    2 * (i2 as int),
                    2,
                    i2 as int,
                    0,
                );
                vstd::arithmetic::div_mod::lemma_fundamental_div_mod_converse_div(
                    2 * (i2 as int) + 1,
                    2,
                    i2 as int,
                    1,
                );
                vstd::arithmetic::div_mod::lemma_fundamental_div_mod_converse_mod(
                    2 * (i2 as int) + 1,
                    2,
                    i2 as int,
                    1,
                );
                vstd::arithmetic::div_mod::lemma_fundamental_div_mod_converse_div(
                    3 * (t as int),
                    3,
                    t as int,
                    0,
                );
                vstd::arithmetic::div_mod::lemma_fundamental_div_mod_converse_mod(
                    3 * (t as int),
                    3,
                    t as int,
                    0,
                );
                vstd::arithmetic::div_mod::lemma_fundamental_div_mod_converse_div(
                    3 * (t as int) + 1,
                    3,
                    t as int,
                    1,
                );
                vstd::arithmetic::div_mod::lemma_fundamental_div_mod_converse_mod(
                    3 * (t as int) + 1,
                    3,
                    t as int,
                    1,
                );
                vstd::arithmetic::div_mod::lemma_fundamental_div_mod_converse_div(
                    3 * (t as int) + 2,
                    3,
                    t as int,
                    2,
                );
                vstd::arithmetic::div_mod::lemma_fundamental_div_mod_converse_mod(
                    3 * (t as int) + 2,
                    3,
                    t as int,
                    2,
                );
                assert(new_edges@[h_a_p1 as int] == ((a, p1 as usize)));
                assert(new_edges@[h_a_p2 as int] == ((a, p2 as usize)));
                assert(new_edges@[h_b_p0 as int] == ((b, p0 as usize)));
                assert(new_edges@[h_b_p2 as int] == ((b, p2 as usize)));
                assert(new_edges@[h_c_p0 as int] == ((c, p0 as usize)));
                assert(new_edges@[h_c_p1 as int] == ((c, p1 as usize)));
                assert(new_edges@[inner0 as int] == ((p0 as usize, p1 as usize)));
                assert(new_edges@[inner1 as int] == ((p0 as usize, p2 as usize)));
                assert(new_edges@[inner2 as int] == ((p1 as usize, p2 as usize)));
            }
            let ghost nt0 = new_triangles@;
            let ghost nte0 = new_tri_edges@;
            new_triangles.push((a, p1, p2));
            new_tri_edges.push((inner2, h_a_p2, h_a_p1));
            new_triangles.push((b, p0, p2));
            new_tri_edges.push((inner1, h_b_p2, h_b_p0));
            new_triangles.push((c, p0, p1));
            new_tri_edges.push((inner0, h_c_p1, h_c_p0));
            new_triangles.push((p0, p1, p2));
            new_tri_edges.push((inner2, inner1, inner0));
            proof {
                let ghost nt = new_triangles@;
                let ghost nte = new_tri_edges@;
                assert(new_edges@.len() == 2 * n_edges + 3 * n_tris);
                assert(spec_edge_matches(new_edges@[inner0 as int], p0 as int, p1 as int));
                assert(spec_edge_matches(new_edges@[inner1 as int], p0 as int, p2 as int));
                assert(spec_edge_matches(new_edges@[inner2 as int], p1 as int, p2 as int));
                assert(spec_edge_matches(new_edges@[h_a_p1 as int], a as int, p1 as int));
                assert(spec_edge_matches(new_edges@[h_a_p2 as int], a as int, p2 as int));
                assert(spec_edge_matches(new_edges@[h_b_p0 as int], b as int, p0 as int));
                assert(spec_edge_matches(new_edges@[h_b_p2 as int], b as int, p2 as int));
                assert(spec_edge_matches(new_edges@[h_c_p0 as int], c as int, p0 as int));
                assert(spec_edge_matches(new_edges@[h_c_p1 as int], c as int, p1 as int));
                assert forall|tt: int|
                    0 <= tt < nt.len() implies spec_triangle_consistent(
                    nt,
                    new_edges@,
                    nte,
                    tt,
                ) by {
                    if tt < nt.len() - 4 {
                        assert(nt[tt] == nt0[tt]);
                        assert(nte[tt] == nte0[tt]);
                        assert(spec_triangle_consistent(nt0, new_edges@, nte0, tt));
                    } else {
                        if tt == nt.len() - 4 {
                            assert(nt[tt] == ((a, p1, p2)));
                            assert(nte[tt] == ((inner2, h_a_p2, h_a_p1)));
                        } else if tt == nt.len() - 3 {
                            assert(nt[tt] == ((b, p0, p2)));
                            assert(nte[tt] == ((inner1, h_b_p2, h_b_p0)));
                        } else if tt == nt.len() - 2 {
                            assert(nt[tt] == ((c, p0, p1)));
                            assert(nte[tt] == ((inner0, h_c_p1, h_c_p0)));
                        } else {
                            assert(nt[tt] == ((p0, p1, p2)));
                            assert(nte[tt] == ((inner2, inner1, inner0)));
                        }
                    }
                }
            }
            t = t + 1;
        }
        proof {
            assert forall|k: int|
                0 <= k < new_edges@.len() implies (#[trigger] new_edges@[k]).0 < base + n_edges
                && new_edges@[k].1 < base + n_edges by {
                if k < 2 * edges@.len() {
                    assert(0 <= k / 2 < edges@.len()) by {
                        vstd::arithmetic::div_mod::lemma_div_pos_is_pos(k, 2);
                        vstd::arithmetic::div_mod::lemma_div_is_ordered(k, 2 * edges@.len() - 1, 2);
                        vstd::arithmetic::div_mod::lemma_fundamental_div_mod_converse_div(
                            2 * (edges@.len() as int) - 1,
                            2,
                            edges@.len() as int - 1,
                            1,
                        );
                    }
                    let jj = k / 2;
                    assert(edges@[jj].0 < base && edges@[jj].1 < base);
                } else {
                    assert(0 <= (k - 2 * edges@.len()) / 3 < n_tris) by {
                        vstd::arithmetic::div_mod::lemma_div_pos_is_pos(k - 2 * edges@.len(), 3);
                        vstd::arithmetic::div_mod::lemma_div_is_ordered(
                            k - 2 * edges@.len(),
                            3 * (n_tris as int) - 1,
                            3,
                        );
                        vstd::arithmetic::div_mod::lemma_fundamental_div_mod_converse_div(
                            3 * (n_tris as int) - 1,
                            3,
                            n_tris as int - 1,
                            2,
                        );
                    }
                    let tt = (k - 2 * edges@.len()) / 3;
                    assert(spec_triangle_consistent(triangles@, edges@, tri_edges@, tt));
                }
            }
        }
        (new_triangles, new_edges, new_tri_edges)
    }

/// A geodesic sphere: the icosahedron scaled to the radius, then
/// `quality` subdivision passes.  Each pass makes one reprojected
/// midpoint per edge, shared by the triangles on both sides of the
/// edge, and splits every triangle into four around its three
/// midpoints; so the triangle count is 20 * 4^q and the vertex count is
/// 10 * 4^q + 2.
#[verifier::loop_isolation(false)]
#[verifier::rlimit(100)]
pub fn sphere(quality: u32, radius: i64) -> (r: Polyhedron)
    requires
        quality <= 12,
    ensures
        r.triangles@.len() == 20 * spec_pow4(quality as int),
        r.vertices@.len() == 10 * spec_pow4(quality as int) + 2,
        r.vertices@.len() >= 12,
        forall|t: int|
            0 <= t < r.triangles@.len() ==> (#[trigger] r.triangles@[t]).0 < r.vertices@.len()
                && r.triangles@[t].1 < r.vertices@.len() && r.triangles@[t].2
                < r.vertices@.len(),
        forall|i: int|
            0 <= i < 12 ==> #[trigger] r.vertices@[i] == spec_projected(
                spec_icosahedron_vertices()[i],
                radius as int,
            ),
        forall|i: int|
            12 <= i < r.vertices@.len() ==> spec_is_midpoint_vertex(
                r.vertices@,
                i,
                radius as int,
            ),
{
    let base_figure = icosahedron();
    let mut vertices: Vec<Point3D> = Vec::new();
    let mut vi: usize = 0;
    while vi < base_figure.vertices.len()
        invariant
            base_figure.vertices@ == spec_icosahedron_vertices(),
            base_figure.vertices@.len() == 12,
            0 <= vi <= 12,
            vertices@.len() == vi,
            forall|i: int|
                0 <= i < vi ==> #[trigger] vertices@[i] == spec_projected(
                    spec_icosahedron_vertices()[i],
                    radius as int,
                ),
        decreases base_figure.vertices@.len() - vi,
    {
        let nv = base_figure.vertices[vi].enlongated(radius);
        proof {
            assert(nv == spec_projected(spec_icosahedron_vertices()[vi as int], radius as int));
        }
        vertices.push(nv);
        vi = vi + 1;
    }
    let mut triangles = base_figure.triangles;
    let topology = icosahedron_topology();
    let mut edges = topology.0;
    let mut tri_edges = topology.1;
    let mut pass: u32 = 0;
    while pass < quality
        invariant
            quality <= 12,
            0 <= pass <= quality,
            triangles@.len() == 20 * spec_pow4(pass as int),
            edges@.len() == 30 * spec_pow4(pass as int),
            vertices@.len() as int == 10 * spec_pow4(pass as int) + 2,
            spec_edges_bounded(edges@, vertices@.len() as int),
            spec_mesh_consistent(triangles@, edges@, tri_edges@),
            forall|t: int|
                0 <= t < triangles@.len() ==> (#[trigger] triangles@[t]).0 < vertices@.len()
                    && triangles@[t].1 < vertices@.len() && triangles@[t].2 < vertices@.len(),
            forall|i: int|
                0 <= i < 12 ==> #[trigger] vertices@[i] == spec_projected(
                    spec_icosahedron_vertices()[i],
                    radius as int,
                ),
            forall|i: int|
                12 <= i < vertices@.len() ==> spec_is_midpoint_vertex(
                    vertices@,
                    i,
                    radius as int,
                ),
        decreases quality - pass,
    {
        proof {
            lemma_pow4_bound(pass as int);
            lemma_pow4_bound(pass as int + 1);
        }
        let split = subdivide_pass(&mut vertices, triangles, edges, tri_edges, radius);
        triangles = split.0;
        edges = split.1;
        tri_edges = split.2;
        pass = pass + 1;
    }
    proof {
        lemma_pow4_pos(quality as int);
    }
    Polyhedron::new(vertices, triangles)
}

} // verus!
