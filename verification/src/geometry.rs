//! The four-pointed star: its parameters and the triangles generated from them.
//!
//! The star is a fan of sixteen facets around an apex raised above the centre.
//! Each quadrant holds four of them, between a long spike on an axis, a canyon,
//! the short spike on the diagonal, the other canyon and the next long spike.
//! Every facet is emitted as three vertices of its own that share the facet's
//! normal, so that each facet is shaded flat.

use vstd::prelude::*;
use crate::vector::{cross, cross_product, difference, sub_v, within, Point, Vector3, COORD_LIMIT};

verus! {

/// Largest coordinate magnitude for which [`calculate_normal`] stays within 64 bits.
pub const NORMAL_LIMIT: i64 = 1_000_000_000;

/// A full colour channel: channels are thousandths, from 0 to `CHANNEL_FULL`.
pub const CHANNEL_FULL: u16 = 1000;

/// Vertices in one facet.
pub const FACET_VERTICES: usize = 3;

/// Vertices in one quadrant of the star: four facets.
pub const QUARTER_VERTICES: usize = 12;

/// Vertices in the whole star: sixteen facets.
pub const STAR_VERTICES: usize = 48;

/// A colour with red, green, blue and opacity in thousandths.
#[derive(Clone, Copy, Debug, PartialEq, Eq, Structural)]
pub struct Color {
    pub red: u16,
    pub green: u16,
    pub blue: u16,
    pub alpha: u16,
}

impl Color {
    /// Every channel lies between nothing and full.
    pub open spec fn wf(self) -> bool {
        &&& self.red <= CHANNEL_FULL
        &&& self.green <= CHANNEL_FULL
        &&& self.blue <= CHANNEL_FULL
        &&& self.alpha <= CHANNEL_FULL
    }
}

/// The diffuse colour of every vertex of the star.
pub open spec fn star_diffuse() -> Color {
    Color { red: 900, green: 900, blue: 0, alpha: 1000 }
}

/// A vertex as the generator emits it.  `normal` gives the direction of the
/// facet's normal, not yet scaled to unit length: its length is a square root,
/// which the grid cannot hold.
#[derive(Clone, Copy, Debug, PartialEq, Eq, Structural)]
pub struct Vertex {
    pub position: Vector3,
    pub normal: Vector3,
    pub diffuse_color: Color,
}

/// What a [`Vertex`] stands for.
pub struct VertexModel {
    pub position: Point,
    pub normal: Point,
    pub diffuse_color: Color,
}

impl View for Vertex {
    type V = VertexModel;

    open spec fn view(&self) -> VertexModel {
        VertexModel {
            position: self.position@,
            normal: self.normal@,
            diffuse_color: self.diffuse_color,
        }
    }
}

/// The models of a run of vertices, in order.
pub open spec fn models(vertices: Seq<Vertex>) -> Seq<VertexModel> {
    Seq::new(vertices.len(), |i: int| vertices[i]@)
}

impl Vertex {
    /// The vertex with the given position, normal direction and colour.
    pub fn new(pos: Vector3, norm: Vector3, diffuse: Color) -> (v: Vertex)
        ensures
            v == (Vertex { position: pos, normal: norm, diffuse_color: diffuse }),
    {
        Vertex { position: pos, normal: norm, diffuse_color: diffuse }
    }
}

/// The parameters of a star.
#[derive(Clone, Copy, Debug, PartialEq, Eq, Structural)]
pub struct Geometry {
    /// The middle of the star, in the base plane.
    pub center: Vector3,
    /// From the centre to the canyon beside the first long spike of the
    /// top-right quadrant.  Only `x` and `y` count.
    pub left_canyon_offset: Vector3,
    /// From the centre to the canyon beside the second long spike of the
    /// top-right quadrant.  Only `x` and `y` count.
    pub right_canyon_offset: Vector3,
    /// From the centre to the tip of a long spike, along an axis.
    pub long_spike_length: i64,
    /// Each coordinate of the tip of a short spike, on a diagonal.
    pub short_spike_length: i64,
    /// Twice the height of the apex above the base plane.
    pub thickness: i64,
}

impl Geometry {
    /// The lengths and the thickness are positive, and nothing exceeds
    /// [`COORD_LIMIT`].
    pub open spec fn wf(self) -> bool {
        &&& within(self.center@, COORD_LIMIT as int)
        &&& within(self.left_canyon_offset@, COORD_LIMIT as int)
        &&& within(self.right_canyon_offset@, COORD_LIMIT as int)
        &&& 0 < self.long_spike_length <= COORD_LIMIT
        &&& 0 < self.short_spike_length <= COORD_LIMIT
        &&& 0 < self.thickness <= COORD_LIMIT
    }

    /// The height of the apex above the base plane: half the thickness,
    /// rounded down to the grid.
    pub open spec fn depth(self) -> int {
        self.thickness as int / 2
    }

    /// Whether the parameters are well formed.
    pub fn is_valid(&self) -> (ok: bool)
        ensures
            ok == self.wf(),
    {
        in_limit(&self.center) && in_limit(&self.left_canyon_offset) && in_limit(
            &self.right_canyon_offset,
        ) && 0 < self.long_spike_length && self.long_spike_length <= COORD_LIMIT && 0
            < self.short_spike_length && self.short_spike_length <= COORD_LIMIT && 0
            < self.thickness && self.thickness <= COORD_LIMIT
    }
}

/// Whether every coordinate of `v` has magnitude at most [`COORD_LIMIT`].
pub fn in_limit(v: &Vector3) -> (ok: bool)
    ensures
        ok == within(v@, COORD_LIMIT as int),
{
    -COORD_LIMIT <= v.x && v.x <= COORD_LIMIT && -COORD_LIMIT <= v.y && v.y <= COORD_LIMIT
        && -COORD_LIMIT <= v.z && v.z <= COORD_LIMIT
}

/// The normal direction of the plane through `v0`, `v1` and `v2`:
/// `(v1 - v0) x (v2 - v0)`.
pub open spec fn plane_normal(v0: Point, v1: Point, v2: Point) -> Point {
    cross_product(difference(v1, v0), difference(v2, v0))
}

/// The point above `center` by `depth`.
pub open spec fn raised(center: Point, depth: int) -> Point {
    Point { x: center.x, y: center.y, z: center.z + depth }
}

/// The point of the base plane that lies `offset.x` and `offset.y` from `center`.
pub open spec fn planar(center: Point, offset: Point) -> Point {
    Point { x: center.x + offset.x, y: center.y + offset.y, z: center.z }
}

/// The three vertices of the facet with corners `v0`, `v1`, `v2`, in that
/// order.  Its normal is taken with the corners in the other sense, `v0`,
/// `v2`, `v1`: the corners of a facet run clockwise when seen from the side
/// to which the normal points.
pub open spec fn facet(v0: Point, v1: Point, v2: Point) -> Seq<VertexModel> {
    let n = plane_normal(v0, v2, v1);
    seq![
        VertexModel { position: v0, normal: n, diffuse_color: star_diffuse() },
        VertexModel { position: v1, normal: n, diffuse_color: star_diffuse() },
        VertexModel { position: v2, normal: n, diffuse_color: star_diffuse() },
    ]
}

/// The twelve vertices of one quadrant: four facets that fan out from the
/// apex, from the left long spike over the left canyon, the short spike and
/// the right canyon to the right long spike.
pub open spec fn quarter_pattern(
    center: Point,
    left_canyon_offset: Point,
    right_canyon_offset: Point,
    left_long_spike: Point,
    right_long_spike: Point,
    short_spike: Point,
    depth: int,
) -> Seq<VertexModel> {
    let c = raised(center, depth);
    let lc = planar(center, left_canyon_offset);
    let rc = planar(center, right_canyon_offset);
    let ss = planar(center, short_spike);
    let ll = planar(center, left_long_spike);
    let rl = planar(center, right_long_spike);
    facet(c, ll, lc) + facet(c, lc, ss) + facet(c, ss, rc) + facet(c, rc, rl)
}

/// The quadrants of the star, in the order in which they are generated.
#[derive(Clone, Copy, Debug, PartialEq, Eq, Structural)]
pub enum Quadrant {
    TopRight,
    BottomRight,
    BottomLeft,
    TopLeft,
}

/// The six vectors from which a quadrant is generated.
pub struct QuarterInput {
    pub left_canyon_offset: Point,
    pub right_canyon_offset: Point,
    pub left_long_spike: Point,
    pub right_long_spike: Point,
    pub short_spike: Point,
}

/// The vectors of quadrant `q`.  Those of the top-right quadrant are the
/// parameters themselves; the others have the sign of `x`, of `y` or of both
/// changed.  Where only one sign changes, left and right change places, so
/// that the facets of every quadrant turn the same way.
pub open spec fn quarter_input(geom: Geometry, q: Quadrant) -> QuarterInput {
    let ls = geom.long_spike_length as int;
    let ss = geom.short_spike_length as int;
    let lco = geom.left_canyon_offset@;
    let rco = geom.right_canyon_offset@;
    match q {
        Quadrant::TopRight => QuarterInput {
            left_canyon_offset: lco,
            right_canyon_offset: rco,
            left_long_spike: Point { x: 0, y: ls, z: 0 },
            right_long_spike: Point { x: ls, y: 0, z: 0 },
            short_spike: Point { x: ss, y: ss, z: 0 },
        },
        Quadrant::BottomRight => QuarterInput {
            left_canyon_offset: Point { x: rco.x, y: -rco.y, z: lco.z },
            right_canyon_offset: Point { x: lco.x, y: -lco.y, z: rco.z },
            left_long_spike: Point { x: ls, y: 0, z: 0 },
            right_long_spike: Point { x: 0, y: -ls, z: 0 },
            short_spike: Point { x: ss, y: -ss, z: 0 },
        },
        Quadrant::BottomLeft => QuarterInput {
            left_canyon_offset: Point { x: -lco.x, y: -lco.y, z: lco.z },
            right_canyon_offset: Point { x: -rco.x, y: -rco.y, z: rco.z },
            left_long_spike: Point { x: 0, y: -ls, z: 0 },
            right_long_spike: Point { x: -ls, y: 0, z: 0 },
            short_spike: Point { x: -ss, y: -ss, z: 0 },
        },
        Quadrant::TopLeft => QuarterInput {
            left_canyon_offset: Point { x: -rco.x, y: rco.y, z: lco.z },
            right_canyon_offset: Point { x: -lco.x, y: lco.y, z: rco.z },
            left_long_spike: Point { x: -ls, y: 0, z: 0 },
            right_long_spike: Point { x: 0, y: ls, z: 0 },
            short_spike: Point { x: -ss, y: ss, z: 0 },
        },
    }
}

/// The twelve vertices of quadrant `q` of the star.
pub open spec fn quarter_vertices(geom: Geometry, q: Quadrant) -> Seq<VertexModel> {
    let input = quarter_input(geom, q);
    quarter_pattern(
        geom.center@,
        input.left_canyon_offset,
        input.right_canyon_offset,
        input.left_long_spike,
        input.right_long_spike,
        input.short_spike,
        geom.depth(),
    )
}

/// The forty-eight vertices of the star: the quadrants top right, bottom
/// right, bottom left and top left, in this order.
pub open spec fn star_vertices(geom: Geometry) -> Seq<VertexModel> {
    quarter_vertices(geom, Quadrant::TopRight) + quarter_vertices(geom, Quadrant::BottomRight)
        + quarter_vertices(geom, Quadrant::BottomLeft) + quarter_vertices(
        geom,
        Quadrant::TopLeft,
    )
}

/// A product is bounded by the product of the bounds of its factors.
pub proof fn lemma_product_bound(a: int, b: int, la: int, lb: int)
    requires
        -la <= a <= la,
        -lb <= b <= lb,
    ensures
        -(la * lb) <= a * b <= la * lb,
{
    assert((la - a) * (lb - b) >= 0) by (nonlinear_arith)
        requires
            la - a >= 0,
            lb - b >= 0,
    ;
    assert((la + a) * (lb + b) >= 0) by (nonlinear_arith)
        requires
            la + a >= 0,
            lb + b >= 0,
    ;
    assert((la - a) * (lb + b) >= 0) by (nonlinear_arith)
        requires
            la - a >= 0,
            lb + b >= 0,
    ;
    assert((la + a) * (lb - b) >= 0) by (nonlinear_arith)
        requires
            la + a >= 0,
            lb - b >= 0,
    ;
    assert((la - a) * (lb - b) == la * lb - la * b - a * lb + a * b) by (nonlinear_arith);
    assert((la + a) * (lb + b) == la * lb + la * b + a * lb + a * b) by (nonlinear_arith);
    assert((la - a) * (lb + b) == la * lb + la * b - a * lb - a * b) by (nonlinear_arith);
    assert((la + a) * (lb - b) == la * lb - la * b + a * lb - a * b) by (nonlinear_arith);
}

/// The cross product of two directions within `limit` stays within
/// `2 * limit * limit`.
pub proof fn lemma_cross_bound(a: Point, b: Point, limit: int)
    requires
        within(a, limit),
        within(b, limit),
    ensures
        within(cross_product(a, b), 2 * (limit * limit)),
        -(limit * limit) <= a.y * b.z <= limit * limit,
        -(limit * limit) <= a.z * b.y <= limit * limit,
        -(limit * limit) <= a.z * b.x <= limit * limit,
        -(limit * limit) <= a.x * b.z <= limit * limit,
        -(limit * limit) <= a.x * b.y <= limit * limit,
        -(limit * limit) <= a.y * b.x <= limit * limit,
{
    lemma_product_bound(a.y, b.z, limit, limit);
    lemma_product_bound(a.z, b.y, limit, limit);
    lemma_product_bound(a.z, b.x, limit, limit);
    lemma_product_bound(a.x, b.z, limit, limit);
    lemma_product_bound(a.x, b.y, limit, limit);
    lemma_product_bound(a.y, b.x, limit, limit);
}

/// The normal direction of the plane through three points:
/// `(v1 - v0) x (v2 - v0)`.  It is not scaled to unit length.
pub fn calculate_normal(v0: &Vector3, v1: &Vector3, v2: &Vector3) -> (n: Vector3)
    requires
        within(v0@, NORMAL_LIMIT as int),
        within(v1@, NORMAL_LIMIT as int),
        within(v2@, NORMAL_LIMIT as int),
    ensures
        n@ == plane_normal(v0@, v1@, v2@),
{
    let e0 = sub_v(*v1, *v0);
    let e1 = sub_v(*v2, *v0);
    proof {
        lemma_cross_bound(e0@, e1@, 2 * NORMAL_LIMIT as int);
    }
    cross(e0, e1)
}

/// The diffuse colour of every vertex of the star.
pub fn diffuse() -> (c: Color)
    ensures
        c == star_diffuse(),
        c.wf(),
{
    Color { red: 900, green: 900, blue: 0, alpha: 1000 }
}

/// Appends the facet with corners `v0`, `v1`, `v2` and normal direction `n`.
fn push_facet(vertices: &mut Vec<Vertex>, v0: Vector3, v1: Vector3, v2: Vector3, n: Vector3)
    requires
        n@ == plane_normal(v0@, v2@, v1@),
    ensures
        final(vertices)@.len() == old(vertices)@.len() + FACET_VERTICES,
        final(vertices)@.subrange(0, old(vertices)@.len() as int) == old(vertices)@,
        models(final(vertices)@) == models(old(vertices)@) + facet(v0@, v1@, v2@),
{
    let c = diffuse();
    vertices.push(Vertex::new(v0, n, c));
    vertices.push(Vertex::new(v1, n, c));
    vertices.push(Vertex::new(v2, n, c));
    assert(vertices@.subrange(0, old(vertices)@.len() as int) =~= old(vertices)@);
    assert(models(vertices@) =~= models(old(vertices)@) + facet(v0@, v1@, v2@));
}

/// Appends one quadrant of a star to `vertices`: the twelve vertices of
/// [`quarter_pattern`], after what `vertices` already holds.
pub fn add_partial_vertices(
    center: Vector3,
    left_canyon_offset: Vector3,
    right_canyon_offset: Vector3,
    left_long_spike: Vector3,
    right_long_spike: Vector3,
    short_spike: Vector3,
    depth: i64,
    vertices: &mut Vec<Vertex>,
)
    requires
        within(center@, COORD_LIMIT as int),
        within(left_canyon_offset@, COORD_LIMIT as int),
        within(right_canyon_offset@, COORD_LIMIT as int),
        within(left_long_spike@, COORD_LIMIT as int),
        within(right_long_spike@, COORD_LIMIT as int),
        within(short_spike@, COORD_LIMIT as int),
        -COORD_LIMIT <= depth <= COORD_LIMIT,
    ensures
        final(vertices)@.len() == old(vertices)@.len() + QUARTER_VERTICES,
        final(vertices)@.subrange(0, old(vertices)@.len() as int) == old(vertices)@,
        models(final(vertices)@) == models(old(vertices)@) + quarter_pattern(
            center@,
            left_canyon_offset@,
            right_canyon_offset@,
            left_long_spike@,
            right_long_spike@,
            short_spike@,
            depth as int,
        ),
{
    let cx = center.x;
    let cy = center.y;
    let cz = center.z;
    let top = cz + depth;
    let c = Vector3::new(cx, cy, top);
    let lc = Vector3::new(cx + left_canyon_offset.x, cy + left_canyon_offset.y, cz);
    let rc = Vector3::new(cx + right_canyon_offset.x, cy + right_canyon_offset.y, cz);
    let ss = Vector3::new(cx + short_spike.x, cy + short_spike.y, cz);
    let ll = Vector3::new(cx + left_long_spike.x, cy + left_long_spike.y, cz);
    let rl = Vector3::new(cx + right_long_spike.x, cy + right_long_spike.y, cz);
    let ghost before = vertices@;

    let n0 = calculate_normal(&c, &lc, &ll);
    push_facet(vertices, c, ll, lc, n0);
    let ghost after0 = vertices@;

    let n1 = calculate_normal(&c, &ss, &lc);
    push_facet(vertices, c, lc, ss, n1);
    let ghost after1 = vertices@;

    let n2 = calculate_normal(&c, &rc, &ss);
    push_facet(vertices, c, ss, rc, n2);
    let ghost after2 = vertices@;

    let n3 = calculate_normal(&c, &rl, &rc);
    push_facet(vertices, c, rc, rl, n3);

    proof {
        let n = before.len() as int;
        assert(after0.subrange(0, n) == before);
        assert(after1.subrange(0, n) =~= after1.subrange(0, n + 3).subrange(0, n));
        assert(after2.subrange(0, n) =~= after2.subrange(0, n + 6).subrange(0, n));
        assert(vertices@.subrange(0, n) =~= vertices@.subrange(0, n + 9).subrange(0, n));
        assert(models(vertices@) =~= models(before) + quarter_pattern(
            center@,
            left_canyon_offset@,
            right_canyon_offset@,
            left_long_spike@,
            right_long_spike@,
            short_spike@,
            depth as int,
        ));
    }
}

/// The vertices of the star with parameters `geom`: sixteen facets of three
/// vertices each, quadrant by quadrant, as [`star_vertices`] lists them.
pub fn generate_vertices(geom: &Geometry) -> (vertices: Vec<Vertex>)
    requires
        geom.wf(),
    ensures
        vertices@.len() == STAR_VERTICES,
        models(vertices@) == star_vertices(*geom),
{
    let c = geom.center;
    let ls = geom.long_spike_length;
    let ss = geom.short_spike_length;
    let lco = geom.left_canyon_offset;
    let rco = geom.right_canyon_offset;
    let depth = geom.thickness / 2;

    let mut vertices: Vec<Vertex> = Vec::new();
    assert(models(vertices@) =~= Seq::<VertexModel>::empty());
    // top right
    add_partial_vertices(
        c,
        lco,
        rco,
        Vector3::new(0, ls, 0),
        Vector3::new(ls, 0, 0),
        Vector3::new(ss, ss, 0),
        depth,
        &mut vertices,
    );
    // bottom right
    add_partial_vertices(
        c,
        Vector3::new(rco.x, -rco.y, lco.z),
        Vector3::new(lco.x, -lco.y, rco.z),
        Vector3::new(ls, 0, 0),
        Vector3::new(0, -ls, 0),
        Vector3::new(ss, -ss, 0),
        depth,
        &mut vertices,
    );
    // bottom left
    add_partial_vertices(
        c,
        Vector3::new(-lco.x, -lco.y, lco.z),
        Vector3::new(-rco.x, -rco.y, rco.z),
        Vector3::new(0, -ls, 0),
        Vector3::new(-ls, 0, 0),
        Vector3::new(-ss, -ss, 0),
        depth,
        &mut vertices,
    );
    // top left
    add_partial_vertices(
        c,
        Vector3::new(-rco.x, rco.y, lco.z),
        Vector3::new(-lco.x, lco.y, rco.z),
        Vector3::new(-ls, 0, 0),
        Vector3::new(0, ls, 0),
        Vector3::new(-ss, ss, 0),
        depth,
        &mut vertices,
    );
    assert(models(vertices@) =~= star_vertices(*geom));
    vertices
}

} // verus!
