//! What holds of every generated star.

use vstd::prelude::*;
use crate::geometry::{
    facet, models, planar, plane_normal, quarter_input, quarter_pattern, quarter_vertices, raised,
    star_diffuse, star_vertices, Geometry, Quadrant, Vertex, VertexModel,
};
use crate::vector::{cross_product, difference, dot_product, within, Point, COORD_LIMIT};

verus! {

/// The index of quadrant `q` in the order of generation.
pub open spec fn quadrant_index(q: Quadrant) -> int {
    match q {
        Quadrant::TopRight => 0,
        Quadrant::BottomRight => 1,
        Quadrant::BottomLeft => 2,
        Quadrant::TopLeft => 3,
    }
}

/// A star has forty-eight vertices, and quadrant `q` fills the twelve places
/// from `12 * quadrant_index(q)` on.
pub proof fn lemma_star_layout(geom: Geometry, q: Quadrant)
    ensures
        star_vertices(geom).len() == 48,
        quarter_vertices(geom, q).len() == 12,
        star_vertices(geom).subrange(12 * quadrant_index(q), 12 * quadrant_index(q) + 12)
            == quarter_vertices(geom, q),
{
    let s = star_vertices(geom);
    let k = quadrant_index(q);
    assert(s.subrange(12 * k, 12 * k + 12) =~= quarter_vertices(geom, q));
}

/// What makes three vertices a flat facet: they carry the same normal and
/// the star's colour, the normal is that of the plane through them, taken
/// with the corners in the sense first, third, second, and it is perpendicular to
/// both edges that leave the first corner.
pub open spec fn is_flat_facet(v0: VertexModel, v1: VertexModel, v2: VertexModel) -> bool {
    &&& v0.normal == plane_normal(v0.position, v2.position, v1.position)
    &&& v1.normal == v0.normal
    &&& v2.normal == v0.normal
    &&& v0.diffuse_color == star_diffuse()
    &&& v1.diffuse_color == star_diffuse()
    &&& v2.diffuse_color == star_diffuse()
    &&& dot_product(v0.normal, difference(v1.position, v0.position)) == 0
    &&& dot_product(v0.normal, difference(v2.position, v0.position)) == 0
}

/// The vertices of a facet with any three corners are a flat facet.
pub proof fn lemma_facet_is_flat(p0: Point, p1: Point, p2: Point)
    ensures
        facet(p0, p1, p2).len() == 3,
        is_flat_facet(facet(p0, p1, p2)[0], facet(p0, p1, p2)[1], facet(p0, p1, p2)[2]),
        facet(p0, p1, p2)[0].position == p0,
        facet(p0, p1, p2)[1].position == p1,
        facet(p0, p1, p2)[2].position == p2,
{
    lemma_cross_is_perpendicular(difference(p2, p0), difference(p1, p0));
}

/// Facet `t` of a quadrant, counted from the left long spike.
pub open spec fn quarter_facet(
    center: Point,
    left_canyon_offset: Point,
    right_canyon_offset: Point,
    left_long_spike: Point,
    right_long_spike: Point,
    short_spike: Point,
    depth: int,
    t: int,
) -> Seq<VertexModel> {
    let c = raised(center, depth);
    let lc = planar(center, left_canyon_offset);
    let rc = planar(center, right_canyon_offset);
    let ss = planar(center, short_spike);
    let ll = planar(center, left_long_spike);
    let rl = planar(center, right_long_spike);
    if t == 0 {
        facet(c, ll, lc)
    } else if t == 1 {
        facet(c, lc, ss)
    } else if t == 2 {
        facet(c, ss, rc)
    } else {
        facet(c, rc, rl)
    }
}

/// A quadrant is its four facets, one after the other.
pub proof fn lemma_quarter_facets(
    center: Point,
    left_canyon_offset: Point,
    right_canyon_offset: Point,
    left_long_spike: Point,
    right_long_spike: Point,
    short_spike: Point,
    depth: int,
    t: int,
)
    requires
        0 <= t < 4,
    ensures
        quarter_pattern(
            center,
            left_canyon_offset,
            right_canyon_offset,
            left_long_spike,
            right_long_spike,
            short_spike,
            depth,
        ).len() == 12,
        quarter_pattern(
            center,
            left_canyon_offset,
            right_canyon_offset,
            left_long_spike,
            right_long_spike,
            short_spike,
            depth,
        ).subrange(3 * t, 3 * t + 3) == quarter_facet(
            center,
            left_canyon_offset,
            right_canyon_offset,
            left_long_spike,
            right_long_spike,
            short_spike,
            depth,
            t,
        ),
{
    let q = quarter_pattern(
        center,
        left_canyon_offset,
        right_canyon_offset,
        left_long_spike,
        right_long_spike,
        short_spike,
        depth,
    );
    let f = quarter_facet(
        center,
        left_canyon_offset,
        right_canyon_offset,
        left_long_spike,
        right_long_spike,
        short_spike,
        depth,
        t,
    );
    assert(q.subrange(3 * t, 3 * t + 3) =~= f);
}

/// The three vertices of every facet of a quadrant are a flat facet.
pub proof fn lemma_quarter_is_flat(geom: Geometry, q: Quadrant, t: int)
    requires
        0 <= t < 4,
    ensures
        quarter_vertices(geom, q).len() == 12,
        is_flat_facet(
            quarter_vertices(geom, q)[3 * t],
            quarter_vertices(geom, q)[3 * t + 1],
            quarter_vertices(geom, q)[3 * t + 2],
        ),
{
    let input = quarter_input(geom, q);
    let c = geom.center@;
    let d = geom.depth();
    lemma_quarter_facets(
        c,
        input.left_canyon_offset,
        input.right_canyon_offset,
        input.left_long_spike,
        input.right_long_spike,
        input.short_spike,
        d,
        t,
    );
    let f = quarter_facet(
        c,
        input.left_canyon_offset,
        input.right_canyon_offset,
        input.left_long_spike,
        input.right_long_spike,
        input.short_spike,
        d,
        t,
    );
    let qv = quarter_vertices(geom, q);
    assert(qv.subrange(3 * t, 3 * t + 3) == f);
    assert(qv[3 * t] == qv.subrange(3 * t, 3 * t + 3)[0]);
    assert(qv[3 * t + 1] == qv.subrange(3 * t, 3 * t + 3)[1]);
    assert(qv[3 * t + 2] == qv.subrange(3 * t, 3 * t + 3)[2]);
    let p0 = raised(c, d);
    let lc = planar(c, input.left_canyon_offset);
    let rc = planar(c, input.right_canyon_offset);
    let ss = planar(c, input.short_spike);
    let ll = planar(c, input.left_long_spike);
    let rl = planar(c, input.right_long_spike);
    if t == 0 {
        lemma_facet_is_flat(p0, ll, lc);
    } else if t == 1 {
        lemma_facet_is_flat(p0, lc, ss);
    } else if t == 2 {
        lemma_facet_is_flat(p0, ss, rc);
    } else {
        lemma_facet_is_flat(p0, rc, rl);
    }
}

/// The three vertices of every facet of a star are a flat facet: each of the
/// sixteen facets is shaded by one normal, perpendicular to it.
pub proof fn lemma_facets_are_flat(geom: Geometry, f: int)
    requires
        0 <= f < 16,
    ensures
        star_vertices(geom).len() == 48,
        is_flat_facet(
            star_vertices(geom)[3 * f],
            star_vertices(geom)[3 * f + 1],
            star_vertices(geom)[3 * f + 2],
        ),
{
    let s = star_vertices(geom);
    let q = if f < 4 {
        Quadrant::TopRight
    } else if f < 8 {
        Quadrant::BottomRight
    } else if f < 12 {
        Quadrant::BottomLeft
    } else {
        Quadrant::TopLeft
    };
    let k = quadrant_index(q);
    let t = f - 4 * k;
    lemma_star_layout(geom, q);
    lemma_quarter_is_flat(geom, q, t);
    let qv = quarter_vertices(geom, q);
    assert(s.subrange(12 * k, 12 * k + 12) == qv);
    assert(s[3 * f] == s.subrange(12 * k, 12 * k + 12)[3 * t]);
    assert(s[3 * f + 1] == s.subrange(12 * k, 12 * k + 12)[3 * t + 1]);
    assert(s[3 * f + 2] == s.subrange(12 * k, 12 * k + 12)[3 * t + 2]);
}

/// A cross product is perpendicular to both of its factors.
pub proof fn lemma_cross_is_perpendicular(a: Point, b: Point)
    ensures
        dot_product(cross_product(a, b), a) == 0,
        dot_product(cross_product(a, b), b) == 0,
{
    assert((a.y * b.z - a.z * b.y) * a.x + (a.z * b.x - a.x * b.z) * a.y + (a.x * b.y - a.y
        * b.x) * a.z == 0) by (nonlinear_arith);
    assert((a.y * b.z - a.z * b.y) * b.x + (a.z * b.x - a.x * b.z) * b.y + (a.x * b.y - a.y
        * b.x) * b.z == 0) by (nonlinear_arith);
}

/// `d` with the sign of `x`, of `y` or of both changed.
pub open spec fn flipped(d: Point, flip_x: bool, flip_y: bool) -> Point {
    Point { x: if flip_x { -d.x } else { d.x }, y: if flip_y { -d.y } else { d.y }, z: d.z }
}

/// The image of `p` under the reflection that keeps `center` and changes the
/// sign of the `x` offset, of the `y` offset or of both.
pub open spec fn reflected(p: Point, center: Point, flip_x: bool, flip_y: bool) -> Point {
    Point {
        x: if flip_x { 2 * center.x - p.x } else { p.x },
        y: if flip_y { 2 * center.y - p.y } else { p.y },
        z: p.z,
    }
}

/// The image of a vertex: its position reflected about `center`, its normal
/// turned with it, its colour kept.
pub open spec fn mirrored(v: VertexModel, center: Point, flip_x: bool, flip_y: bool) -> VertexModel {
    VertexModel {
        position: reflected(v.position, center, flip_x, flip_y),
        normal: flipped(v.normal, flip_x, flip_y),
        diffuse_color: v.diffuse_color,
    }
}

/// Where the image of place `j` of a quadrant lies in a quadrant that is its
/// mirror image: the facets come in the opposite order, and within a facet
/// the second and third corner change places.
pub open spec fn partner(j: int) -> int {
    let t = j / 3;
    let k = j % 3;
    3 * (3 - t) + if k == 0 { 0 } else { 3 - k }
}

/// Changing both signs turns a cross product with its factors; changing one
/// sign turns the cross product of the factors in the opposite order.
pub proof fn lemma_cross_flipped(a: Point, b: Point, flip_x: bool, flip_y: bool)
    ensures
        flip_x == flip_y ==> cross_product(
            flipped(a, flip_x, flip_y),
            flipped(b, flip_x, flip_y),
        ) == flipped(cross_product(a, b), flip_x, flip_y),
        flip_x != flip_y ==> cross_product(
            flipped(b, flip_x, flip_y),
            flipped(a, flip_x, flip_y),
        ) == flipped(cross_product(a, b), flip_x, flip_y),
{
    assert((-a.y) * b.z == -(a.y * b.z) && a.z * (-b.y) == -(a.z * b.y) && a.z * (-b.x) == -(a.z
        * b.x) && (-a.x) * b.z == -(a.x * b.z) && (-a.x) * (-b.y) == a.x * b.y && (-a.y) * (-b.x)
        == a.y * b.x && (-a.x) * b.y == -(a.x * b.y) && a.y * (-b.x) == -(a.y * b.x) && a.x * (
    -b.y) == -(a.x * b.y) && (-a.y) * b.x == -(a.y * b.x)) by (nonlinear_arith);
    assert((-b.y) * a.z == -(a.z * b.y) && b.z * (-a.y) == -(a.y * b.z) && b.z * (-a.x) == -(a.x
        * b.z) && (-b.x) * a.z == -(a.z * b.x) && (-b.x) * a.y == -(a.y * b.x) && b.y * (-a.x)
        == -(a.x * b.y) && b.x * (-a.y) == -(a.y * b.x) && (-b.y) * a.x == -(a.x * b.y) && b.y
        * a.z == a.z * b.y && b.z * a.y == a.y * b.z && b.z * a.x == a.x * b.z && b.x * a.z
        == a.z * b.x && b.x * a.y == a.y * b.x && b.y * a.x == a.x * b.y) by (nonlinear_arith);
}

/// The image of a facet: the facet of the reflected corners, with the second and
/// third corner exchanged where the reflection changes one sign only.
pub proof fn lemma_facet_mirrored(
    p0: Point,
    p1: Point,
    p2: Point,
    center: Point,
    flip_x: bool,
    flip_y: bool,
)
    ensures
        ({
            let r0 = reflected(p0, center, flip_x, flip_y);
            let r1 = reflected(p1, center, flip_x, flip_y);
            let r2 = reflected(p2, center, flip_x, flip_y);
            let f = facet(p0, p1, p2);
            if flip_x == flip_y {
                let g = facet(r0, r1, r2);
                &&& g[0] == mirrored(f[0], center, flip_x, flip_y)
                &&& g[1] == mirrored(f[1], center, flip_x, flip_y)
                &&& g[2] == mirrored(f[2], center, flip_x, flip_y)
            } else {
                let g = facet(r0, r2, r1);
                &&& g[0] == mirrored(f[0], center, flip_x, flip_y)
                &&& g[1] == mirrored(f[2], center, flip_x, flip_y)
                &&& g[2] == mirrored(f[1], center, flip_x, flip_y)
            }
        }),
{
    let r0 = reflected(p0, center, flip_x, flip_y);
    let r1 = reflected(p1, center, flip_x, flip_y);
    let r2 = reflected(p2, center, flip_x, flip_y);
    let e1 = difference(p1, p0);
    let e2 = difference(p2, p0);
    assert(difference(r1, r0) == flipped(e1, flip_x, flip_y));
    assert(difference(r2, r0) == flipped(e2, flip_x, flip_y));
    lemma_cross_flipped(e2, e1, flip_x, flip_y);
}

/// A quadrant generated from reflected vectors is the mirror image of the
/// quadrant generated from the vectors themselves.  Where the reflection
/// changes one sign only, left and right change places among the vectors and
/// the image of place `j` lies at place `partner(j)`.
pub proof fn lemma_quarter_mirrored(
    center: Point,
    left_canyon_offset: Point,
    right_canyon_offset: Point,
    left_long_spike: Point,
    right_long_spike: Point,
    short_spike: Point,
    depth: int,
    flip_x: bool,
    flip_y: bool,
    j: int,
)
    requires
        0 <= j < 12,
    ensures
        ({
            let q = quarter_pattern(
                center,
                left_canyon_offset,
                right_canyon_offset,
                left_long_spike,
                right_long_spike,
                short_spike,
                depth,
            );
            if flip_x == flip_y {
                quarter_pattern(
                    center,
                    flipped(left_canyon_offset, flip_x, flip_y),
                    flipped(right_canyon_offset, flip_x, flip_y),
                    flipped(left_long_spike, flip_x, flip_y),
                    flipped(right_long_spike, flip_x, flip_y),
                    flipped(short_spike, flip_x, flip_y),
                    depth,
                )[j] == mirrored(q[j], center, flip_x, flip_y)
            } else {
                quarter_pattern(
                    center,
                    flipped(right_canyon_offset, flip_x, flip_y),
                    flipped(left_canyon_offset, flip_x, flip_y),
                    flipped(right_long_spike, flip_x, flip_y),
                    flipped(left_long_spike, flip_x, flip_y),
                    flipped(short_spike, flip_x, flip_y),
                    depth,
                )[j] == mirrored(q[partner(j)], center, flip_x, flip_y)
            }
        }),
{
    let c = raised(center, depth);
    let lc = planar(center, left_canyon_offset);
    let rc = planar(center, right_canyon_offset);
    let ss = planar(center, short_spike);
    let ll = planar(center, left_long_spike);
    let rl = planar(center, right_long_spike);
    let t = j / 3;
    if flip_x == flip_y {
        if t == 0 {
            lemma_facet_mirrored(c, ll, lc, center, flip_x, flip_y);
        } else if t == 1 {
            lemma_facet_mirrored(c, lc, ss, center, flip_x, flip_y);
        } else if t == 2 {
            lemma_facet_mirrored(c, ss, rc, center, flip_x, flip_y);
        } else {
            lemma_facet_mirrored(c, rc, rl, center, flip_x, flip_y);
        }
    } else {
        if t == 0 {
            lemma_facet_mirrored(c, rc, rl, center, flip_x, flip_y);
        } else if t == 1 {
            lemma_facet_mirrored(c, ss, rc, center, flip_x, flip_y);
        } else if t == 2 {
            lemma_facet_mirrored(c, lc, ss, center, flip_x, flip_y);
        } else {
            lemma_facet_mirrored(c, ll, lc, center, flip_x, flip_y);
        }
    }
}

/// The star has the symmetry of its four quadrants.  Place by place, the
/// bottom-left quadrant is the top-right one turned half round about the
/// centre.  The bottom-right and the top-left quadrant are its mirror images
/// below and to the left: there the image of place `j` lies at `partner(j)`.
pub proof fn lemma_quadrant_symmetry(geom: Geometry, j: int)
    requires
        0 <= j < 12,
    ensures
        quarter_vertices(geom, Quadrant::BottomLeft)[j] == mirrored(
            quarter_vertices(geom, Quadrant::TopRight)[j],
            geom.center@,
            true,
            true,
        ),
        quarter_vertices(geom, Quadrant::BottomRight)[j] == mirrored(
            quarter_vertices(geom, Quadrant::TopRight)[partner(j)],
            geom.center@,
            false,
            true,
        ),
        quarter_vertices(geom, Quadrant::TopLeft)[j] == mirrored(
            quarter_vertices(geom, Quadrant::TopRight)[partner(j)],
            geom.center@,
            true,
            false,
        ),
{
    let i = quarter_input(geom, Quadrant::TopRight);
    let c = geom.center@;
    let d = geom.depth();
    lemma_quarter_mirrored(
        c,
        i.left_canyon_offset,
        i.right_canyon_offset,
        i.left_long_spike,
        i.right_long_spike,
        i.short_spike,
        d,
        true,
        true,
        j,
    );
    lemma_quarter_mirrored(
        c,
        i.left_canyon_offset,
        i.right_canyon_offset,
        i.left_long_spike,
        i.right_long_spike,
        i.short_spike,
        d,
        false,
        true,
        j,
    );
    lemma_quarter_mirrored(
        c,
        i.left_canyon_offset,
        i.right_canyon_offset,
        i.left_long_spike,
        i.right_long_spike,
        i.short_spike,
        d,
        true,
        false,
        j,
    );
}

/// Two runs of vertices that stand for the same models are the same run:
/// whatever is generated twice from the same parameters agrees in every
/// coordinate of every vertex.
pub proof fn lemma_generation_is_deterministic(geom: Geometry, first: Seq<Vertex>, second: Seq<Vertex>)
    requires
        models(first) == star_vertices(geom),
        models(second) == star_vertices(geom),
    ensures
        first == second,
{
    assert(first.len() == models(first).len());
    assert(second.len() == models(second).len());
    assert forall|i: int| 0 <= i < first.len() implies first[i] == second[i] by {
        assert(first[i]@ == models(first)[i]);
        assert(second[i]@ == models(second)[i]);
    }
    assert(first =~= second);
}

/// No vertex of a star with well-formed parameters lies farther than twice
/// [`COORD_LIMIT`] from the origin along any axis.
pub proof fn lemma_star_is_bounded(geom: Geometry, i: int)
    requires
        geom.wf(),
        0 <= i < 48,
    ensures
        within(star_vertices(geom)[i].position, 2 * COORD_LIMIT),
{
}

/// Whether the canyons of `geom` lie where those of a star lie: each in
/// the top-right quadrant, off both axes and on its own side of the diagonal.
pub open spec fn has_proper_canyons(geom: Geometry) -> bool {
    &&& 0 < geom.left_canyon_offset.x < geom.left_canyon_offset.y
    &&& 0 < geom.right_canyon_offset.y < geom.right_canyon_offset.x
}

/// The normals of the top-right quadrant of a star with proper canyons point
/// to the side of the apex.
proof fn lemma_top_right_faces_up(geom: Geometry, j: int)
    requires
        geom.wf(),
        has_proper_canyons(geom),
        0 <= j < 12,
    ensures
        quarter_vertices(geom, Quadrant::TopRight)[j].normal.z > 0,
{
    let ls = geom.long_spike_length as int;
    let ss = geom.short_spike_length as int;
    let lx = geom.left_canyon_offset.x as int;
    let ly = geom.left_canyon_offset.y as int;
    let rx = geom.right_canyon_offset.x as int;
    let ry = geom.right_canyon_offset.y as int;
    assert(lx * ls > 0) by (nonlinear_arith)
        requires
            lx > 0,
            ls > 0,
    ;
    assert(ss * ly - ss * lx > 0) by (nonlinear_arith)
        requires
            ss > 0,
            ly > lx,
    ;
    assert(rx * ss - ry * ss > 0) by (nonlinear_arith)
        requires
            ss > 0,
            rx > ry,
    ;
    assert(ls * ry > 0) by (nonlinear_arith)
        requires
            ry > 0,
            ls > 0,
    ;
    assert(lx * ls - ly * 0 == lx * ls) by (nonlinear_arith);
    assert(ls * ry - 0 * rx == ls * ry) by (nonlinear_arith);
    let center = geom.center@;
    let d = geom.depth();
    let c = raised(center, d);
    let lc = planar(center, geom.left_canyon_offset@);
    let rc = planar(center, geom.right_canyon_offset@);
    let sp = planar(center, Point { x: ss, y: ss, z: 0 });
    let ll = planar(center, Point { x: 0, y: ls, z: 0 });
    let rl = planar(center, Point { x: ls, y: 0, z: 0 });
    assert(difference(lc, c) == Point { x: lx, y: ly, z: -d });
    assert(difference(rc, c) == Point { x: rx, y: ry, z: -d });
    assert(difference(sp, c) == Point { x: ss, y: ss, z: -d });
    assert(difference(ll, c) == Point { x: 0, y: ls, z: -d });
    assert(difference(rl, c) == Point { x: ls, y: 0, z: -d });
    let n = quarter_vertices(geom, Quadrant::TopRight)[j].normal;
    let t = j / 3;
    if t == 0 {
        assert(n == plane_normal(c, lc, ll));
    } else if t == 1 {
        assert(n == plane_normal(c, sp, lc));
    } else if t == 2 {
        assert(n == plane_normal(c, rc, sp));
    } else {
        assert(n == plane_normal(c, rl, rc));
    }
}

/// No normal of a star with proper canyons vanishes: each points to the side
/// of the apex, so each has a multiple of unit length, which is the normal
/// that shades its facet.
pub proof fn lemma_normals_face_up(geom: Geometry, i: int)
    requires
        geom.wf(),
        has_proper_canyons(geom),
        0 <= i < 48,
    ensures
        star_vertices(geom)[i].normal.z > 0,
{
    let s = star_vertices(geom);
    let j = i % 12;
    lemma_quadrant_symmetry(geom, j);
    lemma_top_right_faces_up(geom, j);
    lemma_top_right_faces_up(geom, partner(j));
    if i < 12 {
        lemma_star_layout(geom, Quadrant::TopRight);
        assert(s[i] == s.subrange(0, 12)[j]);
    } else if i < 24 {
        lemma_star_layout(geom, Quadrant::BottomRight);
        assert(s[i] == s.subrange(12, 24)[j]);
    } else if i < 36 {
        lemma_star_layout(geom, Quadrant::BottomLeft);
        assert(s[i] == s.subrange(24, 36)[j]);
    } else {
        lemma_star_layout(geom, Quadrant::TopLeft);
        assert(s[i] == s.subrange(36, 48)[j]);
    }
}

} // verus!
