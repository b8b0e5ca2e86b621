use vstd::prelude::*;

verus! {

/// A point of the plane, each coordinate in thousandths of a world unit.
#[derive(Clone, Copy, Debug, PartialEq, Eq, Structural)]
pub struct Point {
    pub x: i32,
    pub y: i32,
}

/// Twice the signed area of the triangle `a b c`: positive when `c` lies to
/// the left of the line from `a` to `b` (y up), negative to the right, zero on it.
pub open spec fn cross(a: Point, b: Point, c: Point) -> int {
    (b.x - a.x) * (c.y - a.y) - (b.y - a.y) * (c.x - a.x)
}

/// The index after `i` around a closed polyline of `n` vertices.
pub open spec fn next_index(n: int, i: int) -> int {
    if i + 1 == n {
        0
    } else {
        i + 1
    }
}

/// A signed area `v` is strictly on the left side (`left`) or strictly on the right.
pub open spec fn strictly_on(left: bool, v: int) -> bool {
    if left {
        v > 0
    } else {
        v < 0
    }
}

/// Every vertex that is not an end of edge `i` lies strictly on the left of
/// that edge (`left`), or strictly on its right.
pub open spec fn edge_keeps_side(s: Seq<Point>, i: int, left: bool) -> bool {
    forall|j: int|
        0 <= j < s.len() && j != i && j != next_index(s.len() as int, i) ==> strictly_on(
            left,
            #[trigger] cross(s[i], s[next_index(s.len() as int, i)], s[j]),
        )
}

/// Every edge keeps all other vertices strictly on the same side.
pub open spec fn all_on_side(s: Seq<Point>, left: bool) -> bool {
    forall|i: int| 0 <= i < s.len() ==> #[trigger] edge_keeps_side(s, i, left)
}

/// `s` lists the vertices of a strictly convex polygon, in either orientation:
/// at least three vertices, and for every edge all other vertices lie strictly
/// on one side of it, the same side for every edge. Degenerate, collinear and
/// self-intersecting vertex lists fail this.
pub open spec fn is_convex_polygon(s: Seq<Point>) -> bool {
    s.len() >= 3 && (all_on_side(s, true) || all_on_side(s, false))
}


/// The segments `a b` and `c d` cross at a point inside both: each one's
/// ends lie strictly on opposite sides of the other's line.
pub open spec fn segments_cross(a: Point, b: Point, c: Point, d: Point) -> bool {
    cross(a, b, c) * cross(a, b, d) < 0 && cross(c, d, a) * cross(c, d, b) < 0
}

/// A four-vertex list whose opposite edges cross (a self-intersecting
/// quadrilateral) is not a convex polygon.
pub proof fn lemma_crossing_quadrilateral_not_convex(s: Seq<Point>)
    requires
        s.len() == 4,
        segments_cross(s[0], s[1], s[2], s[3]) || segments_cross(s[1], s[2], s[3], s[0]),
    ensures
        !is_convex_polygon(s),
{
    let (e, a, b) = if segments_cross(s[0], s[1], s[2], s[3]) {
        (0int, 2int, 3int)
    } else {
        (1int, 3int, 0int)
    };
    let e2 = next_index(4, e);
    let ca = cross(s[e], s[e2], s[a]);
    let cb = cross(s[e], s[e2], s[b]);
    assert(ca * cb < 0);
    assert(!(ca > 0 && cb > 0)) by (nonlinear_arith)
        requires
            ca * cb < 0,
    ;
    assert(!(ca < 0 && cb < 0)) by (nonlinear_arith)
        requires
            ca * cb < 0,
    ;
    assert(!edge_keeps_side(s, e, true));
    assert(!edge_keeps_side(s, e, false));
}

/// `cross(a, b, c)`, computed exactly.
pub fn cross_product(a: Point, b: Point, c: Point) -> (r: i128)
    ensures
        r == cross(a, b, c),
{
    let abx = b.x as i128 - a.x as i128;
    let aby = b.y as i128 - a.y as i128;
    let acx = c.x as i128 - a.x as i128;
    let acy = c.y as i128 - a.y as i128;
    assert(-0x1_0000_0000 * 0x1_0000_0000 <= abx * acy <= 0x1_0000_0000 * 0x1_0000_0000)
        by (nonlinear_arith)
        requires
            -0x1_0000_0000 <= abx <= 0x1_0000_0000,
            -0x1_0000_0000 <= acy <= 0x1_0000_0000,
    ;
    assert(-0x1_0000_0000 * 0x1_0000_0000 <= aby * acx <= 0x1_0000_0000 * 0x1_0000_0000)
        by (nonlinear_arith)
        requires
            -0x1_0000_0000 <= aby <= 0x1_0000_0000,
            -0x1_0000_0000 <= acx <= 0x1_0000_0000,
    ;
    abx * acy - aby * acx
}

/// Whether `points` lists the vertices of a strictly convex polygon.
pub fn is_convex(points: &Vec<Point>) -> (r: bool)
    ensures
        r == is_convex_polygon(points@),
{
    let n = points.len();
    if n < 3 {
        return false;
    }
    let ghost s = points@;
    let first = cross_product(points[0], points[1], points[2]);
    assert(next_index(n as int, 0) == 1);
    if first == 0 {
        assert(!edge_keeps_side(s, 0, true));
        assert(!edge_keeps_side(s, 0, false));
        return false;
    }
    // The orientation is fixed by the first turn; the opposite one already fails.
    let left = first > 0;
    assert(!edge_keeps_side(s, 0, !left));
    let mut i: usize = 0;
    while i < n
        invariant
            s == points@,
            n == s.len(),
            n >= 3,
            !edge_keeps_side(s, 0, !left),
            0 <= i <= n,
            forall|k: int| 0 <= k < i ==> edge_keeps_side(s, k, left),
        decreases n - i,
    {
        let i2: usize = if i + 1 == n {
            0
        } else {
            i + 1
        };
        let mut j: usize = 0;
        while j < n
            invariant
                s == points@,
                n == s.len(),
                n >= 3,
                !edge_keeps_side(s, 0, !left),
                0 <= i < n,
                i2 == next_index(n as int, i as int),
                0 <= j <= n,
                forall|m: int|
                    0 <= m < j && m != i && m != i2 ==> strictly_on(
                        left,
                        #[trigger] cross(s[i as int], s[i2 as int], s[m]),
                    ),
            decreases n - j,
        {
            if j != i && j != i2 {
                let c = cross_product(points[i], points[i2], points[j]);
                if (left && c <= 0) || (!left && c >= 0) {
                    assert(!edge_keeps_side(s, i as int, left));
                    assert(!all_on_side(s, left));
                    assert(!all_on_side(s, !left));
                    return false;
                }
            }
            j += 1;
        }
        assert(edge_keeps_side(s, i as int, left));
        i += 1;
    }
    assert(all_on_side(s, left));
    true
}

/// The barrier's vertices, offset from a `width` by `height` rectangle
/// centred on the origin (half extents rounded toward zero) by fixed amounts.
pub open spec fn barrier_vertices(width: u32, height: u32) -> Seq<Point> {
    let hw = (width / 2) as int;
    let hh = (height / 2) as int;
    seq![
        Point { x: (hw + 500) as i32, y: (hh + 750) as i32 },
        Point { x: (hw - 500) as i32, y: (-hh + 550) as i32 },
        Point { x: (-hw - 750) as i32, y: (-hh + 875) as i32 },
        Point { x: (-hw - 350) as i32, y: (hh + 450) as i32 },
    ]
}

/// The barrier's four vertices for a `width` by `height` rectangle.
pub fn create_barrier(width: u32, height: u32) -> (r: Vec<Point>)
    requires
        width / 2 + 749 <= i32::MAX,
        height / 2 + 750 <= i32::MAX,
    ensures
        r@ == barrier_vertices(width, height),
{
    let half_width = (width / 2) as i32;
    let half_height = (height / 2) as i32;
    let v0 = Point { x: half_width + 500, y: half_height + 750 };
    let v1 = Point { x: half_width - 500, y: 550 - half_height };
    let v2 = Point { x: 0 - half_width - 750, y: 875 - half_height };
    let v3 = Point { x: 0 - half_width - 350, y: half_height + 450 };
    let r = vec![v0, v1, v2, v3];
    assert(r@ =~= barrier_vertices(width, height));
    r
}

} // verus!
