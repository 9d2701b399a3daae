use vstd::prelude::*;

verus! {

/// A point of the logo, in pixels from the logo area's corner, `y` downwards.
#[derive(Clone, Copy, Debug, PartialEq, Eq, Structural)]
pub struct Point {
    pub x: i32,
    pub y: i32,
}

/// A straight line between two points.
#[derive(Clone, Copy, Debug, PartialEq, Eq, Structural)]
pub struct Line {
    pub from: Point,
    pub to: Point,
}

/// A box seen from above at an angle: its top face is a diamond around
/// (`center_x`, `center_y`) reaching `half_width` to the sides and
/// `half_height` up and down; its bottom face is the same diamond `depth`
/// lower.
#[derive(Clone, Copy, Debug, PartialEq, Eq, Structural)]
pub struct Prism {
    pub center_x: i32,
    pub center_y: i32,
    pub half_width: i32,
    pub half_height: i32,
    pub depth: i32,
}

/// Number of edges of a prism's wireframe.
pub const PRISM_EDGES: usize = 12;

/// Corner `k` (0 top, 1 right, 2 bottom, 3 left, going clockwise) of the
/// top face, or of the bottom face when `lower` is set, as (x, y).
pub open spec fn corner_of(p: Prism, k: int, lower: bool) -> (int, int) {
    let dy: int = if lower { p.depth as int } else { 0 };
    if k == 0 {
        (p.center_x as int, p.center_y - p.half_height + dy)
    } else if k == 1 {
        (p.center_x + p.half_width, p.center_y + dy)
    } else if k == 2 {
        (p.center_x as int, p.center_y + p.half_height + dy)
    } else {
        (p.center_x - p.half_width, p.center_y + dy)
    }
}

/// Every corner of the prism has coordinates that an `i32` holds.
pub open spec fn prism_fits(p: Prism) -> bool {
    forall|k: int, lower: bool|
        0 <= k < 4 ==> {
            let c = #[trigger] corner_of(p, k, lower);
            i32::MIN <= c.0 <= i32::MAX && i32::MIN <= c.1 <= i32::MAX
        }
}

pub open spec fn point_is(q: Point, c: (int, int)) -> bool {
    q.x == c.0 && q.y == c.1
}

/// Edge `e` of the wireframe, in drawing order: the four sides of the top
/// face clockwise from the top corner, the four sides of the bottom face
/// likewise, then the four upright edges from each top corner down to the
/// bottom corner below it.
pub open spec fn edge_is(p: Prism, e: int, l: Line) -> bool {
    if e < 4 {
        point_is(l.from, corner_of(p, e, false)) && point_is(l.to, corner_of(p, (e + 1) % 4, false))
    } else if e < 8 {
        point_is(l.from, corner_of(p, e - 4, true)) && point_is(l.to, corner_of(p, (e - 3) % 4, true))
    } else {
        point_is(l.from, corner_of(p, e - 8, false)) && point_is(l.to, corner_of(p, e - 8, true))
    }
}

/// The corners of one face, clockwise from the top one.
fn face_corners(p: Prism, lower: bool) -> (c: [Point; 4])
    requires
        prism_fits(p),
    ensures
        forall|k: int| 0 <= k < 4 ==> point_is(#[trigger] c[k], corner_of(p, k, lower)),
{
    assert(i32::MIN <= corner_of(p, 0, false).1 <= i32::MAX);
    assert(i32::MIN <= corner_of(p, 2, false).1 <= i32::MAX);
    assert(i32::MIN <= corner_of(p, 0, lower).1 <= i32::MAX);
    assert(i32::MIN <= corner_of(p, 1, lower).0 <= i32::MAX);
    assert(i32::MIN <= corner_of(p, 1, lower).1 <= i32::MAX);
    assert(i32::MIN <= corner_of(p, 2, lower).1 <= i32::MAX);
    assert(i32::MIN <= corner_of(p, 3, lower).0 <= i32::MAX);
    let top_y: i32 = if lower { p.center_y - p.half_height + p.depth } else { p.center_y - p.half_height };
    let mid_y: i32 = if lower { p.center_y + p.depth } else { p.center_y };
    let low_y: i32 = if lower { p.center_y + p.half_height + p.depth } else { p.center_y + p.half_height };
    [
        Point { x: p.center_x, y: top_y },
        Point { x: p.center_x + p.half_width, y: mid_y },
        Point { x: p.center_x, y: low_y },
        Point { x: p.center_x - p.half_width, y: mid_y },
    ]
}

/// The twelve edges of a prism's wireframe, in drawing order (see `edge_is`).
pub fn prism_wireframe(p: Prism) -> (edges: Vec<Line>)
    requires
        prism_fits(p),
    ensures
        edges@.len() == PRISM_EDGES,
        forall|e: int| 0 <= e < PRISM_EDGES ==> edge_is(p, e, #[trigger] edges@[e]),
        edges@[0].from.x == p.center_x && edges@[0].from.y == p.center_y - p.half_height,
        edges@[1].from.x == p.center_x + p.half_width && edges@[1].from.y == p.center_y,
        edges@[2].from.x == p.center_x && edges@[2].from.y == p.center_y + p.half_height,
        edges@[3].from.x == p.center_x - p.half_width && edges@[3].from.y == p.center_y,
        forall|k: int|
            0 <= k < 4 ==> #[trigger] edges@[k + 4].from.x == edges@[k].from.x
                && edges@[k + 4].from.y == edges@[k].from.y + p.depth,
{
    let top = face_corners(p, false);
    let bottom = face_corners(p, true);
    let mut edges: Vec<Line> = Vec::new();
    let mut k: usize = 0;
    while k < 4
        invariant
            k <= 4,
            edges@.len() == k,
            forall|k: int| 0 <= k < 4 ==> point_is(#[trigger] top[k], corner_of(p, k, false)),
            forall|e: int| 0 <= e < k ==> edge_is(p, e, #[trigger] edges@[e]),
        decreases 4 - k,
    {
        edges.push(Line { from: top[k], to: top[(k + 1) % 4] });
        k += 1;
    }
    let mut k: usize = 0;
    while k < 4
        invariant
            k <= 4,
            edges@.len() == 4 + k,
            forall|k: int| 0 <= k < 4 ==> point_is(#[trigger] bottom[k], corner_of(p, k, true)),
            forall|e: int| 0 <= e < 4 + k ==> edge_is(p, e, #[trigger] edges@[e]),
        decreases 4 - k,
    {
        edges.push(Line { from: bottom[k], to: bottom[(k + 1) % 4] });
        k += 1;
    }
    let mut k: usize = 0;
    while k < 4
        invariant
            k <= 4,
            edges@.len() == 8 + k,
            forall|k: int| 0 <= k < 4 ==> point_is(#[trigger] top[k], corner_of(p, k, false)),
            forall|k: int| 0 <= k < 4 ==> point_is(#[trigger] bottom[k], corner_of(p, k, true)),
            forall|e: int| 0 <= e < 8 + k ==> edge_is(p, e, #[trigger] edges@[e]),
        decreases 4 - k,
    {
        edges.push(Line { from: top[k], to: bottom[k] });
        k += 1;
    }
    proof {
        assert(edge_is(p, 0, edges@[0]));
        assert(edge_is(p, 1, edges@[1]));
        assert(edge_is(p, 2, edges@[2]));
        assert(edge_is(p, 3, edges@[3]));
        assert forall|k: int|
            0 <= k < 4 implies #[trigger] edges@[k + 4].from.x == edges@[k].from.x
                && edges@[k + 4].from.y == edges@[k].from.y + p.depth by {
            assert(edge_is(p, k, edges@[k]));
            assert(edge_is(p, k + 4, edges@[k + 4]));
        }
    }
    edges
}

/// The two boxes of the logo: a large one on the left and a small one on
/// its right.
pub open spec fn logo_prisms_of() -> (Prism, Prism) {
    (
        Prism { center_x: 150, center_y: 58, half_width: 35, half_height: 20, depth: 58 },
        Prism { center_x: 255, center_y: 66, half_width: 21, half_height: 12, depth: 32 },
    )
}

/// The two boxes of the logo, large first.
pub fn logo_prisms() -> (l: (Prism, Prism))
    ensures
        l == logo_prisms_of(),
        l.0 == (Prism { center_x: 150, center_y: 58, half_width: 35, half_height: 20, depth: 58 }),
        l.1 == (Prism { center_x: 255, center_y: 66, half_width: 21, half_height: 12, depth: 32 }),
        prism_fits(l.0),
        prism_fits(l.1),
{
    (
        Prism { center_x: 150, center_y: 58, half_width: 35, half_height: 20, depth: 58 },
        Prism { center_x: 255, center_y: 66, half_width: 21, half_height: 12, depth: 32 },
    )
}

/// The sides of each face join up: every side of the top face, and of the
/// bottom face, ends where the next one clockwise begins, and the last
/// side returns to the first one's start.
pub proof fn lemma_faces_closed(p: Prism, edges: Seq<Line>, e: int)
    requires
        edges.len() == PRISM_EDGES,
        forall|i: int| 0 <= i < PRISM_EDGES ==> edge_is(p, i, #[trigger] edges[i]),
        0 <= e < 4,
    ensures
        edges[e].to == edges[(e + 1) % 4].from,
        edges[e + 4].to == edges[(e + 1) % 4 + 4].from,
{
    assert(edge_is(p, e, edges[e]));
    assert(edge_is(p, (e + 1) % 4, edges[(e + 1) % 4]));
    assert(edge_is(p, e + 4, edges[e + 4]));
    assert(edge_is(p, (e + 1) % 4 + 4, edges[(e + 1) % 4 + 4]));
}

/// The bottom face is the top face moved straight down by the depth, and
/// each upright edge joins a top corner to the corner right below it.
pub proof fn lemma_bottom_is_shifted_top(p: Prism, edges: Seq<Line>, e: int)
    requires
        edges.len() == PRISM_EDGES,
        forall|i: int| 0 <= i < PRISM_EDGES ==> edge_is(p, i, #[trigger] edges[i]),
        0 <= e < 4,
    ensures
        edges[e + 4].from.x == edges[e].from.x,
        edges[e + 4].to.x == edges[e].to.x,
        edges[e + 4].from.y == edges[e].from.y + p.depth,
        edges[e + 4].to.y == edges[e].to.y + p.depth,
        edges[e + 8].from == edges[e].from,
        edges[e + 8].to == edges[e + 4].from,
{
    assert(edge_is(p, e, edges[e]));
    assert(edge_is(p, e + 4, edges[e + 4]));
    assert(edge_is(p, e + 8, edges[e + 8]));
}

/// The two boxes of the logo stand side by side: every corner of the large
/// one lies left of every corner of the small one.
pub proof fn lemma_logo_side_by_side(j: int, k: int, a: bool, b: bool)
    requires
        0 <= j < 4,
        0 <= k < 4,
    ensures
        corner_of(logo_prisms_of().0, j, a).0 < corner_of(logo_prisms_of().1, k, b).0,
{
}

/// Where the corners are: the top face's top and bottom corners lie
/// `half_height` above and below the centre, its side corners `half_width`
/// left and right of it at the centre's height, and every bottom corner
/// lies `depth` below the top corner above it.
pub proof fn lemma_corner_positions(p: Prism, k: int)
    requires
        0 <= k < 4,
    ensures
        corner_of(p, 0, false) == (p.center_x as int, p.center_y - p.half_height),
        corner_of(p, 1, false) == (p.center_x + p.half_width, p.center_y as int),
        corner_of(p, 2, false) == (p.center_x as int, p.center_y + p.half_height),
        corner_of(p, 3, false) == (p.center_x - p.half_width, p.center_y as int),
        corner_of(p, k, true) == (corner_of(p, k, false).0, corner_of(p, k, false).1 + p.depth),
{
}

/// Each side of a face spans exactly the half width across and the half
/// height up or down: the faces are diamonds of the prism's proportions.
pub proof fn lemma_face_sides_span(p: Prism, edges: Seq<Line>, e: int)
    requires
        edges.len() == PRISM_EDGES,
        forall|i: int| 0 <= i < PRISM_EDGES ==> edge_is(p, i, #[trigger] edges[i]),
        0 <= e < 8,
    ensures
        edges[e].to.x - edges[e].from.x == p.half_width || edges[e].to.x - edges[e].from.x == -p.half_width,
        edges[e].to.y - edges[e].from.y == p.half_height || edges[e].to.y - edges[e].from.y == -p.half_height,
{
    assert(edge_is(p, e, edges[e]));
}

} // verus!
