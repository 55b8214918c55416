//! Orthographic projection of a cube's truncated node positions onto the
//! drawing surface, and the drawing requests that follow from it.

use vstd::prelude::*;
use crate::geometry::{EDGE_COUNT, NODE_COUNT, edge_table, edges};
use drawille::Canvas;
use crate::surface::{canvas_cells, line_cells, text_cells};

verus! {

/// A line request between two surface points.
#[derive(Clone, Copy, PartialEq, Eq, Structural, Debug)]
pub struct Segment {
    pub x0: u32,
    pub y0: u32,
    pub x1: u32,
    pub y1: u32,
}

/// A label request at one surface point.
#[derive(Clone, Copy, PartialEq, Eq, Structural, Debug)]
pub struct Dot {
    pub x: u32,
    pub y: u32,
}

/// Everything one cube asks of the surface: a line per edge, in edge order,
/// then a label per node, in node order.
pub struct Plan {
    pub segments: Vec<Segment>,
    pub dots: Vec<Dot>,
}

/// The largest coordinate difference a single line request may span.
pub const MAX_SPAN: u32 = 65535;

/// A signed surface coordinate as the surface receives it: reinterpreted as
/// an unsigned 32-bit value.
pub open spec fn surface(s: int) -> u32 {
    if s >= 0 {
        s as u32
    } else {
        (s + 0x1_0000_0000) as u32
    }
}

/// Whether each node plus the origin offset stays a 32-bit signed value.
pub open spec fn offset_fits(nodes: Seq<(i32, i32)>, ox: i32, oy: i32) -> bool {
    forall|i: int|
        0 <= i < nodes.len() ==> i32::MIN <= #[trigger] nodes[i].0 + ox <= i32::MAX && i32::MIN
            <= nodes[i].1 + oy <= i32::MAX
}

/// Where node `p` lands on the surface.
pub open spec fn dot_of(p: (i32, i32), ox: i32, oy: i32) -> Dot {
    Dot { x: surface(p.0 + ox), y: surface(p.1 + oy) }
}

/// The line request for edge `k`.
pub open spec fn segment_of(nodes: Seq<(i32, i32)>, k: int, ox: i32, oy: i32) -> Segment {
    let e = edge_table()[k];
    let a = dot_of(nodes[e.0 as int], ox, oy);
    let b = dot_of(nodes[e.1 as int], ox, oy);
    Segment { x0: a.x, y0: a.y, x1: b.x, y1: b.y }
}

/// All line requests, one per edge.
pub open spec fn plan_segments(nodes: Seq<(i32, i32)>, ox: i32, oy: i32) -> Seq<Segment> {
    Seq::new(EDGE_COUNT as nat, |k: int| segment_of(nodes, k, ox, oy))
}

/// All label requests, one per node.
pub open spec fn plan_dots(nodes: Seq<(i32, i32)>, ox: i32, oy: i32) -> Seq<Dot> {
    Seq::new(nodes.len(), |i: int| dot_of(nodes[i], ox, oy))
}

/// Projects one truncated node position: add the origin offset, then hand the
/// result over as the surface's unsigned coordinate.
pub fn project_point(p: (i32, i32), ox: i32, oy: i32) -> (r: Dot)
    requires
        i32::MIN <= p.0 + ox <= i32::MAX,
        i32::MIN <= p.1 + oy <= i32::MAX,
    ensures
        r == dot_of(p, ox, oy),
{
    Dot { x: to_surface(p.0 + ox), y: to_surface(p.1 + oy) }
}

fn to_surface(s: i32) -> (r: u32)
    ensures
        r == surface(s as int),
{
    if s >= 0 {
        s as u32
    } else {
        (s as i64 + 0x1_0000_0000i64) as u32
    }
}

/// The requests for one cube whose node positions were truncated to
/// integers: one line per edge between its projected endpoints, and one
/// label per node.
pub fn project(nodes: &[(i32, i32); 8], ox: i32, oy: i32) -> (r: Plan)
    requires
        offset_fits(nodes@, ox, oy),
    ensures
        r.segments@ == plan_segments(nodes@, ox, oy),
        r.dots@ == plan_dots(nodes@, ox, oy),
        r.segments.len() == EDGE_COUNT,
        r.dots.len() == NODE_COUNT,
{
    let es = edges();
    proof {
        crate::geometry::lemma_edges_form_wireframe();
    }
    let mut points: Vec<Dot> = Vec::new();
    for i in 0..8
        invariant
            nodes@.len() == 8,
            offset_fits(nodes@, ox, oy),
            points@.len() == i,
            forall|j: int| 0 <= j < i ==> points@[j] == dot_of(nodes@[j], ox, oy),
    {
        let d = project_point(nodes[i], ox, oy);
        points.push(d);
    }
    let mut segments: Vec<Segment> = Vec::new();
    for k in 0..12
        invariant
            es@ == edge_table(),
            points@ == plan_dots(nodes@, ox, oy),
            nodes@.len() == 8,
            forall|m: int|
                0 <= m < EDGE_COUNT ==> (#[trigger] edge_table()[m]).0 < NODE_COUNT
                    && edge_table()[m].1 < NODE_COUNT,
            segments@.len() == k,
            forall|j: int| 0 <= j < k ==> segments@[j] == segment_of(nodes@, j, ox, oy),
    {
        let e = es[k];
        assert(edge_table()[k as int] == e);
        let a = points[e.0];
        let b = points[e.1];
        segments.push(Segment { x0: a.x, y0: a.y, x1: b.x, y1: b.y });
    }
    assert(segments@ =~= plan_segments(nodes@, ox, oy));
    assert(points@ =~= plan_dots(nodes@, ox, oy));
    Plan { segments, dots: points }
}

/// Drawing a cube always asks for twelve lines and eight labels, and the
/// requests depend on nothing but where the nodes land: two position lists
/// whose nodes land on the same surface points, under their own origin
/// offsets, give identical requests.
pub proof fn lemma_plan_depends_on_landing_points(
    a: Seq<(i32, i32)>,
    oxa: i32,
    oya: i32,
    b: Seq<(i32, i32)>,
    oxb: i32,
    oyb: i32,
)
    requires
        a.len() == NODE_COUNT,
        b.len() == NODE_COUNT,
        forall|i: int| 0 <= i < NODE_COUNT ==> dot_of(a[i], oxa, oya) == dot_of(b[i], oxb, oyb),
    ensures
        plan_segments(a, oxa, oya).len() == EDGE_COUNT,
        plan_dots(a, oxa, oya).len() == NODE_COUNT,
        plan_segments(a, oxa, oya) == plan_segments(b, oxb, oyb),
        plan_dots(a, oxa, oya) == plan_dots(b, oxb, oyb),
{
    crate::geometry::lemma_edges_form_wireframe();
    assert forall|k: int| 0 <= k < EDGE_COUNT implies #[trigger] segment_of(a, k, oxa, oya)
        == segment_of(b, k, oxb, oyb) by {
        let e = edge_table()[k];
        assert(dot_of(a[e.0 as int], oxa, oya) == dot_of(b[e.0 as int], oxb, oyb));
        assert(dot_of(a[e.1 as int], oxa, oya) == dot_of(b[e.1 as int], oxb, oyb));
    }
    assert(plan_segments(a, oxa, oya) =~= plan_segments(b, oxb, oyb));
    assert(plan_dots(a, oxa, oya) =~= plan_dots(b, oxb, oyb));
}

/// Whether the surface can take the line request `s`: coordinates within
/// the signed 32-bit range and spans of at most `MAX_SPAN`.
pub open spec fn segment_drawable(s: Segment) -> bool {
    &&& s.x0 <= i32::MAX
    &&& s.y0 <= i32::MAX
    &&& s.x1 <= i32::MAX
    &&& s.y1 <= i32::MAX
    &&& s.x0 - s.x1 <= MAX_SPAN
    &&& s.x1 - s.x0 <= MAX_SPAN
    &&& s.y0 - s.y1 <= MAX_SPAN
    &&& s.y1 - s.y0 <= MAX_SPAN
}

/// Whether the surface can take the label request `d`.
pub open spec fn dot_drawable(d: Dot) -> bool {
    d.x < u32::MAX
}

/// Whether every request of the cube's plan can be handed to the surface.
pub open spec fn drawable(nodes: Seq<(i32, i32)>, ox: i32, oy: i32) -> bool {
    &&& offset_fits(nodes, ox, oy)
    &&& forall|k: int|
        0 <= k < EDGE_COUNT ==> segment_drawable(#[trigger] plan_segments(nodes, ox, oy)[k])
    &&& forall|i: int|
        0 <= i < nodes.len() ==> dot_drawable(#[trigger] plan_dots(nodes, ox, oy)[i])
}

fn fits_i32(a: i32, b: i32) -> (r: bool)
    ensures
        r == (i32::MIN <= a + b <= i32::MAX),
{
    let s: i64 = a as i64 + b as i64;
    i32::MIN as i64 <= s && s <= i32::MAX as i64
}

fn span_ok(a: u32, b: u32) -> (r: bool)
    ensures
        r == (a <= i32::MAX && b <= i32::MAX && a - b <= MAX_SPAN && b - a <= MAX_SPAN),
{
    if a > i32::MAX as u32 || b > i32::MAX as u32 {
        false
    } else if a >= b {
        a - b <= MAX_SPAN
    } else {
        b - a <= MAX_SPAN
    }
}

/// Decides whether `draw` may be called on these node positions.
pub fn can_draw(nodes: &[(i32, i32); 8], ox: i32, oy: i32) -> (r: bool)
    ensures
        r == drawable(nodes@, ox, oy),
{
    let mut i: usize = 0;
    while i < 8
        invariant
            nodes@.len() == 8,
            i <= 8,
            offset_fits(nodes@.take(i as int), ox, oy),
        decreases 8 - i,
    {
        if !fits_i32(nodes[i].0, ox) || !fits_i32(nodes[i].1, oy) {
            assert(!offset_fits(nodes@, ox, oy)) by {
                assert(nodes@[i as int] == nodes[i as int]);
            }
            return false;
        }
        assert(nodes@.take(i + 1) =~= nodes@.take(i as int).push(nodes@[i as int]));
        i = i + 1;
    }
    assert(nodes@.take(8) =~= nodes@);
    let plan = project(nodes, ox, oy);
    let mut k: usize = 0;
    while k < 12
        invariant
            plan.segments@ == plan_segments(nodes@, ox, oy),
            plan.segments.len() == EDGE_COUNT,
            k <= 12,
            forall|m: int| 0 <= m < k ==> segment_drawable(#[trigger] plan.segments@[m]),
        decreases 12 - k,
    {
        let s = plan.segments[k];
        let ok = span_ok(s.x0, s.x1) && span_ok(s.y0, s.y1);
        if !ok {
            assert(!segment_drawable(plan.segments@[k as int]));
            return false;
        }
        k = k + 1;
    }
    let mut j: usize = 0;
    while j < 8
        invariant
            plan.dots@ == plan_dots(nodes@, ox, oy),
            plan.dots.len() == NODE_COUNT,
            nodes@.len() == 8,
            j <= 8,
            forall|m: int| 0 <= m < j ==> dot_drawable(#[trigger] plan.dots@[m]),
        decreases 8 - j,
    {
        if plan.dots[j].x == u32::MAX {
            assert(!dot_drawable(plan.dots@[j as int]));
            return false;
        }
        j = j + 1;
    }
    true
}

/// The cells after each line request of `segs` is drawn onto `m`, in order.
pub open spec fn after_segments(m: Map<(u16, u16), (u8, char)>, segs: Seq<Segment>) -> Map<
    (u16, u16),
    (u8, char),
>
    decreases segs.len(),
{
    if segs.len() == 0 {
        m
    } else {
        let s = segs.last();
        line_cells(after_segments(m, segs.drop_last()), s.x0, s.y0, s.x1, s.y1)
    }
}

/// The cells after a `*` label is stamped at each point of `dots`, in order.
pub open spec fn after_dots(m: Map<(u16, u16), (u8, char)>, dots: Seq<Dot>) -> Map<
    (u16, u16),
    (u8, char),
>
    decreases dots.len(),
{
    if dots.len() == 0 {
        m
    } else {
        let d = dots.last();
        text_cells(after_dots(m, dots.drop_last()), d.x, d.y, 1, seq!['*'])
    }
}

/// Draws one cube onto `canvas`: a line for each edge between its projected
/// endpoints, in edge order, then a `*` label at each projected node, in
/// node order. The canvas is handed back.
pub fn draw(canvas: Canvas, nodes: &[(i32, i32); 8], ox: i32, oy: i32) -> (r: Canvas)
    requires
        drawable(nodes@, ox, oy),
    ensures
        canvas_cells(r) == after_dots(
            after_segments(canvas_cells(canvas), plan_segments(nodes@, ox, oy)),
            plan_dots(nodes@, ox, oy),
        ),
{
    let ghost c0 = canvas_cells(canvas);
    let mut canvas = canvas;
    let plan = project(nodes, ox, oy);
    for k in 0..12
        invariant
            canvas_cells(canvas) == after_segments(c0, plan.segments@.take(k as int)),
            plan.segments.len() == EDGE_COUNT,
            plan.segments@ == plan_segments(nodes@, ox, oy),
            forall|m: int|
                0 <= m < EDGE_COUNT ==> segment_drawable(#[trigger] plan_segments(nodes@, ox, oy)[m]),
    {
        let s = plan.segments[k];
        assert(segment_drawable(plan_segments(nodes@, ox, oy)[k as int]));
        canvas.line(s.x0, s.y0, s.x1, s.y1);
        assert(plan.segments@.take(k + 1).drop_last() =~= plan.segments@.take(k as int));
    }
    assert(plan.segments@.take(12) =~= plan.segments@);
    let ghost c1 = canvas_cells(canvas);
    let label = "*";
    proof {
        reveal_strlit("*");
        assert(label@ =~= seq!['*']);
    }
    for i in 0..8
        invariant
            plan.dots.len() == NODE_COUNT,
            plan.dots@ == plan_dots(nodes@, ox, oy),
            nodes@.len() == 8,
            label@ == seq!['*'],
            canvas_cells(canvas) == after_dots(c1, plan.dots@.take(i as int)),
            forall|m: int|
                0 <= m < nodes@.len() ==> dot_drawable(#[trigger] plan_dots(nodes@, ox, oy)[m]),
    {
        let d = plan.dots[i];
        assert(dot_drawable(plan_dots(nodes@, ox, oy)[i as int]));
        canvas.text(d.x, d.y, 1, label);
        assert(plan.dots@.take(i + 1).drop_last() =~= plan.dots@.take(i as int));
    }
    assert(plan.dots@.take(8) =~= plan.dots@);
    canvas
}

} // verus!
