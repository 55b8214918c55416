use drawille::Canvas;
use wirecube::geometry::edges;
use wirecube::projection::{can_draw, draw, project, project_point, Dot, Segment};

fn outer_cube() -> [(i32, i32); 8] {
    [(5, 5), (35, 5), (35, 35), (5, 35), (5, 5), (5, 35), (35, 35), (35, 5)]
}

#[test]
fn point_gets_origin_offset() {
    assert_eq!(project_point((3, 4), 5, 10), Dot { x: 8, y: 14 });
}

#[test]
fn negative_point_wraps_to_unsigned() {
    assert_eq!(project_point((-7, 0), 5, 10), Dot { x: u32::MAX - 1, y: 10 });
}

#[test]
fn plan_has_twelve_lines_and_eight_labels() {
    let plan = project(&outer_cube(), 5, 10);
    assert_eq!(plan.segments.len(), 12);
    assert_eq!(plan.dots.len(), 8);
    assert_eq!(plan.segments[0], Segment { x0: 10, y0: 15, x1: 40, y1: 15 });
    assert_eq!(plan.segments[4], Segment { x0: 10, y0: 15, x1: 10, y1: 15 });
    assert_eq!(plan.segments[11], Segment { x0: 10, y0: 45, x1: 10, y1: 45 });
    assert_eq!(plan.dots[2], Dot { x: 40, y: 45 });
}

#[test]
fn plan_follows_edges_and_is_repeatable() {
    let nodes = [(1, 2), (3, 4), (5, 6), (7, 8), (9, 10), (11, 12), (13, 14), (15, 16)];
    let a = project(&nodes, 5, 10);
    let b = project(&nodes, 5, 10);
    assert_eq!(a.segments, b.segments);
    assert_eq!(a.dots, b.dots);
    for (k, (i, j)) in edges().into_iter().enumerate() {
        let s = a.segments[k];
        assert_eq!((s.x0, s.y0), (a.dots[i].x, a.dots[i].y));
        assert_eq!((s.x1, s.y1), (a.dots[j].x, a.dots[j].y));
    }
}

#[test]
fn can_draw_accepts_a_cube_on_the_canvas() {
    assert!(can_draw(&outer_cube(), 5, 10));
}

#[test]
fn can_draw_rejects_offset_overflow() {
    assert!(!can_draw(&outer_cube(), i32::MAX, 10));
}

#[test]
fn can_draw_rejects_negative_positions() {
    let mut nodes = outer_cube();
    nodes[3] = (-20, 5);
    assert!(!can_draw(&nodes, 5, 10));
}

#[test]
fn can_draw_rejects_long_spans() {
    let mut nodes = outer_cube();
    nodes[1] = (70000, 5);
    assert!(!can_draw(&nodes, 5, 10));
}

#[test]
fn draw_issues_lines_then_labels() {
    let nodes = outer_cube();
    let drawn = draw(Canvas::new(50, 60), &nodes, 5, 10);
    let mut expected = Canvas::new(50, 60);
    let plan = project(&nodes, 5, 10);
    for s in &plan.segments {
        expected.line(s.x0, s.y0, s.x1, s.y1);
    }
    for d in &plan.dots {
        expected.text(d.x, d.y, 1, "*");
    }
    assert_eq!(drawn.frame(), expected.frame());
    assert!(drawn.frame().contains('*'));
    assert_ne!(drawn.frame(), Canvas::new(50, 60).frame());
}
