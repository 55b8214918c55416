use wirecube::geometry::{corner_signs, edges, plane, radius_center, sign_factor, Axis, Side};

fn corners(cx: f64, cy: f64, cz: f64, size: f64) -> Vec<(f64, f64, f64)> {
    let half = size / 2.0;
    corner_signs()
        .iter()
        .map(|s| {
            (
                cx + s.0 as f64 * half,
                cy + s.1 as f64 * half,
                cz + s.2 as f64 * half,
            )
        })
        .collect()
}

#[test]
fn create_centered_at_twenty_with_size_thirty() {
    let nodes = corners(20.0, 20.0, 20.0, 30.0);
    let expected = vec![
        (5.0, 5.0, 5.0),
        (35.0, 5.0, 5.0),
        (35.0, 35.0, 5.0),
        (5.0, 35.0, 5.0),
        (5.0, 5.0, 35.0),
        (5.0, 35.0, 35.0),
        (35.0, 35.0, 35.0),
        (35.0, 5.0, 35.0),
    ];
    assert_eq!(nodes, expected);
}

#[test]
fn create_small_cube_has_half_unit_corners() {
    let nodes = corners(20.0, 20.0, 20.0, 5.0);
    assert_eq!(nodes[0], (17.5, 17.5, 17.5));
    assert_eq!(nodes[6], (22.5, 22.5, 22.5));
}

#[test]
fn negative_size_mirrors_the_cube() {
    let nodes = corners(0.0, 0.0, 0.0, -2.0);
    assert_eq!(nodes[0], (1.0, 1.0, 1.0));
    assert_eq!(nodes[6], (-1.0, -1.0, -1.0));
}

#[test]
fn edge_list_is_the_standard_wireframe() {
    let expected = vec![
        (0, 1),
        (1, 2),
        (2, 3),
        (3, 0),
        (0, 4),
        (4, 5),
        (5, 6),
        (6, 7),
        (4, 7),
        (7, 1),
        (2, 6),
        (5, 3),
    ];
    assert_eq!(edges(), expected);
}

#[test]
fn every_edge_joins_corners_differing_on_one_axis() {
    let signs = corner_signs();
    assert_eq!(signs.len(), 8);
    for (a, b) in edges() {
        assert!(a < 8 && b < 8);
        let s = signs[a];
        let t = signs[b];
        let changes = (s.0 != t.0) as u32 + (s.1 != t.1) as u32 + (s.2 != t.2) as u32;
        assert_eq!(changes, 1);
    }
}

#[test]
fn rotation_planes() {
    assert_eq!(plane(Axis::X), (1, 2));
    assert_eq!(plane(Axis::Y), (0, 2));
    assert_eq!(plane(Axis::Z), (0, 1));
}

#[test]
fn radius_uses_xy_center_pair_for_y_unless_corrected() {
    assert_eq!(radius_center(Axis::Y, false), (0, 1));
    assert_eq!(radius_center(Axis::Y, true), (0, 2));
    assert_eq!(radius_center(Axis::X, false), (1, 2));
    assert_eq!(radius_center(Axis::Z, false), (0, 1));
}

#[test]
fn sign_factor_about_x_and_y_is_positive_only_above() {
    for axis in [Axis::X, Axis::Y] {
        assert_eq!(sign_factor(axis, Side::Above), 1);
        assert_eq!(sign_factor(axis, Side::Level), -1);
        assert_eq!(sign_factor(axis, Side::Below), -1);
        assert_eq!(sign_factor(axis, Side::Unordered), -1);
    }
}

#[test]
fn sign_factor_about_z_is_negative_only_below() {
    assert_eq!(sign_factor(Axis::Z, Side::Below), -1);
    assert_eq!(sign_factor(Axis::Z, Side::Level), 1);
    assert_eq!(sign_factor(Axis::Z, Side::Above), 1);
    assert_eq!(sign_factor(Axis::Z, Side::Unordered), 1);
}
