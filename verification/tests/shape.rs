use annotator::geometry::{Coordinate, Offset};
use annotator::shape::ShapeElement;

fn c(x: i32, y: i32) -> Coordinate {
    Coordinate::new(x, y)
}

fn line(x0: i32, y0: i32, x1: i32, y1: i32) -> ShapeElement {
    ShapeElement::Line { p0: c(x0, y0), p1: c(x1, y1) }
}

fn rect(x0: i32, y0: i32, x1: i32, y1: i32) -> ShapeElement {
    ShapeElement::Rectangle { c0: c(x0, y0), c1: c(x1, y1) }
}

#[test]
fn new_elements_are_degenerate() {
    assert_eq!(ShapeElement::new_line(c(4, 5)), line(4, 5, 4, 5));
    assert_eq!(ShapeElement::new_rectangle(c(4, 5)), rect(4, 5, 4, 5));
}

#[test]
fn line_vertices_are_its_ends_in_order() {
    assert_eq!(line(9, 8, 1, 2).vertices(), vec![c(9, 8), c(1, 2)]);
}

#[test]
fn rectangle_vertices_are_normalized_corners() {
    let expected = vec![c(0, 0), c(50, 0), c(50, 50), c(0, 50)];
    assert_eq!(rect(0, 0, 50, 50).vertices(), expected);
    assert_eq!(rect(50, 50, 0, 0).vertices(), expected);
    assert_eq!(rect(50, 0, 0, 50).vertices(), expected);
}

#[test]
fn corners_of_rectangle_and_of_line() {
    assert_eq!(rect(50, 0, 0, 50).corners(), Some([c(0, 0), c(50, 0), c(50, 50), c(0, 50)]));
    assert_eq!(line(0, 0, 50, 50).corners(), None);
}

#[test]
fn line_hit_test_is_strictly_within_the_radius() {
    let l = line(0, 0, 100, 0);
    assert!(l.hit_test(c(50, 0)));
    assert!(l.hit_test(c(50, 9)));
    assert!(l.hit_test(c(50, -9)));
    assert!(!l.hit_test(c(50, 10)));
    assert!(!l.hit_test(c(50, -10)));
    assert!(l.hit_test(c(-9, 0)));
    assert!(!l.hit_test(c(-10, 0)));
    assert!(l.hit_test(c(107, 7)));
    assert!(!l.hit_test(c(108, 8)));
}

#[test]
fn line_hit_test_measures_to_the_segment_not_the_line() {
    let l = line(0, 0, 10, 10);
    assert!(l.hit_test(c(5, 5)));
    assert!(!l.hit_test(c(100, 100)));
    assert!(!l.hit_test(c(-20, -20)));
}

#[test]
fn degenerate_line_hit_test() {
    let l = line(5, 5, 5, 5);
    assert!(l.hit_test(c(5, 5)));
    assert!(l.hit_test(c(11, 12)));
    assert!(!l.hit_test(c(11, 13)));
    assert!(!l.hit_test(c(15, 5)));
}

#[test]
fn rectangle_hit_test_inside_border_and_corners() {
    let r = rect(0, 0, 50, 50);
    assert!(r.hit_test(c(25, 25)));
    assert!(r.hit_test(c(0, 25)));
    assert!(r.hit_test(c(50, 50)));
    assert!(r.hit_test(c(-5, -5)));
    assert!(r.hit_test(c(56, 57)));
    assert!(r.hit_test(c(59, 0)));
    assert!(!r.hit_test(c(60, 0)));
    assert!(!r.hit_test(c(25, 55)));
    assert!(!r.hit_test(c(25, -1)));
    assert!(!r.hit_test(c(1000, 1000)));
}

#[test]
fn rectangle_hit_test_ignores_stored_order() {
    let r = rect(50, 0, 0, 50);
    assert!(r.hit_test(c(25, 25)));
    assert!(r.hit_test(c(-5, 55)));
    assert!(!r.hit_test(c(25, 51)));
}

#[test]
fn zero_area_rectangle_is_grabbable() {
    let r = rect(7, 7, 7, 7);
    assert!(r.hit_test(c(7, 7)));
    assert!(r.hit_test(c(13, 13)));
    assert!(!r.hit_test(c(17, 7)));
    assert_eq!(r.grabbed_vertex(c(8, 8)), Some(3));
}

#[test]
fn begin_create_collapses_to_anchor() {
    let mut l = line(1, 2, 3, 4);
    l.begin_create(c(9, 9));
    assert_eq!(l, line(9, 9, 9, 9));
    let mut r = rect(1, 2, 3, 4);
    r.begin_create(c(-1, 0));
    assert_eq!(r, rect(-1, 0, -1, 0));
}

#[test]
fn update_create_stores_anchor_and_current() {
    let mut l = ShapeElement::new_line(c(0, 0));
    l.update_create(c(10, 10), c(2, 30));
    assert_eq!(l, line(10, 10, 2, 30));
    let mut r = ShapeElement::new_rectangle(c(0, 0));
    r.update_create(c(50, 50), c(0, 0));
    assert_eq!(r, rect(50, 50, 0, 0));
    assert_eq!(r.vertices(), vec![c(0, 0), c(50, 0), c(50, 50), c(0, 50)]);
}

#[test]
fn translate_moves_both_points() {
    let mut l = line(0, 0, 10, 20);
    l.translate(Offset { dx: 3, dy: -4 });
    assert_eq!(l, line(3, -4, 13, 16));
    let mut r = rect(50, 0, 0, 50);
    r.translate(Offset { dx: -50, dy: 50 });
    assert_eq!(r, rect(0, 50, -50, 100));
}

#[test]
fn can_translate_checks_both_points() {
    let l = line(0, 0, i32::MAX, 0);
    assert!(l.can_translate(Offset { dx: 0, dy: 5 }));
    assert!(l.can_translate(Offset { dx: -1, dy: 0 }));
    assert!(!l.can_translate(Offset { dx: 1, dy: 0 }));
    let r = rect(0, i32::MIN, 0, 0);
    assert!(!r.can_translate(Offset { dx: 0, dy: -1 }));
    assert!(r.can_translate(Offset { dx: 0, dy: 1 }));
}

#[test]
fn hit_test_is_translation_invariant_on_samples() {
    let shapes = [line(0, 0, 40, 30), rect(10, 60, 80, 20), line(5, 5, 5, 5), rect(0, 0, 0, 0)];
    let points = [c(0, 0), c(20, 15), c(45, 40), c(9, 61), c(90, 20), c(48, 36), c(-10, 0)];
    let deltas = [(0i64, 0i64), (1000, -2000), (-7, 13), (123456, 654321)];
    for shape in shapes {
        for p in points {
            for (dx, dy) in deltas {
                let d = Offset { dx, dy };
                let mut moved = shape;
                moved.translate(d);
                assert_eq!(moved.hit_test(p.translate(d)), shape.hit_test(p));
            }
        }
    }
}

#[test]
fn resize_line_sets_the_named_end() {
    let mut l = line(0, 0, 10, 10);
    l.resize_vertex(0, c(-5, -5));
    assert_eq!(l, line(-5, -5, 10, 10));
    l.resize_vertex(1, c(20, 0));
    assert_eq!(l, line(-5, -5, 20, 0));
}

#[test]
fn resize_with_unknown_index_changes_nothing() {
    let mut l = line(0, 0, 10, 10);
    l.resize_vertex(2, c(99, 99));
    assert_eq!(l, line(0, 0, 10, 10));
    let mut r = rect(0, 0, 10, 10);
    r.resize_vertex(4, c(99, 99));
    assert_eq!(r, rect(0, 0, 10, 10));
    r.resize_vertex(usize::MAX, c(99, 99));
    assert_eq!(r, rect(0, 0, 10, 10));
}

#[test]
fn resize_rectangle_each_corner() {
    let mut r = rect(0, 0, 50, 50);
    r.resize_vertex(0, c(-10, -20));
    assert_eq!(r, rect(-10, -20, 50, 50));
    assert_eq!(r.vertices(), vec![c(-10, -20), c(50, -20), c(50, 50), c(-10, 50)]);

    let mut r = rect(0, 0, 50, 50);
    r.resize_vertex(1, c(70, -5));
    assert_eq!(r.vertices(), vec![c(0, -5), c(70, -5), c(70, 50), c(0, 50)]);

    let mut r = rect(0, 0, 50, 50);
    r.resize_vertex(2, c(80, 80));
    assert_eq!(r, rect(0, 0, 80, 80));
    assert_eq!(r.vertices(), vec![c(0, 0), c(80, 0), c(80, 80), c(0, 80)]);

    let mut r = rect(0, 0, 50, 50);
    r.resize_vertex(3, c(-3, 60));
    assert_eq!(r.vertices(), vec![c(-3, 0), c(50, 0), c(50, 60), c(-3, 60)]);
}

#[test]
fn resize_rectangle_stored_in_reverse_order() {
    // Dragged out from bottom right to top left: c0 holds the bottom right.
    let mut r = rect(50, 50, 0, 0);
    r.resize_vertex(2, c(80, 80));
    assert_eq!(r, rect(80, 80, 0, 0));
    assert_eq!(r.vertices(), vec![c(0, 0), c(80, 0), c(80, 80), c(0, 80)]);
    r.resize_vertex(1, c(90, 10));
    assert_eq!(r.vertices(), vec![c(0, 10), c(90, 10), c(90, 80), c(0, 80)]);
}

#[test]
fn resize_rectangle_past_the_opposite_corner() {
    let mut r = rect(0, 0, 50, 50);
    r.resize_vertex(2, c(-30, -40));
    assert_eq!(r.vertices(), vec![c(-30, -40), c(0, -40), c(0, 0), c(-30, 0)]);
}

#[test]
fn grabbed_vertex_of_line() {
    let l = line(0, 0, 100, 0);
    assert_eq!(l.grabbed_vertex(c(3, 3)), Some(0));
    assert_eq!(l.grabbed_vertex(c(95, -4)), Some(1));
    assert_eq!(l.grabbed_vertex(c(50, 0)), None);
    assert_eq!(l.grabbed_vertex(c(10, 0)), None);
}

#[test]
fn grabbed_vertex_prefers_the_last_of_several() {
    let l = line(0, 0, 4, 0);
    assert_eq!(l.grabbed_vertex(c(2, 0)), Some(1));
    let r = rect(0, 0, 5, 5);
    assert_eq!(r.grabbed_vertex(c(2, 2)), Some(3));
    let wide = rect(0, 0, 100, 5);
    assert_eq!(wide.grabbed_vertex(c(98, 2)), Some(2));
    assert_eq!(wide.grabbed_vertex(c(2, 2)), Some(3));
}

#[test]
fn grabbed_vertex_of_rectangle() {
    let r = rect(0, 0, 50, 50);
    assert_eq!(r.grabbed_vertex(c(1, 1)), Some(0));
    assert_eq!(r.grabbed_vertex(c(48, 3)), Some(1));
    assert_eq!(r.grabbed_vertex(c(48, 48)), Some(2));
    assert_eq!(r.grabbed_vertex(c(-2, 52)), Some(3));
    assert_eq!(r.grabbed_vertex(c(25, 25)), None);
    assert_eq!(r.grabbed_vertex(c(40, 50)), None);
}
