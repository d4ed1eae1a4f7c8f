//! The path builder: elements, the current point and the bounding box.

use cidre::cg::{self, path::Element, Point, Rect, Size};

#[test]
fn path_move_line_close() {
    // build a mutable path, move to the origin, draw to (10, 10), close
    // the subpath: the path is not empty and its bounding box spans
    // exactly (0, 0) to (10, 10)
    let mut path = cg::PathMut::new();
    path.move_to_point(None, 0, 0);
    path.add_line_to_point(None, 10, 10);
    path.close_subpath();

    assert!(!path.is_empty());
    let bb = path.bounding_box();
    assert_eq!(
        bb,
        Rect { origin: Point { x: 0, y: 0 }, size: Size { width: 10, height: 10 } }
    );
}

#[test]
fn empty_path() {
    let path = cg::PathMut::new();
    assert!(path.is_empty());
    assert_eq!(path.bounding_box(), Rect::null());
    assert_eq!(path.current_point(), Point { x: 0, y: 0 });
}

#[test]
fn current_point_follows_the_pen() {
    let mut path = cg::PathMut::new();
    path.move_to_point(None, 2, 3);
    path.add_line_to_point(None, 8, 9);
    assert_eq!(path.current_point(), Point { x: 8, y: 9 });
    path.close_subpath();
    // closing returns the pen to the start of the subpath
    assert_eq!(path.current_point(), Point { x: 2, y: 3 });
}

#[test]
fn bounding_box_covers_control_points() {
    let mut path = cg::PathMut::new();
    path.move_to_point(None, 0, 0);
    path.add_quad_curve_to_point(None, 50, -20, 10, 10);
    let bb = path.bounding_box();
    assert_eq!(bb.origin, Point { x: 0, y: -20 });
    assert_eq!(bb.size, Size { width: 50, height: 30 });
}

#[test]
fn rect_path() {
    let rect = Rect { origin: Point { x: 1, y: 2 }, size: Size { width: 3, height: 4 } };
    let path = cg::Path::with_rect(rect, None);
    assert!(!path.is_empty());
    assert_eq!(path.elements().len(), 5);
    assert_eq!(path.elements()[0], Element::MoveToPoint(Point { x: 1, y: 2 }));
    assert_eq!(path.elements()[4], Element::CloseSubpath);
    let bb = path.bounding_box();
    assert_eq!(bb, Rect { origin: Point { x: 1, y: 2 }, size: Size { width: 3, height: 4 } });
}

#[test]
fn transforms_apply_to_points() {
    let shift = cg::AffineTransform { a: 1, b: 0, c: 0, d: 1, tx: 100, ty: -1 };
    let mut path = cg::PathMut::new();
    path.move_to_point(Some(&shift), 1, 1);
    assert_eq!(path.current_point(), Point { x: 101, y: 0 });
}

#[test]
fn copies_and_equality() {
    let mut path = cg::PathMut::new();
    path.move_to_point(None, 0, 0);
    path.add_line_to_point(None, 5, 5);
    let frozen = path.copy();
    let again = frozen.copy_mut();
    assert!(frozen.equal(&again.path));
    let mut other = cg::PathMut::new();
    other.move_to_point(None, 0, 0);
    assert!(!frozen.equal(&other.path));
}

#[test]
fn add_lines_and_paths() {
    let mut path = cg::PathMut::new();
    path.add_lines(None, &vec![
        Point { x: 0, y: 0 },
        Point { x: 4, y: 0 },
        Point { x: 4, y: 4 },
    ]);
    assert_eq!(path.copy().elements().len(), 3);
    let mut combined = cg::PathMut::new();
    combined.add_path(None, &path.copy());
    assert_eq!(combined.copy().elements().len(), 3);
}

#[test]
fn element_types() {
    let mut path = cg::PathMut::new();
    path.move_to_point(None, 0, 0);
    path.add_curve_to_point(None, 1, 1, 2, 2, 3, 3);
    let frozen = path.copy();
    assert_eq!(frozen.elements()[0].element_type(), cg::ElementType::MoveToPoint);
    assert_eq!(frozen.elements()[1].element_type(), cg::ElementType::AddCurveToPoint);
}

#[test]
fn path_basics() {
    let path = cg::Path::with_rect(Rect::zero(), None);
    assert!(!path.is_empty());
    let copy = path.copy();
    assert!(path.equal(&copy));
}
