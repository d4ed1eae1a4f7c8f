//! The path builder: a path is the sequence of elements added to it, and
//! emptiness, the current point and the bounding box are functions of that
//! sequence.

use vstd::prelude::*;

use crate::cg::{
    apply_transform, null_rect, tf_deref, tf_ok, AffineTransform, Point, Rect, Size,
};

verus! {

/// How stroked segments join.
#[derive(Clone, Copy, Debug, PartialEq, Eq, Structural)]
pub enum LineJoin {
    Miter,
    Round,
    Bevel,
}

/// How stroked segments end.
#[derive(Clone, Copy, Debug, PartialEq, Eq, Structural)]
pub enum LineCap {
    Butt,
    Round,
    Square,
}

/// The kind of one path element.
#[derive(Clone, Copy, Debug, PartialEq, Eq, Structural)]
pub enum ElementType {
    MoveToPoint,
    AddLineToPoint,
    AddQuadCurveToPoint,
    AddCurveToPoint,
    CloseSubpath,
}

/// One element of a path, with its anchor and control points.
#[derive(Clone, Copy, Debug, PartialEq, Eq, Structural)]
pub enum Element {
    MoveToPoint(Point),
    AddLineToPoint(Point),
    AddQuadCurveToPoint(Point, Point),
    AddCurveToPoint(Point, Point, Point),
    CloseSubpath,
}

impl Element {
    /// The kind of the element.
    pub fn element_type(&self) -> (r: ElementType)
        ensures
            r == match *self {
                Element::MoveToPoint(_) => ElementType::MoveToPoint,
                Element::AddLineToPoint(_) => ElementType::AddLineToPoint,
                Element::AddQuadCurveToPoint(_, _) => ElementType::AddQuadCurveToPoint,
                Element::AddCurveToPoint(_, _, _) => ElementType::AddCurveToPoint,
                Element::CloseSubpath => ElementType::CloseSubpath,
            },
    {
        match self {
            Element::MoveToPoint(_) => ElementType::MoveToPoint,
            Element::AddLineToPoint(_) => ElementType::AddLineToPoint,
            Element::AddQuadCurveToPoint(_, _) => ElementType::AddQuadCurveToPoint,
            Element::AddCurveToPoint(_, _, _) => ElementType::AddCurveToPoint,
            Element::CloseSubpath => ElementType::CloseSubpath,
        }
    }
}

/// An immutable path: the elements added so far.
pub struct Path {
    elements: Vec<Element>,
}

/// A path under construction.
pub struct PathMut {
    pub path: Path,
}

impl View for Path {
    type V = Seq<Element>;

    closed spec fn view(&self) -> Seq<Element> {
        self.elements@
    }
}

/// The points an element mentions, control points included.
pub open spec fn pts_of(e: Element) -> Seq<Point> {
    match e {
        Element::MoveToPoint(p) => seq![p],
        Element::AddLineToPoint(p) => seq![p],
        Element::AddQuadCurveToPoint(c, p) => seq![c, p],
        Element::AddCurveToPoint(c1, c2, p) => seq![c1, c2, p],
        Element::CloseSubpath => Seq::empty(),
    }
}

/// Every point a path mentions, in order, control points included.
pub open spec fn all_pts(s: Seq<Element>) -> Seq<Point>
    decreases s.len(),
{
    if s.len() == 0 {
        Seq::empty()
    } else {
        all_pts(s.drop_last()) + pts_of(s.last())
    }
}

/// The start of the open subpath: the anchor of the last move.
pub open spec fn subpath_start_of(s: Seq<Element>) -> Point
    decreases s.len(),
{
    if s.len() == 0 {
        Point { x: 0, y: 0 }
    } else if s.last() is MoveToPoint {
        s.last()->MoveToPoint_0
    } else {
        subpath_start_of(s.drop_last())
    }
}

/// The current point after the elements so far: the last anchor reached,
/// with a close returning to the start of the subpath it closes; an empty
/// path stands at the origin.
pub open spec fn current_point_of(s: Seq<Element>) -> Point
    decreases s.len(),
{
    if s.len() == 0 {
        Point { x: 0, y: 0 }
    } else {
        match s.last() {
            Element::MoveToPoint(p) => p,
            Element::AddLineToPoint(p) => p,
            Element::AddQuadCurveToPoint(_, p) => p,
            Element::AddCurveToPoint(_, _, p) => p,
            Element::CloseSubpath => subpath_start_of(s.drop_last()),
        }
    }
}

/// Whether a coordinate is small enough for box arithmetic on it to fit
/// the machine word.
pub open spec fn coord_bounded(p: Point) -> bool {
    &&& -0x2000_0000_0000_0000 <= p.x <= 0x2000_0000_0000_0000
    &&& -0x2000_0000_0000_0000 <= p.y <= 0x2000_0000_0000_0000
}

/// The five elements a rectangle adds to a path: a move to its origin,
/// lines along its sides, and a close.
pub open spec fn rect_elements(m: Option<AffineTransform>, rect: Rect) -> Seq<Element> {
    let p0 = Point { x: rect.origin.x, y: rect.origin.y };
    let p1 = Point { x: (rect.origin.x + rect.size.width) as i64, y: rect.origin.y };
    let p2 = Point {
        x: (rect.origin.x + rect.size.width) as i64,
        y: (rect.origin.y + rect.size.height) as i64,
    };
    let p3 = Point { x: rect.origin.x, y: (rect.origin.y + rect.size.height) as i64 };
    seq![
        Element::MoveToPoint(crate::cg::tf_point(m, p0)),
        Element::AddLineToPoint(crate::cg::tf_point(m, p1)),
        Element::AddLineToPoint(crate::cg::tf_point(m, p2)),
        Element::AddLineToPoint(crate::cg::tf_point(m, p3)),
        Element::CloseSubpath,
    ]
}

/// Whether a rectangle's corners can be formed and transformed within the
/// machine word.
pub open spec fn rect_ok(m: Option<AffineTransform>, rect: Rect) -> bool {
    let x1 = rect.origin.x + rect.size.width;
    let y1 = rect.origin.y + rect.size.height;
    &&& i64::MIN <= x1 <= i64::MAX
    &&& i64::MIN <= y1 <= i64::MAX
    &&& tf_ok(m, Point { x: rect.origin.x, y: rect.origin.y })
    &&& tf_ok(m, Point { x: x1 as i64, y: rect.origin.y })
    &&& tf_ok(m, Point { x: x1 as i64, y: y1 as i64 })
    &&& tf_ok(m, Point { x: rect.origin.x, y: y1 as i64 })
}

impl Path {
    /// Whether the path holds no elements.
    pub fn is_empty(&self) -> (r: bool)
        ensures
            r == (self@.len() == 0),
    {
        self.elements.len() == 0
    }

    /// An exact copy of the path.
    pub fn copy(&self) -> (r: Path)
        ensures
            r@ == self@,
    {
        let mut elements: Vec<Element> = Vec::new();
        let mut k: usize = 0;
        while k < self.elements.len()
            invariant
                k <= self@.len(),
                elements@ == self@.subrange(0, k as int),
            decreases self@.len() - k,
        {
            elements.push(self.elements[k]);
            proof {
                assert(elements@ =~= self@.subrange(0, k as int + 1));
            }
            k += 1;
        }
        proof {
            assert(elements@ =~= self@);
        }
        Path { elements }
    }

    /// A mutable copy of the path.
    pub fn copy_mut(&self) -> (r: PathMut)
        ensures
            r.path@ == self@,
    {
        PathMut { path: self.copy() }
    }

    /// Whether two paths hold the same elements.
    pub fn equal(&self, other: &Path) -> (r: bool)
        ensures
            r == (self@ =~= other@),
    {
        if self.elements.len() != other.elements.len() {
            return false;
        }
        let mut k: usize = 0;
        while k < self.elements.len()
            invariant
                k <= self@.len(),
                self@.len() == other@.len(),
                forall|t: int| 0 <= t < k ==> self@[t] == other@[t],
            decreases self@.len() - k,
        {
            if self.elements[k] != other.elements[k] {
                return false;
            }
            k += 1;
        }
        proof {
            assert(self@ =~= other@);
        }
        true
    }

    /// The elements of the path, in order.
    pub fn elements(&self) -> (r: &Vec<Element>)
        ensures
            r@ == self@,
    {
        &self.elements
    }

    /// A path holding one rectangle.
    pub fn with_rect(rect: Rect, transform: Option<&AffineTransform>) -> (r: Path)
        requires
            rect_ok(tf_deref(transform), rect),
        ensures
            r@ == rect_elements(tf_deref(transform), rect),
    {
        let mut p = PathMut::new();
        p.add_rect(transform, rect);
        proof {
            assert(p.path@ =~= rect_elements(tf_deref(transform), rect));
        }
        p.path
    }

    /// The point the path currently stands at.
    pub fn current_point(&self) -> (r: Point)
        ensures
            r == current_point_of(self@),
    {
        let mut cur = Point { x: 0, y: 0 };
        let mut start = Point { x: 0, y: 0 };
        let mut k: usize = 0;
        proof {
            assert(self@.subrange(0, 0) =~= Seq::<Element>::empty());
        }
        while k < self.elements.len()
            invariant
                k <= self@.len(),
                cur == current_point_of(self@.subrange(0, k as int)),
                start == subpath_start_of(self@.subrange(0, k as int)),
            decreases self@.len() - k,
        {
            proof {
                assert(self@.subrange(0, k as int + 1).drop_last() =~= self@.subrange(0, k as int));
                assert(self@.subrange(0, k as int + 1).last() == self@[k as int]);
            }
            match self.elements[k] {
                Element::MoveToPoint(p) => {
                    cur = p;
                    start = p;
                },
                Element::AddLineToPoint(p) => {
                    cur = p;
                },
                Element::AddQuadCurveToPoint(_, p) => {
                    cur = p;
                },
                Element::AddCurveToPoint(_, _, p) => {
                    cur = p;
                },
                Element::CloseSubpath => {
                    cur = start;
                },
            }
            k += 1;
        }
        proof {
            assert(self@.subrange(0, self@.len() as int) =~= self@);
        }
        cur
    }

    /// The smallest axis-aligned box holding every point of the path,
    /// control points included; an empty path reports the null rectangle.
    pub fn bounding_box(&self) -> (r: Rect)
        requires
            forall|k: int| 0 <= k < all_pts(self@).len() ==> coord_bounded(#[trigger] all_pts(
                self@,
            )[k]),
        ensures
            all_pts(self@).len() == 0 ==> r == null_rect(),
            all_pts(self@).len() > 0 ==> {
                let pts = all_pts(self@);
                &&& forall|k: int|
                    0 <= k < pts.len() ==> r.origin.x <= #[trigger] pts[k].x <= r.origin.x
                        + r.size.width && r.origin.y <= pts[k].y <= r.origin.y + r.size.height
                &&& exists|k: int| 0 <= k < pts.len() && #[trigger] pts[k].x == r.origin.x
                &&& exists|k: int| 0 <= k < pts.len() && #[trigger] pts[k].y == r.origin.y
                &&& exists|k: int|
                    0 <= k < pts.len() && #[trigger] pts[k].x == r.origin.x + r.size.width
                &&& exists|k: int|
                    0 <= k < pts.len() && #[trigger] pts[k].y == r.origin.y + r.size.height
            },
    {
        let ghost pts = all_pts(self@);
        let mut flat: Vec<Point> = Vec::new();
        let mut k: usize = 0;
        proof {
            assert(all_pts(self@.subrange(0, 0)) =~= Seq::<Point>::empty());
        }
        while k < self.elements.len()
            invariant
                k <= self@.len(),
                flat@ == all_pts(self@.subrange(0, k as int)),
            decreases self@.len() - k,
        {
            proof {
                assert(self@.subrange(0, k as int + 1).drop_last() =~= self@.subrange(0, k as int));
                assert(self@.subrange(0, k as int + 1).last() == self@[k as int]);
            }
            match self.elements[k] {
                Element::MoveToPoint(p) => {
                    flat.push(p);
                },
                Element::AddLineToPoint(p) => {
                    flat.push(p);
                },
                Element::AddQuadCurveToPoint(c, p) => {
                    flat.push(c);
                    flat.push(p);
                },
                Element::AddCurveToPoint(c1, c2, p) => {
                    flat.push(c1);
                    flat.push(c2);
                    flat.push(p);
                },
                Element::CloseSubpath => {},
            }
            proof {
                assert(flat@ =~= all_pts(self@.subrange(0, k as int + 1)));
            }
            k += 1;
        }
        proof {
            assert(self@.subrange(0, self@.len() as int) =~= self@);
            assert(flat@ == pts);
        }
        if flat.len() == 0 {
            return Rect::null();
        }
        let first = flat[0];
        let mut min_x = first.x;
        let mut min_y = first.y;
        let mut max_x = first.x;
        let mut max_y = first.y;
        let mut t: usize = 1;
        while t < flat.len()
            invariant
                1 <= t <= flat@.len(),
                flat@ == pts,
                forall|j: int| 0 <= j < t ==> min_x <= #[trigger] pts[j].x <= max_x,
                forall|j: int| 0 <= j < t ==> min_y <= #[trigger] pts[j].y <= max_y,
                exists|j: int| 0 <= j < t && #[trigger] pts[j].x == min_x,
                exists|j: int| 0 <= j < t && #[trigger] pts[j].y == min_y,
                exists|j: int| 0 <= j < t && #[trigger] pts[j].x == max_x,
                exists|j: int| 0 <= j < t && #[trigger] pts[j].y == max_y,
            decreases flat@.len() - t,
        {
            let p = flat[t];
            if p.x < min_x {
                min_x = p.x;
            }
            if p.y < min_y {
                min_y = p.y;
            }
            if p.x > max_x {
                max_x = p.x;
            }
            if p.y > max_y {
                max_y = p.y;
            }
            t += 1;
        }
        proof {
            assert(pts[0] == flat@[0]);
            assert(coord_bounded(pts[0]));
            assert(exists|j: int| 0 <= j < pts.len() && #[trigger] pts[j].x == min_x);
            assert(exists|j: int| 0 <= j < pts.len() && #[trigger] pts[j].x == max_x);
            assert(exists|j: int| 0 <= j < pts.len() && #[trigger] pts[j].y == min_y);
            assert(exists|j: int| 0 <= j < pts.len() && #[trigger] pts[j].y == max_y);
        }
        Rect {
            origin: Point { x: min_x, y: min_y },
            size: Size { width: max_x - min_x, height: max_y - min_y },
        }
    }
}

impl PathMut {
    /// An empty path under construction.
    pub fn new() -> (r: PathMut)
        ensures
            r.path@ =~= Seq::<Element>::empty(),
    {
        PathMut { path: Path { elements: Vec::new() } }
    }

    /// Starts a new subpath at a point.
    pub fn move_to_point(&mut self, m: Option<&AffineTransform>, x: i64, y: i64)
        requires
            tf_ok(tf_deref(m), Point { x, y }),
        ensures
            final(self).path@ == old(self).path@.push(
                Element::MoveToPoint(crate::cg::tf_point(tf_deref(m), Point { x, y })),
            ),
    {
        let p = apply_transform(m, Point { x, y });
        self.path.elements.push(Element::MoveToPoint(p));
    }

    /// Adds a straight segment to a point.
    pub fn add_line_to_point(&mut self, m: Option<&AffineTransform>, x: i64, y: i64)
        requires
            tf_ok(tf_deref(m), Point { x, y }),
        ensures
            final(self).path@ == old(self).path@.push(
                Element::AddLineToPoint(crate::cg::tf_point(tf_deref(m), Point { x, y })),
            ),
    {
        let p = apply_transform(m, Point { x, y });
        self.path.elements.push(Element::AddLineToPoint(p));
    }

    /// Adds a quadratic curve through one control point.
    pub fn add_quad_curve_to_point(
        &mut self,
        m: Option<&AffineTransform>,
        cpx: i64,
        cpy: i64,
        x: i64,
        y: i64,
    )
        requires
            tf_ok(tf_deref(m), Point { x: cpx, y: cpy }),
            tf_ok(tf_deref(m), Point { x, y }),
        ensures
            final(self).path@ == old(self).path@.push(
                Element::AddQuadCurveToPoint(
                    crate::cg::tf_point(tf_deref(m), Point { x: cpx, y: cpy }),
                    crate::cg::tf_point(tf_deref(m), Point { x, y }),
                ),
            ),
    {
        let c = apply_transform(m, Point { x: cpx, y: cpy });
        let p = apply_transform(m, Point { x, y });
        self.path.elements.push(Element::AddQuadCurveToPoint(c, p));
    }

    /// Adds a cubic curve through two control points.
    pub fn add_curve_to_point(
        &mut self,
        m: Option<&AffineTransform>,
        cp1x: i64,
        cp1y: i64,
        cp2x: i64,
        cp2y: i64,
        x: i64,
        y: i64,
    )
        requires
            tf_ok(tf_deref(m), Point { x: cp1x, y: cp1y }),
            tf_ok(tf_deref(m), Point { x: cp2x, y: cp2y }),
            tf_ok(tf_deref(m), Point { x, y }),
        ensures
            final(self).path@ == old(self).path@.push(
                Element::AddCurveToPoint(
                    crate::cg::tf_point(tf_deref(m), Point { x: cp1x, y: cp1y }),
                    crate::cg::tf_point(tf_deref(m), Point { x: cp2x, y: cp2y }),
                    crate::cg::tf_point(tf_deref(m), Point { x, y }),
                ),
            ),
    {
        let c1 = apply_transform(m, Point { x: cp1x, y: cp1y });
        let c2 = apply_transform(m, Point { x: cp2x, y: cp2y });
        let p = apply_transform(m, Point { x, y });
        self.path.elements.push(Element::AddCurveToPoint(c1, c2, p));
    }

    /// Closes the open subpath; a path with no elements has none to close
    /// and stays as it is.
    pub fn close_subpath(&mut self)
        ensures
            old(self).path@.len() == 0 ==> final(self).path@ == old(self).path@,
            old(self).path@.len() > 0 ==> final(self).path@ == old(self).path@.push(
                Element::CloseSubpath,
            ),
    {
        if self.path.elements.len() > 0 {
            self.path.elements.push(Element::CloseSubpath);
        }
    }

    /// Adds one rectangle: a move to its origin, lines along its sides and
    /// a close.
    pub fn add_rect(&mut self, m: Option<&AffineTransform>, rect: Rect)
        requires
            rect_ok(tf_deref(m), rect),
        ensures
            final(self).path@ == old(self).path@ + rect_elements(tf_deref(m), rect),
    {
        let x1 = rect.origin.x + rect.size.width;
        let y1 = rect.origin.y + rect.size.height;
        let p0 = apply_transform(m, Point { x: rect.origin.x, y: rect.origin.y });
        let p1 = apply_transform(m, Point { x: x1, y: rect.origin.y });
        let p2 = apply_transform(m, Point { x: x1, y: y1 });
        let p3 = apply_transform(m, Point { x: rect.origin.x, y: y1 });
        self.path.elements.push(Element::MoveToPoint(p0));
        self.path.elements.push(Element::AddLineToPoint(p1));
        self.path.elements.push(Element::AddLineToPoint(p2));
        self.path.elements.push(Element::AddLineToPoint(p3));
        self.path.elements.push(Element::CloseSubpath);
        proof {
            assert(self.path@ =~= old(self).path@ + rect_elements(tf_deref(m), rect));
        }
    }

    /// Adds several rectangles, in order.
    pub fn add_rects(&mut self, m: Option<&AffineTransform>, rects: &Vec<Rect>)
        requires
            forall|k: int| 0 <= k < rects@.len() ==> rect_ok(tf_deref(m), #[trigger] rects@[k]),
        ensures
            final(self).path@ == old(self).path@ + rects_elements(tf_deref(m), rects@),
    {
        let mut k: usize = 0;
        proof {
            assert(rects_elements(tf_deref(m), rects@.subrange(0, 0)) =~= Seq::<Element>::empty());
            assert(self.path@ =~= self.path@ + rects_elements(tf_deref(m), rects@.subrange(0, 0)));
        }
        while k < rects.len()
            invariant
                k <= rects@.len(),
                forall|t: int| 0 <= t < rects@.len() ==> rect_ok(tf_deref(m), #[trigger] rects@[t]),
                self.path@ == old(self).path@ + rects_elements(
                    tf_deref(m),
                    rects@.subrange(0, k as int),
                ),
            decreases rects@.len() - k,
        {
            proof {
                assert(rects@.subrange(0, k as int + 1).drop_last() =~= rects@.subrange(
                    0,
                    k as int,
                ));
                assert(rects@.subrange(0, k as int + 1).last() == rects@[k as int]);
            }
            self.add_rect(m, rects[k]);
            proof {
                assert(self.path@ =~= old(self).path@ + rects_elements(
                    tf_deref(m),
                    rects@.subrange(0, k as int + 1),
                ));
            }
            k += 1;
        }
        proof {
            assert(rects@.subrange(0, rects@.len() as int) =~= rects@);
        }
    }

    /// Adds straight segments through the given points: a move to the
    /// first, then a line to each that follows.  No points add nothing.
    pub fn add_lines(&mut self, m: Option<&AffineTransform>, points: &Vec<Point>)
        requires
            forall|k: int| 0 <= k < points@.len() ==> tf_ok(tf_deref(m), #[trigger] points@[k]),
        ensures
            final(self).path@ == old(self).path@ + lines_elements(tf_deref(m), points@),
    {
        if points.len() == 0 {
            proof {
                assert(self.path@ =~= old(self).path@ + lines_elements(tf_deref(m), points@));
            }
            return ;
        }
        let p0 = apply_transform(m, points[0]);
        self.path.elements.push(Element::MoveToPoint(p0));
        let mut k: usize = 1;
        proof {
            assert(self.path@ =~= old(self).path@ + lines_elements(
                tf_deref(m),
                points@.subrange(0, 1),
            ));
        }
        while k < points.len()
            invariant
                1 <= k <= points@.len(),
                forall|t: int| 0 <= t < points@.len() ==> tf_ok(tf_deref(m), #[trigger] points@[t]),
                self.path@ == old(self).path@ + lines_elements(
                    tf_deref(m),
                    points@.subrange(0, k as int),
                ),
            decreases points@.len() - k,
        {
            proof {
                assert(points@.subrange(0, k as int + 1).drop_last() =~= points@.subrange(
                    0,
                    k as int,
                ));
                assert(points@.subrange(0, k as int + 1).last() == points@[k as int]);
            }
            let p = apply_transform(m, points[k]);
            self.path.elements.push(Element::AddLineToPoint(p));
            proof {
                assert(self.path@ =~= old(self).path@ + lines_elements(
                    tf_deref(m),
                    points@.subrange(0, k as int + 1),
                ));
            }
            k += 1;
        }
        proof {
            assert(points@.subrange(0, points@.len() as int) =~= points@);
        }
    }

    /// Appends every element of another path.
    pub fn add_path(&mut self, m: Option<&AffineTransform>, path2: &Path)
        requires
            m is None,
        ensures
            final(self).path@ == old(self).path@ + path2@,
    {
        let other = path2.elements();
        let mut k: usize = 0;
        proof {
            assert(self.path@ =~= self.path@ + path2@.subrange(0, 0));
        }
        while k < other.len()
            invariant
                k <= path2@.len(),
                other@ == path2@,
                self.path@ == old(self).path@ + path2@.subrange(0, k as int),
            decreases path2@.len() - k,
        {
            self.path.elements.push(other[k]);
            proof {
                assert(self.path@ =~= old(self).path@ + path2@.subrange(0, k as int + 1));
            }
            k += 1;
        }
        proof {
            assert(path2@.subrange(0, path2@.len() as int) =~= path2@);
        }
    }

    /// Whether the path holds no elements.
    pub fn is_empty(&self) -> (r: bool)
        ensures
            r == (self.path@.len() == 0),
    {
        self.path.is_empty()
    }

    /// The point the path currently stands at.
    pub fn current_point(&self) -> (r: Point)
        ensures
            r == current_point_of(self.path@),
    {
        self.path.current_point()
    }

    /// The smallest axis-aligned box holding every point of the path.
    pub fn bounding_box(&self) -> (r: Rect)
        requires
            forall|k: int|
                0 <= k < all_pts(self.path@).len() ==> coord_bounded(
                    #[trigger] all_pts(self.path@)[k],
                ),
        ensures
            all_pts(self.path@).len() == 0 ==> r == null_rect(),
            all_pts(self.path@).len() > 0 ==> {
                let pts = all_pts(self.path@);
                &&& forall|k: int|
                    0 <= k < pts.len() ==> r.origin.x <= #[trigger] pts[k].x <= r.origin.x
                        + r.size.width && r.origin.y <= pts[k].y <= r.origin.y + r.size.height
                &&& exists|k: int| 0 <= k < pts.len() && #[trigger] pts[k].x == r.origin.x
                &&& exists|k: int| 0 <= k < pts.len() && #[trigger] pts[k].y == r.origin.y
                &&& exists|k: int|
                    0 <= k < pts.len() && #[trigger] pts[k].x == r.origin.x + r.size.width
                &&& exists|k: int|
                    0 <= k < pts.len() && #[trigger] pts[k].y == r.origin.y + r.size.height
            },
    {
        self.path.bounding_box()
    }

    /// An immutable copy of the path built so far.
    pub fn copy(&self) -> (r: Path)
        ensures
            r@ == self.path@,
    {
        self.path.copy()
    }
}

/// The elements several rectangles add, in order.
pub open spec fn rects_elements(m: Option<AffineTransform>, rects: Seq<Rect>) -> Seq<Element>
    decreases rects.len(),
{
    if rects.len() == 0 {
        Seq::empty()
    } else {
        rects_elements(m, rects.drop_last()) + rect_elements(m, rects.last())
    }
}

/// The elements a run of straight segments adds: a move to the first
/// point, then a line to each that follows.
pub open spec fn lines_elements(m: Option<AffineTransform>, points: Seq<Point>) -> Seq<Element>
    decreases points.len(),
{
    if points.len() == 0 {
        Seq::empty()
    } else if points.len() == 1 {
        seq![Element::MoveToPoint(crate::cg::tf_point(m, points[0]))]
    } else {
        lines_elements(m, points.drop_last()).push(
            Element::AddLineToPoint(crate::cg::tf_point(m, points.last())),
        )
    }
}

} // verus!
