//! The drawable elements: lines and rectangles, with their geometry and the
//! operations that edit them.

use vstd::prelude::*;
use crate::geometry::{
    box_corners, distance_point_to_segment, in_box, normalize_box, point_in_box, points_of,
    segment_distance_sq, Coordinate, Offset, Point, VERTEX_RADIUS,
};

verus! {

/// The mathematical model of a [`ShapeElement`].
pub enum Shape {
    /// A segment between two control points.
    Line { p0: Point, p1: Point },
    /// An axis-aligned rectangle given by two opposite corners in any order.
    Rectangle { c0: Point, c1: Point },
}

impl Shape {
    /// The control points, in the order of their indices: the two ends of a
    /// line; the four corners of a rectangle, top left first, then clockwise.
    pub open spec fn vertices(self) -> Seq<Point> {
        match self {
            Shape::Line { p0, p1 } => seq![p0, p1],
            Shape::Rectangle { c0, c1 } => box_corners(c0, c1),
        }
    }

    /// Whether the pointer at `p` touches the shape: a line from less than
    /// [`VERTEX_RADIUS`] away; a rectangle inside, on its border, or from
    /// less than [`VERTEX_RADIUS`] away from a corner.
    pub open spec fn hit(self, p: Point) -> bool {
        match self {
            Shape::Line { p0, p1 } => {
                segment_distance_sq(p, p0, p1).below_square_of(VERTEX_RADIUS as int)
            },
            Shape::Rectangle { c0, c1 } => {
                let c = box_corners(c0, c1);
                ||| in_box(p, c[0], c[2])
                ||| p.near(c[0])
                ||| p.near(c[1])
                ||| p.near(c[2])
                ||| p.near(c[3])
            },
        }
    }

    /// The shape of the same kind with both defining points at `anchor`.
    pub open spec fn collapse(self, anchor: Point) -> Shape {
        match self {
            Shape::Line { .. } => Shape::Line { p0: anchor, p1: anchor },
            Shape::Rectangle { .. } => Shape::Rectangle { c0: anchor, c1: anchor },
        }
    }

    /// The shape of the same kind that stretches from `anchor` to `current`.
    pub open spec fn stretch(self, anchor: Point, current: Point) -> Shape {
        match self {
            Shape::Line { .. } => Shape::Line { p0: anchor, p1: current },
            Shape::Rectangle { .. } => Shape::Rectangle { c0: anchor, c1: current },
        }
    }

    /// The shape displaced by `d`.
    pub open spec fn translate(self, d: Point) -> Shape {
        match self {
            Shape::Line { p0, p1 } => Shape::Line { p0: p0.plus(d), p1: p1.plus(d) },
            Shape::Rectangle { c0, c1 } => Shape::Rectangle { c0: c0.plus(d), c1: c1.plus(d) },
        }
    }

    /// The shape after its control point `index` was dragged to `q`.
    ///
    /// An end of a line is replaced. A corner of a rectangle takes, on each
    /// axis, the place of the stored coordinate that lies on the corner's
    /// side; where both stored coordinates are equal, the first stored point
    /// counts as left and top. An index that names no control point changes
    /// nothing.
    pub open spec fn resize(self, index: int, q: Point) -> Shape {
        match self {
            Shape::Line { p0, p1 } => {
                if index == 0 {
                    Shape::Line { p0: q, p1 }
                } else if index == 1 {
                    Shape::Line { p0, p1: q }
                } else {
                    self
                }
            },
            Shape::Rectangle { c0, c1 } => {
                if 0 <= index < 4 {
                    let right = index == 1 || index == 2;
                    let bottom = index == 2 || index == 3;
                    let x_in_c0 = (c0.x <= c1.x) != right;
                    let y_in_c0 = (c0.y <= c1.y) != bottom;
                    Shape::Rectangle {
                        c0: Point {
                            x: if x_in_c0 { q.x } else { c0.x },
                            y: if y_in_c0 { q.y } else { c0.y },
                        },
                        c1: Point {
                            x: if x_in_c0 { c1.x } else { q.x },
                            y: if y_in_c0 { c1.y } else { q.y },
                        },
                    }
                } else {
                    self
                }
            },
        }
    }

    /// The index of the control point that a press at `p` grabs: the last of
    /// those that lie less than [`VERTEX_RADIUS`] away from `p`.
    pub open spec fn grabbed_vertex(self, p: Point) -> Option<int> {
        let v = self.vertices();
        if v.len() == 4 && p.near(v[3]) {
            Some(3)
        } else if v.len() == 4 && p.near(v[2]) {
            Some(2)
        } else if p.near(v[1]) {
            Some(1)
        } else if p.near(v[0]) {
            Some(0)
        } else {
            None
        }
    }

    /// Whether both defining points can be stored.
    pub open spec fn representable(self) -> bool {
        match self {
            Shape::Line { p0, p1 } => p0.representable() && p1.representable(),
            Shape::Rectangle { c0, c1 } => c0.representable() && c1.representable(),
        }
    }
}

/// A drawable element.
#[derive(Clone, Copy, Debug, PartialEq, Eq, Structural)]
pub enum ShapeElement {
    /// A segment between two control points.
    Line { p0: Coordinate, p1: Coordinate },
    /// An axis-aligned rectangle given by two opposite corners in any order.
    Rectangle { c0: Coordinate, c1: Coordinate },
}

impl View for ShapeElement {
    type V = Shape;

    open spec fn view(&self) -> Shape {
        match *self {
            ShapeElement::Line { p0, p1 } => Shape::Line { p0: p0@, p1: p1@ },
            ShapeElement::Rectangle { c0, c1 } => Shape::Rectangle { c0: c0@, c1: c1@ },
        }
    }
}

impl ShapeElement {
    /// A line of length zero at `anchor`.
    pub fn new_line(anchor: Coordinate) -> (e: ShapeElement)
        ensures
            e@ == (Shape::Line { p0: anchor@, p1: anchor@ }),
    {
        ShapeElement::Line { p0: anchor, p1: anchor }
    }

    /// A rectangle of area zero at `anchor`.
    pub fn new_rectangle(anchor: Coordinate) -> (e: ShapeElement)
        ensures
            e@ == (Shape::Rectangle { c0: anchor@, c1: anchor@ }),
    {
        ShapeElement::Rectangle { c0: anchor, c1: anchor }
    }

    /// The control points in the order of their indices.
    pub fn vertices(&self) -> (v: Vec<Coordinate>)
        ensures
            points_of(v@) == self@.vertices(),
            v@.len() == self@.vertices().len(),
            forall|i: int| 0 <= i < v@.len() ==> (#[trigger] v@[i])@ == self@.vertices()[i],
    {
        let mut v: Vec<Coordinate> = Vec::new();
        match *self {
            ShapeElement::Line { p0, p1 } => {
                v.push(p0);
                v.push(p1);
            },
            ShapeElement::Rectangle { c0, c1 } => {
                let c: [Coordinate; 4] = normalize_box(c0, c1);
                v.push(c[0]);
                v.push(c[1]);
                v.push(c[2]);
                v.push(c[3]);
            },
        }
        assert(points_of(v@) =~= self@.vertices());
        assert forall|i: int| 0 <= i < v@.len() implies (#[trigger] v@[i])@
            == self@.vertices()[i] by {
            assert(points_of(v@)[i] == v@[i]@);
        }
        v
    }

    /// The corners of a rectangle: top left, top right, bottom right, bottom
    /// left, whatever the order of the stored corners. A line has none.
    pub fn corners(&self) -> (r: Option<[Coordinate; 4]>)
        ensures
            self@ is Line ==> r is None,
            self@ matches Shape::Rectangle { c0, c1 } ==> {
                &&& r is Some
                &&& points_of(r.unwrap()@) == box_corners(c0, c1)
                &&& forall|i: int|
                    0 <= i < 4 ==> (#[trigger] r.unwrap()@[i])@ == box_corners(c0, c1)[i]
            },
    {
        match *self {
            ShapeElement::Line { .. } => None,
            ShapeElement::Rectangle { c0, c1 } => {
                Some(normalize_box(c0, c1))
            },
        }
    }

    /// Whether the pointer at `p` touches the element.
    pub fn hit_test(&self, p: Coordinate) -> (hit: bool)
        ensures
            hit == self@.hit(p@),
    {
        match *self {
            ShapeElement::Line { p0, p1 } => {
                distance_point_to_segment(p, p0, p1).is_below(VERTEX_RADIUS)
            },
            ShapeElement::Rectangle { c0, c1 } => {
                let c: [Coordinate; 4] = normalize_box(c0, c1);
                point_in_box(p, c[0], c[2])
                    || p.is_near(c[0])
                    || p.is_near(c[1])
                    || p.is_near(c[2])
                    || p.is_near(c[3])
            },
        }
    }

    /// Puts both defining points at `anchor`.
    pub fn begin_create(&mut self, anchor: Coordinate)
        ensures
            final(self)@ == old(self)@.collapse(anchor@),
    {
        match *self {
            ShapeElement::Line { .. } => {
                *self = ShapeElement::Line { p0: anchor, p1: anchor };
            },
            ShapeElement::Rectangle { .. } => {
                *self = ShapeElement::Rectangle { c0: anchor, c1: anchor };
            },
        }
    }

    /// Stretches the element from `anchor` to `current`. The corners of a
    /// rectangle are stored as given, in the order of the drag.
    pub fn update_create(&mut self, anchor: Coordinate, current: Coordinate)
        ensures
            final(self)@ == old(self)@.stretch(anchor@, current@),
    {
        match *self {
            ShapeElement::Line { .. } => {
                *self = ShapeElement::Line { p0: anchor, p1: current };
            },
            ShapeElement::Rectangle { .. } => {
                *self = ShapeElement::Rectangle { c0: anchor, c1: current };
            },
        }
    }

    /// Whether the element displaced by `delta` can still be stored.
    pub fn can_translate(&self, delta: Offset) -> (fits: bool)
        ensures
            fits == self@.translate(delta@).representable(),
    {
        match *self {
            ShapeElement::Line { p0, p1 } => p0.can_translate(delta) && p1.can_translate(delta),
            ShapeElement::Rectangle { c0, c1 } => {
                c0.can_translate(delta) && c1.can_translate(delta)
            },
        }
    }

    /// Displaces the element by `delta`.
    pub fn translate(&mut self, delta: Offset)
        requires
            old(self)@.translate(delta@).representable(),
        ensures
            final(self)@ == old(self)@.translate(delta@),
    {
        match *self {
            ShapeElement::Line { p0, p1 } => {
                *self = ShapeElement::Line { p0: p0.translate(delta), p1: p1.translate(delta) };
            },
            ShapeElement::Rectangle { c0, c1 } => {
                *self = ShapeElement::Rectangle {
                    c0: c0.translate(delta),
                    c1: c1.translate(delta),
                };
            },
        }
    }

    /// Drags the control point `index` to `new_pos`. Of a rectangle, the
    /// opposite corner stays where it is, and the corners are again those of
    /// the box spanned by it and `new_pos`. An index that names no control
    /// point changes nothing.
    pub fn resize_vertex(&mut self, index: usize, new_pos: Coordinate)
        ensures
            final(self)@ == old(self)@.resize(index as int, new_pos@),
            old(self)@ is Rectangle && index < 4 ==> final(self)@.vertices() == box_corners(
                new_pos@,
                old(self)@.vertices()[(index + 2) % 4],
            ),
    {
        match *self {
            ShapeElement::Line { p0, p1 } => {
                if index == 0 {
                    *self = ShapeElement::Line { p0: new_pos, p1 };
                } else if index == 1 {
                    *self = ShapeElement::Line { p0, p1: new_pos };
                }
            },
            ShapeElement::Rectangle { c0, c1 } => {
                if index < 4 {
                    let right: bool = index == 1 || index == 2;
                    let bottom: bool = index == 2 || index == 3;
                    let x_in_c0: bool = (c0.x <= c1.x) != right;
                    let y_in_c0: bool = (c0.y <= c1.y) != bottom;
                    *self = ShapeElement::Rectangle {
                        c0: Coordinate {
                            x: if x_in_c0 { new_pos.x } else { c0.x },
                            y: if y_in_c0 { new_pos.y } else { c0.y },
                        },
                        c1: Coordinate {
                            x: if x_in_c0 { c1.x } else { new_pos.x },
                            y: if y_in_c0 { c1.y } else { new_pos.y },
                        },
                    };
                    assert(self@.vertices() =~= box_corners(
                        new_pos@,
                        old(self)@.vertices()[(index + 2) % 4],
                    ));
                }
            },
        }
    }

    /// The control point that a press at `p` grabs, if `p` lies less than
    /// [`VERTEX_RADIUS`] away from one: the last such in the order of
    /// [`ShapeElement::vertices`].
    pub fn grabbed_vertex(&self, p: Coordinate) -> (r: Option<usize>)
        ensures
            r matches Some(i) ==> self@.grabbed_vertex(p@) == Some(i as int),
            r is None ==> self@.grabbed_vertex(p@) is None,
    {
        let v: Vec<Coordinate> = self.vertices();
        let mut i: usize = v.len();
        while i > 0
            invariant
                i <= v.len(),
                v@.len() == self@.vertices().len(),
                v@.len() == 2 || v@.len() == 4,
                forall|j: int| 0 <= j < v@.len() ==> (#[trigger] v@[j])@ == self@.vertices()[j],
                forall|j: int| i <= j < v@.len() ==> !p@.near(#[trigger] self@.vertices()[j]),
            decreases i,
        {
            i = i - 1;
            if p.is_near(v[i]) {
                return Some(i);
            }
        }
        None
    }
}

} // verus!
