//! What holds of the engine as a whole: laws that relate several operations,
//! stated over the mathematical models and proved from their definitions.

use vstd::prelude::*;
use crate::geometry::{box_corners, Point, VERTEX_RADIUS};
use crate::machine::Session;
use crate::picking::{last_index_where, lemma_last_index_where, lemma_last_index_where_holds};
use crate::shape::Shape;
use crate::store::{topmost_hit, without};

verus! {

/// The corners of a box are normalized whatever the order of the two corners
/// that span it: the top left corner is not to the right of nor below the
/// bottom right one, and neighbouring corners agree on their common side.
pub proof fn lemma_box_corners_normalized(c0: Point, c1: Point)
    ensures
        box_corners(c0, c1).len() == 4,
        box_corners(c0, c1)[0].x <= box_corners(c0, c1)[2].x,
        box_corners(c0, c1)[0].y <= box_corners(c0, c1)[2].y,
        box_corners(c0, c1)[1].x == box_corners(c0, c1)[2].x,
        box_corners(c0, c1)[1].y == box_corners(c0, c1)[0].y,
        box_corners(c0, c1)[3].x == box_corners(c0, c1)[0].x,
        box_corners(c0, c1)[3].y == box_corners(c0, c1)[2].y,
        box_corners(c0, c1) == box_corners(c1, c0),
{
    assert(box_corners(c0, c1) =~= box_corners(c1, c0));
}

/// Hit-testing does not depend on where in the plane a shape lies: a shape
/// displaced by `d` is touched at `p` displaced by `d` exactly if the shape
/// is touched at `p`.
pub proof fn lemma_hit_test_translation_invariant(e: Shape, p: Point, d: Point)
    ensures
        e.translate(d).hit(p.plus(d)) == e.hit(p),
{
    match e {
        Shape::Line { p0, p1 } => {
            assert(p.plus(d).minus(p0.plus(d)) == p.minus(p0));
            assert(p1.plus(d).minus(p0.plus(d)) == p1.minus(p0));
            assert(p.plus(d).minus(p1.plus(d)) == p.minus(p1));
        },
        Shape::Rectangle { c0, c1 } => {
            let c = box_corners(c0, c1);
            let t = box_corners(c0.plus(d), c1.plus(d));
            assert(p.plus(d).minus(t[0]) == p.minus(c[0]));
            assert(p.plus(d).minus(t[1]) == p.minus(c[1]));
            assert(p.plus(d).minus(t[2]) == p.minus(c[2]));
            assert(p.plus(d).minus(t[3]) == p.minus(c[3]));
        },
    }
}

/// The topmost shape wins: where the pointer touches the shapes at `i` and
/// at a later index `j`, the pick is `j` or a shape above it, and it is `j`
/// where no shape above `j` is touched.
pub proof fn lemma_topmost_wins(shapes: Seq<Shape>, p: Point, i: int, j: int)
    requires
        0 <= i < j < shapes.len(),
        shapes[i].hit(p),
        shapes[j].hit(p),
    ensures
        topmost_hit(shapes, p) matches Some(k) && j <= k < shapes.len() && shapes[k].hit(p),
        (forall|l: int| j < l < shapes.len() ==> !(#[trigger] shapes[l]).hit(p))
            ==> topmost_hit(shapes, p) == Some(j),
{
    lemma_last_index_where_holds(shapes, |s: Shape| s.hit(p));
}

/// The pick is a touched shape with no touched shape above it; and nothing
/// is picked exactly where no shape is touched.
pub proof fn lemma_topmost_hit(shapes: Seq<Shape>, p: Point)
    ensures
        topmost_hit(shapes, p) matches Some(k) ==> 0 <= k < shapes.len() && shapes[k].hit(p)
            && forall|l: int| k < l < shapes.len() ==> !(#[trigger] shapes[l]).hit(p),
        topmost_hit(shapes, p) is None <==> forall|l: int|
            0 <= l < shapes.len() ==> !(#[trigger] shapes[l]).hit(p),
{
    lemma_last_index_where_holds(shapes, |s: Shape| s.hit(p));
}

/// Removing at an index that names no shape leaves the shapes as they are.
pub proof fn lemma_remove_out_of_range(shapes: Seq<Shape>, index: int)
    requires
        !(0 <= index < shapes.len()),
    ensures
        without(shapes, index) == shapes,
        without(shapes, index).len() == shapes.len(),
{
}

/// A press while deleting with nothing hovered removes nothing: the shapes
/// stay as they are, and the machine goes on waiting for the press that
/// deletes.
pub proof fn lemma_delete_without_hover(s: Session, p: Point)
    requires
        s.status is Deleting,
        s.hover_index is None,
    ensures
        s.pointer_down(p).store == s.store,
        s.pointer_down(p).status is Deleting,
{
}

/// A press while deleting over a shape removes exactly that shape and ends
/// the deletion.
pub proof fn lemma_delete_hovered(s: Session, p: Point, i: int)
    requires
        s.wf(),
        s.status is Deleting,
        s.hover_index == Some(i),
    ensures
        s.pointer_down(p).store == s.store.remove(i),
        s.pointer_down(p).store.len() == s.store.len() - 1,
        s.pointer_down(p).status is Idle,
        s.pointer_down(p).hover_index is None,
{
}

/// Shapes come and go in one way each: a creation tool adds one shape on
/// top, a press while deleting over a shape removes one, and nothing else
/// changes how many there are.
pub proof fn lemma_store_length(s: Session, p: Point)
    requires
        s.wf(),
    ensures
        s.select_line_tool().store.len() == s.store.len() + 1,
        s.select_rect_tool().store.len() == s.store.len() + 1,
        s.select_line_tool().store.drop_last() == s.store,
        s.select_rect_tool().store.drop_last() == s.store,
        s.select_remove_tool().store == s.store,
        s.pointer_down(p).store.len() == if s.status is Deleting && s.hover_index is Some {
            s.store.len() - 1
        } else {
            s.store.len() as int
        },
        !(s.status is Deleting && s.hover_index is Some) ==> s.pointer_down(p).store == s.store,
        s.pointer_drag(p).store.len() == s.store.len(),
        s.pointer_up(p).store == s.store,
        s.pointer_move(p).store == s.store,
{
    assert(s.select_line_tool().store.drop_last() =~= s.store);
    assert(s.select_rect_tool().store.drop_last() =~= s.store);
}

/// Shapes without extent can still be picked: a line of length zero and a
/// rectangle of area zero are touched exactly from less than the vertex
/// radius away from their one point.
pub proof fn lemma_degenerate_shapes(at: Point, p: Point)
    ensures
        (Shape::Line { p0: at, p1: at }).hit(p) == p.near(at),
        (Shape::Rectangle { c0: at, c1: at }).hit(p) == p.near(at),
{
    let u = p.minus(at);
    let d = at.minus(at);
    assert(u.dot(d) == 0) by (nonlinear_arith)
        requires
            d.x == 0,
            d.y == 0,
            u.dot(d) == u.x * d.x + u.y * d.y,
    ;
    assert(VERTEX_RADIUS * VERTEX_RADIUS * 1 == VERTEX_RADIUS * VERTEX_RADIUS);
    assert(u.norm_sq() < 100 ==> -10 < u.x < 10 && -10 < u.y < 10) by (nonlinear_arith)
        requires
            u.norm_sq() == u.x * u.x + u.y * u.y,
    ;
    if p == at {
        assert(p.minus(at).norm_sq() == 0) by (nonlinear_arith)
            requires
                p.minus(at).x == 0,
                p.minus(at).y == 0,
                p.minus(at).norm_sq()
                    == p.minus(at).x * p.minus(at).x + p.minus(at).y * p.minus(at).y,
        ;
    }
}

/// Every command and every pointer event keeps the invariant of the
/// machine.
pub proof fn lemma_transitions_keep_invariant(s: Session, p: Point)
    requires
        s.wf(),
    ensures
        Session::initial().wf(),
        s.select_line_tool().wf(),
        s.select_rect_tool().wf(),
        s.select_remove_tool().wf(),
        s.pointer_down(p).wf(),
        s.pointer_drag(p).wf(),
        s.pointer_up(p).wf(),
        s.pointer_move(p).wf(),
{
    lemma_last_index_where_holds(s.store, |e: Shape| e.hit(p));
}

/// The grabbed control point is the last of those near the pointer, by the
/// rule that also picks the topmost shape.
pub proof fn lemma_grabbed_vertex_is_last_near(e: Shape, p: Point)
    ensures
        e.grabbed_vertex(p) == last_index_where(e.vertices(), |v: Point| p.near(v)),
{
    lemma_last_index_where(e.vertices(), |v: Point| p.near(v), e.grabbed_vertex(p));
}

/// While a shape is being created, drags change nothing but the topmost
/// shape, which stretches from the anchor to the last drag.
proof fn lemma_creation_drags(s: Session, points: Seq<Point>)
    requires
        s.status is Creating,
        s.store.len() > 0,
    ensures
        s.drag_through(points).status is Creating,
        s.drag_through(points).anchor == s.anchor,
        s.drag_through(points).store.len() == s.store.len(),
        s.drag_through(points).store.drop_last() == s.store.drop_last(),
        points.len() > 0 ==> s.drag_through(points).store.last()
            == s.store.last().stretch(s.anchor, points.last()),
        points.len() == 0 ==> s.drag_through(points).store.last() == s.store.last(),
    decreases points.len(),
{
    if points.len() > 0 {
        let before = s.drag_through(points.drop_last());
        lemma_creation_drags(s, points.drop_last());
        let after = before.pointer_drag(points.last());
        assert(after.store.drop_last() =~= before.store.drop_last());
        assert(before.store.last().stretch(s.anchor, points.last())
            == s.store.last().stretch(s.anchor, points.last()));
    }
}

/// Creating a line: after the line tool was selected, a press at `a` and
/// drags that end at `f` leave a new line on top whose control points are
/// `a` and `f`, and the shapes below it as they were. The release that
/// follows changes no shape.
pub proof fn lemma_created_line(s: Session, a: Point, drags: Seq<Point>, release: Point)
    requires
        drags.len() > 0,
    ensures
        ({
            let end = s.select_line_tool().pointer_down(a).drag_through(drags);
            &&& end.store.len() == s.store.len() + 1
            &&& end.store.drop_last() == s.store
            &&& end.store.last() == (Shape::Line { p0: a, p1: drags.last() })
            &&& end.store.last().vertices() == seq![a, drags.last()]
            &&& end.pointer_up(release).store == end.store
            &&& end.pointer_up(release).status is Idle
        }),
{
    let pressed = s.select_line_tool().pointer_down(a);
    lemma_creation_drags(pressed, drags);
    assert(pressed.store.drop_last() =~= s.store);
}

/// Creating a rectangle: after the rectangle tool was selected, a press at
/// `a` and drags that end at `f` leave a new rectangle on top whose corners
/// are those of the box spanned by `a` and `f`, in whatever direction the
/// drag went.
pub proof fn lemma_created_rectangle(s: Session, a: Point, drags: Seq<Point>, release: Point)
    requires
        drags.len() > 0,
    ensures
        ({
            let end = s.select_rect_tool().pointer_down(a).drag_through(drags);
            &&& end.store.len() == s.store.len() + 1
            &&& end.store.drop_last() == s.store
            &&& end.store.last() == (Shape::Rectangle { c0: a, c1: drags.last() })
            &&& end.store.last().vertices() == box_corners(a, drags.last())
            &&& end.pointer_up(release).store == end.store
            &&& end.pointer_up(release).status is Idle
        }),
{
    let pressed = s.select_rect_tool().pointer_down(a);
    lemma_creation_drags(pressed, drags);
    assert(pressed.store.drop_last() =~= s.store);
}

/// While a move is in progress, drags change nothing but the hovered shape.
proof fn lemma_move_drags(s: Session, i: int, points: Seq<Point>)
    requires
        s.status is Idle,
        s.snapshot is Some,
        s.hover_index == Some(i),
        0 <= i < s.store.len(),
    ensures
        s.drag_through(points).status is Idle,
        s.drag_through(points).anchor == s.anchor,
        s.drag_through(points).snapshot == s.snapshot,
        s.drag_through(points).hover_index == s.hover_index,
        s.drag_through(points).store.len() == s.store.len(),
        forall|j: int|
            0 <= j < s.store.len() && j != i
                ==> #[trigger] s.drag_through(points).store[j] == s.store[j],
    decreases points.len(),
{
    if points.len() > 0 {
        lemma_move_drags(s, i, points.drop_last());
    }
}

/// A move goes by the snapshot, not by accumulation: after a press at `a`
/// on a shape at rest, away from its control points, and drags that end at
/// `f`, the shape is the one from before the press displaced by the way
/// from `a` to `f`, whatever the drags in between, and every other shape
/// is as it was, provided that the displaced shape can be stored.
pub proof fn lemma_move_uses_snapshot(s: Session, i: int, a: Point, drags: Seq<Point>)
    requires
        s.wf(),
        s.status is Idle,
        s.hover_index == Some(i),
        s.store[i].grabbed_vertex(a) is None,
        drags.len() > 0,
        s.store[i].translate(drags.last().minus(a)).representable(),
    ensures
        s.pointer_down(a).drag_through(drags).store
            == s.store.update(i, s.store[i].translate(drags.last().minus(a))),
{
    let pressed = s.pointer_down(a);
    lemma_move_drags(pressed, i, drags.drop_last());
    let before = pressed.drag_through(drags.drop_last());
    let end = before.pointer_drag(drags.last());
    assert(end.store =~= s.store.update(i, s.store[i].translate(drags.last().minus(a))));
}

/// A resize goes by the grabbed control point: a press at `a` on a shape at
/// rest, near one of its control points, grabs that control point; a drag to
/// `q` then carries it to `q` and changes no other shape; and the release
/// lets it go.
pub proof fn lemma_resize_gesture(s: Session, i: int, v: int, a: Point, q: Point, release: Point)
    requires
        s.wf(),
        s.status is Idle,
        s.hover_index == Some(i),
        s.store[i].grabbed_vertex(a) == Some(v),
    ensures
        ({
            let pressed = s.pointer_down(a);
            let dragged = pressed.pointer_drag(q);
            let released = dragged.pointer_up(release);
            &&& pressed.status is Resizing
            &&& pressed.drag_vertex_index == Some(v)
            &&& pressed.snapshot is None
            &&& pressed.store == s.store
            &&& dragged.store == s.store.update(i, s.store[i].resize(v, q))
            &&& released.store == dragged.store
            &&& released.status is Idle
            &&& released.drag_vertex_index is None
        }),
{
}

/// Dragging a corner of a rectangle: the opposite corner stays where it is,
/// and the corners are those of the box spanned by it and the new position.
/// Where the new position stays on its own side of the opposite corner, the
/// dragged corner is at the new position.
pub proof fn lemma_resize_rectangle(c0: Point, c1: Point, index: int, q: Point)
    requires
        0 <= index < 4,
    ensures
        ({
            let before = Shape::Rectangle { c0, c1 };
            let opposite = before.vertices()[(index + 2) % 4];
            let after = before.resize(index, q).vertices();
            let right = index == 1 || index == 2;
            let bottom = index == 2 || index == 3;
            let on_its_side_x = if right { opposite.x <= q.x } else { q.x <= opposite.x };
            let on_its_side_y = if bottom { opposite.y <= q.y } else { q.y <= opposite.y };
            &&& after == box_corners(q, opposite)
            &&& on_its_side_x && on_its_side_y ==> {
                &&& after[index] == q
                &&& after[(index + 2) % 4] == opposite
            }
        }),
{
    let before = Shape::Rectangle { c0, c1 };
    let opposite = before.vertices()[(index + 2) % 4];
    assert(before.resize(index, q).vertices() =~= box_corners(q, opposite));
}

/// Dragging an end of a line puts that end at the new position and leaves
/// the other end where it is.
pub proof fn lemma_resize_line(p0: Point, p1: Point, index: int, q: Point)
    requires
        0 <= index < 2,
    ensures
        ({
            let before = Shape::Line { p0, p1 };
            let after = before.resize(index, q).vertices();
            &&& after[index] == q
            &&& after[1 - index] == before.vertices()[1 - index]
        }),
{
}

} // verus!
