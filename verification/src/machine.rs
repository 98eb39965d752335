//! The interaction state machine: tool commands and pointer events in, edits
//! of the element store and redraw requests out.

use vstd::prelude::*;
use crate::geometry::{points_of, Coordinate, Offset, Point};
use crate::shape::{Shape, ShapeElement};
use crate::store::{topmost_hit, without, ElementStore};

verus! {

/// What the pointer is currently used for.
#[derive(Clone, Copy, Debug, PartialEq, Eq, Structural)]
pub enum Status {
    /// At rest, or dragging an existing element to move it.
    Idle,
    /// Dragging out the element that was created last.
    Creating,
    /// Dragging one control point of the hovered element.
    Resizing,
    /// The next press removes the hovered element.
    Deleting,
}

/// A command from the tool palette.
#[derive(Clone, Copy, Debug, PartialEq, Eq, Structural)]
pub enum ToolCommand {
    SelectLineTool,
    SelectRectTool,
    SelectRemoveTool,
}

/// An event of the pointer, with its position.
#[derive(Clone, Copy, Debug, PartialEq, Eq, Structural)]
pub enum PointerEvent {
    /// A button was pressed.
    Down(Coordinate),
    /// The pointer moved with a button held.
    Drag(Coordinate),
    /// The button was released.
    Up(Coordinate),
    /// The pointer moved with no button held.
    Move(Coordinate),
}

/// The mathematical model of an [`InteractionStateMachine`], with the
/// transitions as functions from state to state.
pub struct Session {
    /// The shapes in z-order.
    pub store: Seq<Shape>,
    pub status: Status,
    /// The index of the shape under the pointer.
    pub hover_index: Option<int>,
    /// The control point that is being dragged.
    pub drag_vertex_index: Option<int>,
    /// Where the current gesture began.
    pub anchor: Point,
    /// The shape being moved, as it was when the move began.
    pub snapshot: Option<Shape>,
    /// Whether a repaint has been asked for and not yet taken.
    pub redraw_requested: bool,
}

impl Session {
    /// The invariant of the machine: the hover index names a stored shape; a
    /// control point is being dragged exactly while resizing; a snapshot is
    /// kept only while idle; and while creating there is a shape to create.
    pub open spec fn wf(self) -> bool {
        &&& self.hover_index matches Some(i) ==> 0 <= i < self.store.len()
        &&& self.drag_vertex_index is Some <==> self.status is Resizing
        &&& self.drag_vertex_index matches Some(v) ==> 0 <= v
        &&& self.snapshot is Some ==> self.status is Idle
        &&& self.status is Creating ==> self.store.len() > 0
    }

    /// The state before the first command: nothing stored, nothing hovered.
    pub open spec fn initial() -> Session {
        Session {
            store: Seq::empty(),
            status: Status::Idle,
            hover_index: None,
            drag_vertex_index: None,
            anchor: Point { x: 0, y: 0 },
            snapshot: None,
            redraw_requested: false,
        }
    }

    /// A new shape is on top, ready to be dragged out.
    pub open spec fn begin_creation(self, shape: Shape) -> Session {
        Session {
            store: self.store.push(shape),
            status: Status::Creating,
            drag_vertex_index: None,
            snapshot: None,
            ..self
        }
    }

    /// A line of length zero at the origin is on top, ready to be dragged out.
    pub open spec fn select_line_tool(self) -> Session {
        let origin = Point { x: 0, y: 0 };
        self.begin_creation(Shape::Line { p0: origin, p1: origin })
    }

    /// A rectangle of area zero at the origin is on top, ready to be dragged
    /// out.
    pub open spec fn select_rect_tool(self) -> Session {
        let origin = Point { x: 0, y: 0 };
        self.begin_creation(Shape::Rectangle { c0: origin, c1: origin })
    }

    /// The next press deletes.
    pub open spec fn select_remove_tool(self) -> Session {
        Session { status: Status::Deleting, drag_vertex_index: None, snapshot: None, ..self }
    }

    /// The state after `command`.
    pub open spec fn on_command(self, command: ToolCommand) -> Session {
        match command {
            ToolCommand::SelectLineTool => self.select_line_tool(),
            ToolCommand::SelectRectTool => self.select_rect_tool(),
            ToolCommand::SelectRemoveTool => self.select_remove_tool(),
        }
    }

    /// A press at `p`. It always sets the anchor. While deleting, it removes
    /// the hovered shape and returns to rest. At rest over a shape, it grabs
    /// the control point near `p`, or else prepares a move of the whole shape
    /// by taking a snapshot of it.
    pub open spec fn pointer_down(self, p: Point) -> Session {
        let pressed = Session { anchor: p, ..self };
        match (self.status, self.hover_index) {
            (Status::Deleting, Some(i)) => Session {
                store: without(self.store, i),
                status: Status::Idle,
                hover_index: None,
                ..pressed
            },
            (Status::Idle, Some(i)) => {
                if 0 <= i < self.store.len() {
                    match self.store[i].grabbed_vertex(p) {
                        Some(v) => Session {
                            status: Status::Resizing,
                            drag_vertex_index: Some(v),
                            snapshot: None,
                            ..pressed
                        },
                        None => Session { snapshot: Some(self.store[i]), ..pressed },
                    }
                } else {
                    pressed
                }
            },
            _ => pressed,
        }
    }

    /// A drag to `p`. While creating, the topmost shape stretches from the
    /// anchor to `p`. While a move is prepared, the hovered shape becomes the
    /// snapshot displaced by the way from the anchor to `p`, unless that
    /// shape could not be stored. While resizing, the grabbed control point
    /// of the hovered shape goes to `p`. A repaint is asked for in any case.
    pub open spec fn pointer_drag(self, p: Point) -> Session {
        let dragged = Session { redraw_requested: true, ..self };
        match self.status {
            Status::Creating => {
                if self.store.len() > 0 {
                    let top = self.store.len() - 1;
                    Session {
                        store: self.store.update(top, self.store[top].stretch(self.anchor, p)),
                        ..dragged
                    }
                } else {
                    dragged
                }
            },
            Status::Idle => {
                match (self.snapshot, self.hover_index) {
                    (Some(snapshot), Some(i)) => {
                        let moved = snapshot.translate(p.minus(self.anchor));
                        if 0 <= i < self.store.len() && moved.representable() {
                            Session { store: self.store.update(i, moved), ..dragged }
                        } else {
                            dragged
                        }
                    },
                    _ => dragged,
                }
            },
            Status::Resizing => {
                match (self.drag_vertex_index, self.hover_index) {
                    (Some(v), Some(i)) => {
                        if 0 <= i < self.store.len() {
                            Session {
                                store: self.store.update(i, self.store[i].resize(v, p)),
                                ..dragged
                            }
                        } else {
                            dragged
                        }
                    },
                    _ => dragged,
                }
            },
            Status::Deleting => dragged,
        }
    }

    /// A release: the gesture ends and the machine is at rest.
    pub open spec fn pointer_up(self, p: Point) -> Session {
        Session { status: Status::Idle, drag_vertex_index: None, snapshot: None, ..self }
    }

    /// A move with no button held: the hover index follows the pointer, and a
    /// repaint is asked for.
    pub open spec fn pointer_move(self, p: Point) -> Session {
        Session { hover_index: topmost_hit(self.store, p), redraw_requested: true, ..self }
    }

    /// The state after `event`.
    pub open spec fn on_pointer(self, event: PointerEvent) -> Session {
        match event {
            PointerEvent::Down(p) => self.pointer_down(p@),
            PointerEvent::Drag(p) => self.pointer_drag(p@),
            PointerEvent::Up(p) => self.pointer_up(p@),
            PointerEvent::Move(p) => self.pointer_move(p@),
        }
    }

    /// The state after a drag through each of `points` in turn.
    pub open spec fn drag_through(self, points: Seq<Point>) -> Session
        decreases points.len(),
    {
        if points.len() == 0 {
            self
        } else {
            self.drag_through(points.drop_last()).pointer_drag(points.last())
        }
    }

    /// What a repaint draws: for each shape in z-order its control points,
    /// and whether it is the hovered one.
    pub open spec fn render(self) -> Seq<(Seq<Point>, bool)> {
        Seq::new(
            self.store.len(),
            |i: int| (self.store[i].vertices(), self.hover_index == Some(i)),
        )
    }
}

/// The index that an optional position in a vector stands for.
pub open spec fn index_of(i: Option<usize>) -> Option<int> {
    match i {
        Some(i) => Some(i as int),
        None => None,
    }
}

/// The shape that an optional element stands for.
pub open spec fn shape_of(e: Option<ShapeElement>) -> Option<Shape> {
    match e {
        Some(e) => Some(e@),
        None => None,
    }
}

/// What the renderer is handed for one element.
#[derive(Debug)]
pub struct RenderItem {
    /// The control points of the element, in the order of their indices.
    pub vertices: Vec<Coordinate>,
    /// Whether the element is the one under the pointer.
    pub hovered: bool,
}

/// What a sequence of render items stands for.
pub open spec fn rendered(items: Seq<RenderItem>) -> Seq<(Seq<Point>, bool)> {
    Seq::new(items.len(), |i: int| (points_of(items[i].vertices@), items[i].hovered))
}

/// The editing session: the element store and the transient state of the
/// gesture in progress. It is owned by the host's event loop, which hands it
/// each tool command and pointer event in turn.
pub struct InteractionStateMachine {
    store: ElementStore,
    status: Status,
    hover_index: Option<usize>,
    drag_vertex_index: Option<usize>,
    anchor: Coordinate,
    snapshot: Option<ShapeElement>,
    redraw_requested: bool,
}

impl View for InteractionStateMachine {
    type V = Session;

    closed spec fn view(&self) -> Session {
        Session {
            store: self.store@,
            status: self.status,
            hover_index: index_of(self.hover_index),
            drag_vertex_index: index_of(self.drag_vertex_index),
            anchor: self.anchor@,
            snapshot: shape_of(self.snapshot),
            redraw_requested: self.redraw_requested,
        }
    }
}

impl InteractionStateMachine {
    /// The invariant that every operation keeps.
    pub open spec fn wf(&self) -> bool {
        self@.wf()
    }

    /// A session with no elements, at rest.
    pub fn new() -> (m: InteractionStateMachine)
        ensures
            m.wf(),
            m@ == Session::initial(),
    {
        InteractionStateMachine {
            store: ElementStore::new(),
            status: Status::Idle,
            hover_index: None,
            drag_vertex_index: None,
            anchor: Coordinate { x: 0, y: 0 },
            snapshot: None,
            redraw_requested: false,
        }
    }

    /// The elements in z-order.
    pub fn store(&self) -> (s: &ElementStore)
        ensures
            s@ == self@.store,
    {
        &self.store
    }

    /// What the pointer is currently used for.
    pub fn status(&self) -> (s: Status)
        ensures
            s == self@.status,
    {
        self.status
    }

    /// The index of the element under the pointer.
    pub fn hover_index(&self) -> (i: Option<usize>)
        ensures
            index_of(i) == self@.hover_index,
    {
        self.hover_index
    }

    /// The control point that is being dragged.
    pub fn drag_vertex_index(&self) -> (v: Option<usize>)
        ensures
            index_of(v) == self@.drag_vertex_index,
    {
        self.drag_vertex_index
    }

    /// Where the current gesture began.
    pub fn anchor(&self) -> (a: Coordinate)
        ensures
            a@ == self@.anchor,
    {
        self.anchor
    }

    /// The element being moved, as it was when the move began.
    pub fn snapshot(&self) -> (e: Option<ShapeElement>)
        ensures
            shape_of(e) == self@.snapshot,
    {
        self.snapshot
    }

    /// Whether a repaint has been asked for since the last call; the request
    /// is taken by the call.
    pub fn take_redraw_request(&mut self) -> (requested: bool)
        requires
            old(self).wf(),
        ensures
            final(self).wf(),
            requested == old(self)@.redraw_requested,
            final(self)@ == (Session { redraw_requested: false, ..old(self)@ }),
    {
        let requested: bool = self.redraw_requested;
        self.redraw_requested = false;
        requested
    }

    fn begin_creation(&mut self, element: ShapeElement)
        requires
            old(self).wf(),
        ensures
            final(self).wf(),
            final(self)@ == old(self)@.begin_creation(element@),
    {
        self.store.push(element);
        self.status = Status::Creating;
        self.drag_vertex_index = None;
        self.snapshot = None;
    }

    /// Puts a line of length zero at the origin on top and waits for it to be
    /// dragged out.
    pub fn select_line_tool(&mut self)
        requires
            old(self).wf(),
        ensures
            final(self).wf(),
            final(self)@ == old(self)@.select_line_tool(),
    {
        self.begin_creation(ShapeElement::new_line(Coordinate { x: 0, y: 0 }));
    }

    /// Puts a rectangle of area zero at the origin on top and waits for it to
    /// be dragged out.
    pub fn select_rect_tool(&mut self)
        requires
            old(self).wf(),
        ensures
            final(self).wf(),
            final(self)@ == old(self)@.select_rect_tool(),
    {
        self.begin_creation(ShapeElement::new_rectangle(Coordinate { x: 0, y: 0 }));
    }

    /// Makes the next press delete the hovered element.
    pub fn select_remove_tool(&mut self)
        requires
            old(self).wf(),
        ensures
            final(self).wf(),
            final(self)@ == old(self)@.select_remove_tool(),
    {
        self.status = Status::Deleting;
        self.drag_vertex_index = None;
        self.snapshot = None;
    }

    /// Carries out a command of the tool palette.
    pub fn handle_command(&mut self, command: ToolCommand)
        requires
            old(self).wf(),
        ensures
            final(self).wf(),
            final(self)@ == old(self)@.on_command(command),
    {
        match command {
            ToolCommand::SelectLineTool => self.select_line_tool(),
            ToolCommand::SelectRectTool => self.select_rect_tool(),
            ToolCommand::SelectRemoveTool => self.select_remove_tool(),
        }
    }

    /// A button was pressed at `p`.
    pub fn pointer_down(&mut self, p: Coordinate)
        requires
            old(self).wf(),
        ensures
            final(self).wf(),
            final(self)@ == old(self)@.pointer_down(p@),
    {
        self.anchor = p;
        match self.status {
            Status::Deleting => {
                if let Some(i) = self.hover_index {
                    self.store.remove_at(i);
                    self.status = Status::Idle;
                    self.hover_index = None;
                }
            },
            Status::Idle => {
                if let Some(i) = self.hover_index {
                    if let Some(element) = self.store.get(i) {
                        match element.grabbed_vertex(p) {
                            Some(v) => {
                                self.status = Status::Resizing;
                                self.drag_vertex_index = Some(v);
                                self.snapshot = None;
                            },
                            None => {
                                self.snapshot = Some(element);
                            },
                        }
                    }
                }
            },
            _ => {},
        }
    }

    /// The pointer was dragged to `p`.
    pub fn pointer_drag(&mut self, p: Coordinate)
        requires
            old(self).wf(),
        ensures
            final(self).wf(),
            final(self)@ == old(self)@.pointer_drag(p@),
    {
        self.redraw_requested = true;
        match self.status {
            Status::Creating => {
                let n: usize = self.store.len();
                if n > 0 {
                    if let Some(mut element) = self.store.get(n - 1) {
                        element.update_create(self.anchor, p);
                        self.store.set(n - 1, element);
                    }
                }
            },
            Status::Idle => {
                if let Some(snapshot) = self.snapshot {
                    if let Some(i) = self.hover_index {
                        let delta: Offset = p.offset_from(self.anchor);
                        if i < self.store.len() && snapshot.can_translate(delta) {
                            let mut moved: ShapeElement = snapshot;
                            moved.translate(delta);
                            self.store.set(i, moved);
                        }
                    }
                }
            },
            Status::Resizing => {
                if let Some(v) = self.drag_vertex_index {
                    if let Some(i) = self.hover_index {
                        if let Some(mut element) = self.store.get(i) {
                            element.resize_vertex(v, p);
                            self.store.set(i, element);
                        }
                    }
                }
            },
            Status::Deleting => {},
        }
    }

    /// The button was released.
    pub fn pointer_up(&mut self, p: Coordinate)
        requires
            old(self).wf(),
        ensures
            final(self).wf(),
            final(self)@ == old(self)@.pointer_up(p@),
    {
        self.status = Status::Idle;
        self.drag_vertex_index = None;
        self.snapshot = None;
    }

    /// The pointer moved to `p` with no button held. The topmost element
    /// that the pointer touches is hovered; none is where it touches none.
    pub fn pointer_move(&mut self, p: Coordinate)
        requires
            old(self).wf(),
        ensures
            final(self).wf(),
            final(self)@ == old(self)@.pointer_move(p@),
            final(self)@.hover_index matches Some(i) ==> {
                &&& 0 <= i < old(self)@.store.len()
                &&& old(self)@.store[i].hit(p@)
                &&& forall|j: int|
                    i < j < old(self)@.store.len() ==> !(#[trigger] old(self)@.store[j]).hit(p@)
            },
            final(self)@.hover_index is None ==> forall|j: int|
                0 <= j < old(self)@.store.len() ==> !(#[trigger] old(self)@.store[j]).hit(p@),
    {
        self.hover_index = self.store.topmost_hit_at(p);
        self.redraw_requested = true;
    }

    /// Takes an event of the pointer.
    pub fn handle_pointer(&mut self, event: PointerEvent)
        requires
            old(self).wf(),
        ensures
            final(self).wf(),
            final(self)@ == old(self)@.on_pointer(event),
    {
        match event {
            PointerEvent::Down(p) => self.pointer_down(p),
            PointerEvent::Drag(p) => self.pointer_drag(p),
            PointerEvent::Up(p) => self.pointer_up(p),
            PointerEvent::Move(p) => self.pointer_move(p),
        }
    }

    /// What a repaint draws: one item for each element, in z-order, with the
    /// element's control points and whether it is the hovered one.
    pub fn render_list(&self) -> (items: Vec<RenderItem>)
        ensures
            rendered(items@) == self@.render(),
    {
        let mut items: Vec<RenderItem> = Vec::new();
        let n: usize = self.store.len();
        let mut i: usize = 0;
        while i < n
            invariant
                i <= n,
                n == self@.store.len(),
                items@.len() == i,
                forall|j: int|
                    0 <= j < i ==> {
                        &&& points_of((#[trigger] items@[j]).vertices@)
                            == self@.store[j].vertices()
                        &&& items@[j].hovered == (self@.hover_index == Some(j))
                    },
            decreases n - i,
        {
            let hovered: bool = match self.hover_index {
                Some(h) => h == i,
                None => false,
            };
            match self.store.get(i) {
                Some(element) => {
                    items.push(RenderItem { vertices: element.vertices(), hovered });
                },
                None => {},
            }
            i = i + 1;
        }
        assert(rendered(items@) =~= self@.render());
        items
    }
}

} // verus!
