//! The editor's state and its reaction to pointer events.
//!
//! The editor is a state machine. Its transitions are spec functions on
//! [`StateView`]; the methods of [`State`] carry them out and report whether
//! the surface has to be drawn again.

use crate::geometry::{lemma_dragged_tracks_pointer, Curve, Point, PointHandle};
use crate::hit_test::{first_hit, hit_test, hits, lemma_first_hit_is_earliest, DragState};
use vstd::prelude::*;

verus! {

/// What the pointer did.
#[derive(Clone, Copy, Debug, PartialEq, Eq, Structural)]
pub enum PointerEvent {
    /// The button went down at the given position.
    Down(Point),
    /// The pointer moved to the given position.
    Move(Point),
    /// The button was released.
    Up,
}

/// The editor's state as a mathematical value.
pub struct StateView {
    /// The curves, oldest first. This is the order of drawing and of hit
    /// testing.
    pub curves: Seq<Curve>,
    /// The point being dragged, if any.
    pub drag_state: Option<DragState>,
    /// The start anchor of a curve whose end has not been placed yet.
    pub new_curve: Option<Point>,
    /// The last pointer position that the editor took note of.
    pub mouse: Point,
}

impl StateView {
    /// A drag refers to a curve that exists.
    pub open spec fn wf(self) -> bool {
        self.drag_state matches Some(drag) ==> drag.curve_index < self.curves.len()
    }

    /// No curves, nothing dragged, no anchor pending, pointer at the origin.
    pub open spec fn initial() -> StateView {
        StateView {
            curves: Seq::empty(),
            drag_state: None,
            new_curve: None,
            mouse: Point { x: 0, y: 0 },
        }
    }

    /// The state after a press at `p`. A press on a handle takes hold of it
    /// and does nothing else. A press elsewhere sets the start anchor of a
    /// new curve or, if one is pending, completes the curve.
    pub open spec fn pointer_down(self, p: Point) -> StateView {
        match first_hit(self.curves, p) {
            Some(drag) => StateView { drag_state: Some(drag), mouse: p, ..self },
            None => match self.new_curve {
                None => StateView { new_curve: Some(p), mouse: p, ..self },
                Some(anchor) => StateView {
                    curves: self.curves.push(Curve::spec_straight(anchor, p)),
                    new_curve: None,
                    mouse: p,
                    ..self
                },
            },
        }
    }

    /// A press calls for drawing exactly when it completes a curve.
    pub open spec fn pointer_down_redraws(self, p: Point) -> bool {
        first_hit(self.curves, p) is None && self.new_curve is Some
    }

    /// The state after the pointer moved to `p`. A dragged point follows the
    /// pointer by the step from the last position to `p`. While a point is
    /// dragged or an anchor is pending, `p` becomes the last position.
    pub open spec fn pointer_move(self, p: Point) -> StateView {
        let curves = match self.drag_state {
            Some(drag) => self.curves.update(
                drag.curve_index as int,
                self.curves[drag.curve_index as int].spec_dragged(drag.point, self.mouse, p),
            ),
            None => self.curves,
        };
        let mouse = if self.drag_state is Some || self.new_curve is Some {
            p
        } else {
            self.mouse
        };
        StateView { curves, mouse, ..self }
    }

    /// A move calls for drawing while a point is dragged or an anchor is
    /// pending.
    pub open spec fn pointer_move_redraws(self) -> bool {
        self.drag_state is Some || self.new_curve is Some
    }

    /// The state after a release: nothing is dragged any more.
    pub open spec fn pointer_up(self) -> StateView {
        StateView { drag_state: None, ..self }
    }

    /// The state after `event`.
    pub open spec fn step(self, event: PointerEvent) -> StateView {
        match event {
            PointerEvent::Down(p) => self.pointer_down(p),
            PointerEvent::Move(p) => self.pointer_move(p),
            PointerEvent::Up => self.pointer_up(),
        }
    }

    /// Whether `event` calls for drawing the surface again.
    pub open spec fn redraws(self, event: PointerEvent) -> bool {
        match event {
            PointerEvent::Down(p) => self.pointer_down_redraws(p),
            PointerEvent::Move(_) => self.pointer_move_redraws(),
            PointerEvent::Up => false,
        }
    }
}

/// The editor: its curves and what the pointer is doing to them.
#[derive(Clone, Debug, PartialEq, Eq)]
pub struct State {
    curves: Vec<Curve>,
    drag_state: Option<DragState>,
    new_curve: Option<Point>,
    mouse: Point,
}

impl View for State {
    type V = StateView;

    closed spec fn view(&self) -> StateView {
        StateView {
            curves: self.curves@,
            drag_state: self.drag_state,
            new_curve: self.new_curve,
            mouse: self.mouse,
        }
    }
}

impl State {
    /// An editor without curves.
    pub fn new() -> (state: State)
        ensures
            state@ == StateView::initial(),
            state@.wf(),
    {
        State { curves: Vec::new(), drag_state: None, new_curve: None, mouse: Point::new(0, 0) }
    }

    /// Tells whether a drag, if there is one, refers to a curve that exists.
    /// Every state that [`State::new`] and the events lead to passes.
    pub fn is_wf(&self) -> (ok: bool)
        ensures
            ok == self@.wf(),
    {
        match self.drag_state {
            Some(drag) => drag.curve_index < self.curves.len(),
            None => true,
        }
    }

    /// The curves, oldest first.
    pub fn curves(&self) -> (curves: &Vec<Curve>)
        ensures
            curves@ == self@.curves,
    {
        &self.curves
    }

    /// The point being dragged, if any.
    pub fn drag_state(&self) -> (drag: Option<DragState>)
        ensures
            drag == self@.drag_state,
    {
        self.drag_state
    }

    /// The start anchor of a curve whose end has not been placed yet.
    pub fn new_curve(&self) -> (anchor: Option<Point>)
        ensures
            anchor == self@.new_curve,
    {
        self.new_curve
    }

    /// The last pointer position that the editor took note of.
    pub fn mouse(&self) -> (mouse: Point)
        ensures
            mouse == self@.mouse,
    {
        self.mouse
    }

    /// Reacts to a press at `p`. Returns whether to draw again.
    pub fn pointer_down(&mut self, p: Point) -> (redraw: bool)
        requires
            old(self)@.wf(),
        ensures
            final(self)@ == old(self)@.pointer_down(p),
            redraw == old(self)@.pointer_down_redraws(p),
            final(self)@.wf(),
    {
        self.mouse = p;
        match hit_test(&self.curves, p) {
            Some(drag) => {
                self.drag_state = Some(drag);
                false
            },
            None => match self.new_curve {
                None => {
                    self.new_curve = Some(p);
                    false
                },
                Some(anchor) => {
                    self.new_curve = None;
                    self.curves.push(Curve::straight(anchor, p));
                    true
                },
            },
        }
    }

    /// Reacts to the pointer moving to `p`. Returns whether to draw again.
    pub fn pointer_move(&mut self, p: Point) -> (redraw: bool)
        requires
            old(self)@.wf(),
        ensures
            final(self)@ == old(self)@.pointer_move(p),
            redraw == old(self)@.pointer_move_redraws(),
            final(self)@.wf(),
    {
        let mut redraw = false;
        if let Some(drag) = self.drag_state {
            let curve = self.curves[drag.curve_index];
            self.curves.set(drag.curve_index, curve.dragged(drag.point, self.mouse, p));
            self.mouse = p;
            redraw = true;
        }
        if self.new_curve.is_some() {
            self.mouse = p;
            redraw = true;
        }
        redraw
    }

    /// Reacts to a release. Never calls for drawing.
    pub fn pointer_up(&mut self)
        ensures
            final(self)@ == old(self)@.pointer_up(),
            final(self)@.drag_state is None,
            final(self)@.wf(),
    {
        self.drag_state = None;
    }

    /// Reacts to `event`. Returns whether to draw again.
    pub fn dispatch(&mut self, event: PointerEvent) -> (redraw: bool)
        requires
            old(self)@.wf(),
        ensures
            final(self)@ == old(self)@.step(event),
            redraw == old(self)@.redraws(event),
            final(self)@.wf(),
    {
        match event {
            PointerEvent::Down(p) => self.pointer_down(p),
            PointerEvent::Move(p) => self.pointer_move(p),
            PointerEvent::Up => {
                self.pointer_up();
                false
            },
        }
    }
}

/// Every event leaves a drag, if there is one, on a curve that exists.
pub proof fn lemma_step_keeps_wf(state: StateView, event: PointerEvent)
    requires
        state.wf(),
    ensures
        state.step(event).wf(),
{
    if let PointerEvent::Down(p) = event {
        if let Some(drag) = first_hit(state.curves, p) {
            assert(hits(state.curves, p, drag.curve_index as int, drag.point));
        }
    }
}

/// Curves are never removed: an event keeps their number or, where a press
/// completes a curve, adds one at the end and leaves the others as they were.
pub proof fn lemma_step_keeps_curves(state: StateView, event: PointerEvent)
    requires
        state.wf(),
    ensures
        state.step(event).curves.len() == state.curves.len() + if state.redraws(event)
            && event is Down {
            1int
        } else {
            0int
        },
        event matches PointerEvent::Down(p) ==> state.step(event).curves.take(
            state.curves.len() as int,
        ) == state.curves,
        event is Up ==> state.step(event).curves == state.curves,
{
    if let PointerEvent::Down(p) = event {
        assert(state.step(event).curves.take(state.curves.len() as int) =~= state.curves);
    }
}

/// A release clears the drag whatever the state was, and a second release
/// changes nothing.
pub proof fn lemma_pointer_up_clears_drag(state: StateView)
    ensures
        state.pointer_up().drag_state is None,
        state.pointer_up().pointer_up() == state.pointer_up(),
        state.pointer_up().curves == state.curves,
        state.pointer_up().new_curve == state.new_curve,
        state.pointer_up().mouse == state.mouse,
        !state.redraws(PointerEvent::Up),
{
}

/// While nothing is dragged and no anchor is pending, a move changes nothing
/// and calls for no drawing.
pub proof fn lemma_idle_move_is_noop(state: StateView, p: Point)
    requires
        state.drag_state is None,
        state.new_curve is None,
    ensures
        state.pointer_move(p) == state,
        !state.pointer_move_redraws(),
{
}

/// A move changes at most the dragged point and the last position: the drag,
/// the pending anchor, the number of curves and every other curve stay.
pub proof fn lemma_move_changes_dragged_curve_only(state: StateView, p: Point)
    requires
        state.wf(),
    ensures
        state.pointer_move(p).drag_state == state.drag_state,
        state.pointer_move(p).new_curve == state.new_curve,
        state.pointer_move(p).curves.len() == state.curves.len(),
        forall|i: int|
            0 <= i < state.curves.len() && !(state.drag_state matches Some(drag) && drag.curve_index
                == i) ==> #[trigger] state.pointer_move(p).curves[i] == state.curves[i],
        state.pointer_move_redraws() ==> state.pointer_move(p).mouse == p,
{
}

/// A dragged point that sits under the pointer stays under it: after the
/// move it is at the new position.
pub proof fn lemma_drag_tracks_pointer(state: StateView, drag: DragState, p: Point)
    requires
        state.wf(),
        state.drag_state == Some(drag),
        state.curves[drag.curve_index as int].spec_point(drag.point) == state.mouse,
    ensures
        state.pointer_move(p).curves[drag.curve_index as int].spec_point(drag.point) == p,
        state.pointer_move(p).mouse == p,
{
    lemma_dragged_tracks_pointer(state.mouse, p);
}

/// A press on a handle takes hold of the first one hit and leaves curves and
/// pending anchor alone; it calls for no drawing.
pub proof fn lemma_press_on_handle(
    state: StateView,
    p: Point,
    index: int,
    handle: PointHandle,
)
    requires
        state.curves.len() <= usize::MAX,
        hits(state.curves, p, index, handle),
    ensures
        state.pointer_down(p).drag_state == first_hit(state.curves, p),
        state.pointer_down(p).drag_state is Some,
        state.pointer_down(p).curves == state.curves,
        state.pointer_down(p).new_curve == state.new_curve,
        state.pointer_down(p).mouse == p,
        !state.pointer_down_redraws(p),
{
    lemma_first_hit_is_earliest(state.curves, p, index, handle);
}

/// Two presses on empty ground make one curve: the first sets the anchor,
/// the second, if it still hits no handle, appends the straight curve from
/// the anchor to itself and clears the anchor.
pub proof fn lemma_two_presses_make_a_curve(state: StateView, first: Point, second: Point)
    requires
        state.new_curve is None,
        first_hit(state.curves, first) is None,
        first_hit(state.curves, second) is None,
    ensures
        state.pointer_down(first).new_curve == Some(first),
        state.pointer_down(first).curves == state.curves,
        !state.pointer_down_redraws(first),
        state.pointer_down(first).pointer_down(second).curves == state.curves.push(
            Curve::spec_straight(first, second),
        ),
        state.pointer_down(first).pointer_down(second).new_curve is None,
        state.pointer_down(first).pointer_down_redraws(second),
{
}

} // verus!
