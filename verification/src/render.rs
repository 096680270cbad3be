//! Drawing the editor's state.
//!
//! Drawing is described as a list of commands for a 2D surface with paths,
//! strokes and fills. The list depends on the state alone: the whole scene is
//! drawn from scratch each time.

use crate::editor::{State, StateView};
use crate::geometry::{Curve, Point, POINT_RADIUS};
use vstd::prelude::*;

verus! {

/// The looks that the editor draws with.
#[derive(Clone, Copy, Debug, PartialEq, Eq, Structural)]
pub enum Style {
    /// Strokes of a curve and of its control arms.
    Curve,
    /// Fill of the handles at the two anchors.
    Anchor,
    /// Fill of the handles at the two control points.
    Control,
    /// Stroke of the line from a pending anchor to the pointer.
    Pending,
}

/// One instruction to the drawing surface.
#[derive(Clone, Copy, Debug, PartialEq, Eq, Structural)]
pub enum DrawCommand {
    /// Clear the rectangle of the given size at the origin.
    ClearRect { width: i32, height: i32 },
    /// Use the given look for strokes from now on.
    SetStrokeStyle(Style),
    /// Use the given look for fills from now on.
    SetFillStyle(Style),
    /// Start a new path.
    BeginPath,
    /// Start a stretch of the path at the given point.
    MoveTo(Point),
    /// Add a straight line to the given point.
    LineTo(Point),
    /// Add a cubic Bezier curve with control points `b` and `c` that ends at `d`.
    BezierCurveTo { b: Point, c: Point, d: Point },
    /// Add a full circle around `center`.
    Circle { center: Point, radius: u32 },
    /// Stroke the path.
    Stroke,
    /// Fill the path.
    Fill,
}

impl Style {
    /// The name of the colour that the look stands for.
    pub open spec fn color_name(self) -> Seq<char> {
        match self {
            Style::Curve => "black"@,
            Style::Anchor => "blue"@,
            Style::Control => "red"@,
            Style::Pending => "black"@,
        }
    }

    /// Returns the name of the colour that the look stands for.
    pub fn color(self) -> (name: &'static str)
        ensures
            name@ == self.color_name(),
    {
        match self {
            Style::Curve => "black",
            Style::Anchor => "blue",
            Style::Control => "red",
            Style::Pending => "black",
        }
    }
}

/// A stroked straight line from `from` to `to`.
pub open spec fn line_commands(from: Point, to: Point) -> Seq<DrawCommand> {
    seq![
        DrawCommand::BeginPath,
        DrawCommand::MoveTo(from),
        DrawCommand::LineTo(to),
        DrawCommand::Stroke,
    ]
}

/// Two filled handles of one look, at `p` and at `q`.
pub open spec fn handle_commands(style: Style, p: Point, q: Point) -> Seq<DrawCommand> {
    seq![
        DrawCommand::SetFillStyle(style),
        DrawCommand::BeginPath,
        DrawCommand::Circle { center: p, radius: POINT_RADIUS },
        DrawCommand::Circle { center: q, radius: POINT_RADIUS },
        DrawCommand::Fill,
    ]
}

/// One curve: the Bezier path, the control arms from `a` to `b` and from `d`
/// to `c`, the handles at the anchors, then the handles at the control points.
pub open spec fn curve_commands(curve: Curve) -> Seq<DrawCommand> {
    seq![
        DrawCommand::SetStrokeStyle(Style::Curve),
        DrawCommand::BeginPath,
        DrawCommand::MoveTo(curve.a),
        DrawCommand::BezierCurveTo { b: curve.b, c: curve.c, d: curve.d },
        DrawCommand::Stroke,
    ] + line_commands(curve.a, curve.b) + line_commands(curve.d, curve.c) + handle_commands(
        Style::Anchor,
        curve.a,
        curve.d,
    ) + handle_commands(Style::Control, curve.b, curve.c)
}

/// All curves, oldest first.
pub open spec fn curves_commands(curves: Seq<Curve>) -> Seq<DrawCommand>
    decreases curves.len(),
{
    if curves.len() == 0 {
        Seq::empty()
    } else {
        curves_commands(curves.drop_last()) + curve_commands(curves.last())
    }
}

/// The line from a pending anchor to the pointer.
pub open spec fn pending_commands(anchor: Point, mouse: Point) -> Seq<DrawCommand> {
    seq![DrawCommand::SetStrokeStyle(Style::Pending)] + line_commands(anchor, mouse)
}

/// The whole scene on a surface of the given size: the cleared surface, the
/// curves and, while an anchor is pending, the line from it to the pointer.
pub open spec fn scene_commands(state: StateView, width: i32, height: i32) -> Seq<DrawCommand> {
    seq![DrawCommand::ClearRect { width, height }] + curves_commands(state.curves)
        + match state.new_curve {
        Some(anchor) => pending_commands(anchor, state.mouse),
        None => Seq::empty(),
    }
}

/// Appends a stroked straight line from `from` to `to`.
fn draw_line(commands: &mut Vec<DrawCommand>, from: Point, to: Point)
    ensures
        final(commands)@ == old(commands)@ + line_commands(from, to),
{
    commands.push(DrawCommand::BeginPath);
    commands.push(DrawCommand::MoveTo(from));
    commands.push(DrawCommand::LineTo(to));
    commands.push(DrawCommand::Stroke);
}

/// Appends two filled handles of one look, at `p` and at `q`.
fn draw_handles(commands: &mut Vec<DrawCommand>, style: Style, p: Point, q: Point)
    ensures
        final(commands)@ == old(commands)@ + handle_commands(style, p, q),
{
    commands.push(DrawCommand::SetFillStyle(style));
    commands.push(DrawCommand::BeginPath);
    commands.push(DrawCommand::Circle { center: p, radius: POINT_RADIUS });
    commands.push(DrawCommand::Circle { center: q, radius: POINT_RADIUS });
    commands.push(DrawCommand::Fill);
}

/// Appends the commands that draw `curve` with its control arms and handles.
pub fn draw_curve(commands: &mut Vec<DrawCommand>, curve: Curve)
    ensures
        final(commands)@ == old(commands)@ + curve_commands(curve),
{
    commands.push(DrawCommand::SetStrokeStyle(Style::Curve));
    commands.push(DrawCommand::BeginPath);
    commands.push(DrawCommand::MoveTo(curve.a));
    commands.push(DrawCommand::BezierCurveTo { b: curve.b, c: curve.c, d: curve.d });
    commands.push(DrawCommand::Stroke);
    draw_line(commands, curve.a, curve.b);
    draw_line(commands, curve.d, curve.c);
    draw_handles(commands, Style::Anchor, curve.a, curve.d);
    draw_handles(commands, Style::Control, curve.b, curve.c);
}

/// Returns the commands that draw the whole scene on a surface of the given
/// size.
pub fn redraw(state: &State, width: i32, height: i32) -> (commands: Vec<DrawCommand>)
    ensures
        commands@ == scene_commands(state@, width, height),
{
    let mut commands: Vec<DrawCommand> = Vec::new();
    commands.push(DrawCommand::ClearRect { width, height });
    let curves = state.curves();
    let mut index: usize = 0;
    while index < curves.len()
        invariant
            index <= curves.len(),
            commands@ == seq![DrawCommand::ClearRect { width, height }] + curves_commands(
                curves@.take(index as int),
            ),
        decreases curves.len() - index,
    {
        proof {
            let next = curves@.take(index + 1);
            assert(next.drop_last() == curves@.take(index as int));
            assert(next.last() == curves@[index as int]);
        }
        draw_curve(&mut commands, curves[index]);
        index += 1;
    }
    assert(curves@.take(index as int) == curves@);
    if let Some(anchor) = state.new_curve() {
        commands.push(DrawCommand::SetStrokeStyle(Style::Pending));
        draw_line(&mut commands, anchor, state.mouse());
    }
    commands
}

/// The scene holds one command to clear, twenty-three for each curve and,
/// while an anchor is pending, five for the line to the pointer.
pub proof fn lemma_scene_commands_len(state: StateView, width: i32, height: i32)
    ensures
        scene_commands(state, width, height).len() == 1 + 23 * state.curves.len()
            + if state.new_curve is Some {
            5int
        } else {
            0int
        },
        scene_commands(state, width, height)[0] == (DrawCommand::ClearRect { width, height }),
{
    lemma_curves_commands_len(state.curves);
}

proof fn lemma_curves_commands_len(curves: Seq<Curve>)
    ensures
        curves_commands(curves).len() == 23 * curves.len(),
    decreases curves.len(),
{
    if curves.len() > 0 {
        lemma_curves_commands_len(curves.drop_last());
    }
}

/// Curves are drawn in the order in which they were added: the commands of a
/// longer list begin with those of the shorter.
pub proof fn lemma_curves_commands_push(curves: Seq<Curve>, curve: Curve)
    ensures
        curves_commands(curves.push(curve)) == curves_commands(curves) + curve_commands(curve),
{
    assert(curves.push(curve).drop_last() == curves);
}

/// What is drawn does not depend on whether a point is being dragged.
pub proof fn lemma_scene_ignores_drag(state: StateView, width: i32, height: i32)
    ensures
        scene_commands(state.pointer_up(), width, height) == scene_commands(state, width, height),
{
}

} // verus!
