//! A click-and-drag editor for cubic Bezier curves on an integer grid.
//!
//! Two clicks on empty ground make a straight curve; its four points can then
//! be dragged. The crate holds the editor's logic and proves it with Verus:
//!
//! - [`geometry`]: points, curves, the circle test and the arithmetic on
//!   coordinates;
//! - [`hit_test`]: which handle a press takes hold of;
//! - [`editor`]: the editor's state and its reaction to pointer events;
//! - [`render`]: the drawing commands that show a state.
//!
//! The crate neither reads events nor draws. A front end feeds it pointer
//! events, and carries out the commands of [`render::redraw`] whenever an
//! event asks for it.

pub mod editor;
pub mod geometry;
pub mod render;

pub use editor::{PointerEvent, State, StateView};
pub use geometry::{is_point_inside_circle, Curve, Point, PointHandle, POINT_RADIUS};
pub use hit_test::{hit_test, DragState};
pub use render::{draw_curve, redraw, DrawCommand, Style};
