//! A small software renderer: posed wireframe objects, a projection from
//! object space to window pixels, and the frame loop that draws them.
//!
//! Verus has no model of floating point, so nothing here names a float type.
//! Coordinates and angles are values of a caller-chosen type that implements
//! [`Scalar`] and [`Real`]; every contract that involves arithmetic is stated
//! relative to what those operations themselves promise.

pub mod builder;
pub mod color;
pub mod determinism;
pub mod drawing;
pub mod event;
pub mod linearalgebra;
pub mod objects;
pub mod renderer;
pub mod scalar;
pub mod screen;
pub mod simulator;
pub mod transform;
pub mod window;
pub mod window_builder;

pub use builder::SimulationBuilder;
pub use color::{Color, ColorMode, Pixel};
pub use drawing::{DrawMode, Drawer, PixelBufferDrawer};
pub use event::{
    Event, EventFilter, EventIterator, EventManager, KeyboardEvent, MouseButton, MouseEvent,
    WindowEvent,
};
pub use linearalgebra::{Matrix, MatrixBase, Vector2D, Vector3D};
pub use objects::{
    Circle, Cube, IdAllocator, Mesh, Object, ObjectView, Quad, Rectangle, Shape, Spot, Square, Vertex,
};
pub use renderer::{Camera, OriginPosition, RenderMode, Renderer};
pub use scalar::{Real, Scalar};
pub use screen::{KeyboardEventType, MouseInputType, ScreenBuilder};
pub use simulator::{Simulator, Time};
pub use transform::Transform;
pub use window_builder::WindowBuilder;
pub use window::{
    CloseState, NonClientArea, Placement, Pointer, Rect, Response, SizingDirection, Surface,
    UpdateState, Window, WindowMessage, WindowStatus,
};
