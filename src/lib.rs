//! Off-screen frame bridge between a windowless rendering engine and a UI shell.
//!
//! The engine paints pixel buffers through callbacks; the bridge tracks the
//! view geometry it reports to the engine, keeps the latest frame in a
//! length-checked buffer that the UI samples, records auxiliary renderer
//! state, and drives the bridge's lifecycle as a one-way state machine.
pub mod frame;
pub mod geometry;
pub mod handler;
pub mod lifecycle;
pub mod render_state;

pub use frame::{FrameBuffer, FrameSnapshot, FrameState, PublishError, BYTES_PER_PIXEL};
pub use geometry::{Point, Rect, ScreenInfo, Size, ViewGeometry};
pub use render_state::{AuxiliaryRenderState, TextRange, TouchHandle};
pub use handler::{HandlerState, PaintElementKind, PaintEventHandler, PaintOutcome};
pub use lifecycle::{BridgeController, BridgeError, ControllerState, Lifecycle, StartupStep};
