//! Bridges a native window's event queue into a backend-neutral input model.
//!
//! The library holds the decisions of the bridge: how queued native window
//! events become timestamped input events, how the held-key and time counters
//! move, how the single handler slot is torn down and set up, and how the
//! native display/surface pairing for a rendering context is chosen.
//! The native window, its event loop and the GPU context live with the host.

pub mod events;
pub mod graphics;
pub mod input;
pub mod lemmas;
pub mod native;
pub mod winit;

pub use events::{
    InputEvent, WinitKeyboardInputEvent, WinitMouseInputEvent, WinitMouseMovedEvent,
    WinitMouseWheelEvent, WinitTouchCancelledEvent, WinitTouchEndedEvent, WinitTouchMovedEvent,
    WinitTouchStartedEvent, transform_coordinate,
};
pub use graphics::{
    ContextRequest, CreationError, GlAttributes, GlProfile, NativeDisplay, PixelFormatRequirements,
    Robustness, init_from_builder, init_from_builder_with_gl_attr, pixel_format_requirements,
    resolve_native,
};
pub use input::{
    Axis, AxisSource, EventRecorder, InputHandler, KeyState, MouseButton, MouseButtonState, Seat,
    SeatCapabilities, SeatNotification, TouchSlot,
};
pub use native::{ElementState, MouseScrollDelta, Touch, TouchPhase, WindowEvent, WinitMouseButton};
pub use winit::{WinitInputBackend, WinitInputError};
