//! The native window events that the host's event loop queues, held as plain
//! values, and their conversion into the backend-neutral states and buttons.
use vstd::prelude::*;

use crate::input::{KeyState, MouseButton, MouseButtonState};

verus! {

/// Whether a native key or button went down or came up.
#[derive(Debug, Clone, Copy, PartialEq, Eq, Hash)]
pub enum ElementState {
    Pressed,
    Released,
}

/// A pointer button as the window system names it.
#[derive(Debug, Clone, Copy, PartialEq, Eq, Hash)]
pub enum WinitMouseButton {
    Left,
    Right,
    Middle,
    Other(u8),
}

/// A scroll as the window system reports it: horizontal and vertical deltas,
/// counted in whole wheel steps or in pixels.
#[derive(Debug, Clone, Copy, PartialEq, Eq, Hash)]
pub enum MouseScrollDelta {
    LineDelta(i32, i32),
    PixelDelta(i32, i32),
}

/// The stage of a touch contact that a touch event reports.
#[derive(Debug, Clone, Copy, PartialEq, Eq, Hash)]
pub enum TouchPhase {
    Started,
    Moved,
    Ended,
    Cancelled,
}

/// One native touch event: the contact's id, its stage and its location in
/// logical window coordinates.
#[derive(Debug, Clone, Copy, PartialEq, Eq, Hash)]
pub struct Touch {
    pub phase: TouchPhase,
    pub location: (i32, i32),
    pub id: u64,
}

/// One queued native window event.
#[derive(Debug, Clone, Copy, PartialEq, Eq, Hash)]
pub enum WindowEvent {
    /// The window was resized to this logical width and height.
    Resized(u32, u32),
    /// A key changed state; the second field is its key code.
    KeyboardInput(ElementState, u32),
    /// The pointer moved to this position in window coordinates.
    MouseMoved(i32, i32),
    MouseWheel(MouseScrollDelta),
    MouseInput(ElementState, WinitMouseButton),
    Touch(Touch),
    /// The window was asked to close.
    Closed,
    /// Any event that this bridge does not translate.
    Other,
}

pub open spec fn key_state_of(state: ElementState) -> KeyState {
    match state {
        ElementState::Pressed => KeyState::Pressed,
        ElementState::Released => KeyState::Released,
    }
}

pub open spec fn button_state_of(state: ElementState) -> MouseButtonState {
    match state {
        ElementState::Pressed => MouseButtonState::Pressed,
        ElementState::Released => MouseButtonState::Released,
    }
}

pub open spec fn button_of(button: WinitMouseButton) -> MouseButton {
    match button {
        WinitMouseButton::Left => MouseButton::Left,
        WinitMouseButton::Right => MouseButton::Right,
        WinitMouseButton::Middle => MouseButton::Middle,
        WinitMouseButton::Other(n) => MouseButton::Other(n),
    }
}

impl From<ElementState> for KeyState {
    fn from(state: ElementState) -> (r: KeyState)
        ensures
            r == key_state_of(state),
    {
        match state {
            ElementState::Pressed => KeyState::Pressed,
            ElementState::Released => KeyState::Released,
        }
    }
}

impl vstd::std_specs::convert::FromSpecImpl<ElementState> for KeyState {
    open spec fn obeys_from_spec() -> bool {
        true
    }

    open spec fn from_spec(state: ElementState) -> KeyState {
        key_state_of(state)
    }
}

impl From<ElementState> for MouseButtonState {
    fn from(state: ElementState) -> (r: MouseButtonState)
        ensures
            r == button_state_of(state),
    {
        match state {
            ElementState::Pressed => MouseButtonState::Pressed,
            ElementState::Released => MouseButtonState::Released,
        }
    }
}

impl vstd::std_specs::convert::FromSpecImpl<ElementState> for MouseButtonState {
    open spec fn obeys_from_spec() -> bool {
        true
    }

    open spec fn from_spec(state: ElementState) -> MouseButtonState {
        button_state_of(state)
    }
}

impl From<WinitMouseButton> for MouseButton {
    fn from(button: WinitMouseButton) -> (r: MouseButton)
        ensures
            r == button_of(button),
    {
        match button {
            WinitMouseButton::Left => MouseButton::Left,
            WinitMouseButton::Right => MouseButton::Right,
            WinitMouseButton::Middle => MouseButton::Middle,
            WinitMouseButton::Other(n) => MouseButton::Other(n),
        }
    }
}

impl vstd::std_specs::convert::FromSpecImpl<WinitMouseButton> for MouseButton {
    open spec fn obeys_from_spec() -> bool {
        true
    }

    open spec fn from_spec(button: WinitMouseButton) -> MouseButton {
        button_of(button)
    }
}

} // verus!
