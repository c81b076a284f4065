//! The normalized, timestamped input events handed to a handler, and the
//! mapping of window coordinates into a caller's destination space.
use vstd::prelude::*;

use crate::input::{Axis, AxisSource, KeyState, MouseButton, MouseButtonState, TouchSlot};
use crate::native::{
    ElementState, MouseScrollDelta, WinitMouseButton, button_of, button_state_of, key_state_of,
};

verus! {

/// `raw` mapped from a window extent of `size` onto a destination extent of
/// `dest`, bounded into `[0, dest]`. An unknown (zero) window extent maps
/// coordinates one to one.
pub open spec fn transformed(raw: int, dest: int, size: int) -> int {
    if raw <= 0 {
        0
    } else {
        let scaled = if size == 0 {
            raw
        } else {
            raw * dest / size
        };
        if scaled > dest {
            dest
        } else {
            scaled
        }
    }
}

/// The window's extent along one axis: its logical size where known, else the
/// destination extent itself.
pub open spec fn extent_of(size: Option<u32>, dest: u32) -> u32 {
    match size {
        Some(s) => s,
        None => dest,
    }
}

/// Maps a window coordinate `raw` into a destination extent `dest`, given the
/// window's extent `size` along the same axis.
pub fn transform_coordinate(raw: i32, dest: u32, size: u32) -> (r: u32)
    ensures
        r == transformed(raw as int, dest as int, size as int),
        r <= dest,
{
    if raw <= 0 {
        0
    } else {
        let scaled: u64 = if size == 0 {
            raw as u64
        } else {
            assert((raw as u64) * (dest as u64) <= 0x7fff_ffff * 0xffff_ffff) by (nonlinear_arith)
                requires
                    0 < raw,
            ;
            (raw as u64) * (dest as u64) / (size as u64)
        };
        if scaled > dest as u64 {
            dest
        } else {
            scaled as u32
        }
    }
}

/// A key went down or came up.
#[derive(Debug, Clone, Copy, PartialEq, Eq, Hash)]
pub struct WinitKeyboardInputEvent {
    pub time: u32,
    pub key: u32,
    /// How many keys are held after this event, over all keys.
    pub count: u32,
    pub state: ElementState,
}

impl WinitKeyboardInputEvent {
    pub fn time(&self) -> (r: u32)
        ensures
            r == self.time,
    {
        self.time
    }

    pub fn key_code(&self) -> (r: u32)
        ensures
            r == self.key,
    {
        self.key
    }

    pub fn state(&self) -> (r: KeyState)
        ensures
            r == key_state_of(self.state),
    {
        KeyState::from(self.state)
    }

    pub fn count(&self) -> (r: u32)
        ensures
            r == self.count,
    {
        self.count
    }
}

/// The pointer moved to an absolute position in the window.
#[derive(Debug, Clone, Copy, PartialEq, Eq, Hash)]
pub struct WinitMouseMovedEvent {
    pub time: u32,
    pub x: i32,
    pub y: i32,
    /// The window's logical size when the event was dispatched, where known.
    pub window_size: Option<(u32, u32)>,
}

/// The window's width, where its size is known.
pub open spec fn width_of(size: Option<(u32, u32)>) -> Option<u32> {
    match size {
        Some((w, _)) => Some(w),
        None => None,
    }
}

/// The window's height, where its size is known.
pub open spec fn height_of(size: Option<(u32, u32)>) -> Option<u32> {
    match size {
        Some((_, h)) => Some(h),
        None => None,
    }
}

fn width_extent(size: Option<(u32, u32)>, dest: u32) -> (r: u32)
    ensures
        r == extent_of(width_of(size), dest),
{
    match size {
        Some((w, _)) => w,
        None => dest,
    }
}

fn height_extent(size: Option<(u32, u32)>, dest: u32) -> (r: u32)
    ensures
        r == extent_of(height_of(size), dest),
{
    match size {
        Some((_, h)) => h,
        None => dest,
    }
}

impl WinitMouseMovedEvent {
    pub fn time(&self) -> (r: u32)
        ensures
            r == self.time,
    {
        self.time
    }

    pub fn x(&self) -> (r: i32)
        ensures
            r == self.x,
    {
        self.x
    }

    pub fn y(&self) -> (r: i32)
        ensures
            r == self.y,
    {
        self.y
    }

    pub fn x_transformed(&self, width: u32) -> (r: u32)
        ensures
            r == transformed(
                self.x as int,
                width as int,
                extent_of(width_of(self.window_size), width) as int,
            ),
    {
        transform_coordinate(self.x, width, width_extent(self.window_size, width))
    }

    pub fn y_transformed(&self, height: u32) -> (r: u32)
        ensures
            r == transformed(
                self.y as int,
                height as int,
                extent_of(height_of(self.window_size), height) as int,
            ),
    {
        transform_coordinate(self.y, height, height_extent(self.window_size, height))
    }
}

/// The amount of `delta` along `axis`.
pub open spec fn delta_along(delta: MouseScrollDelta, axis: Axis) -> i32 {
    match (delta, axis) {
        (MouseScrollDelta::LineDelta(x, _), Axis::Horizontal) => x,
        (MouseScrollDelta::PixelDelta(x, _), Axis::Horizontal) => x,
        (MouseScrollDelta::LineDelta(_, y), Axis::Vertical) => y,
        (MouseScrollDelta::PixelDelta(_, y), Axis::Vertical) => y,
    }
}

/// Wheel steps come from a wheel; pixel deltas from a continuous device.
pub open spec fn source_of(delta: MouseScrollDelta) -> AxisSource {
    match delta {
        MouseScrollDelta::LineDelta(_, _) => AxisSource::Wheel,
        MouseScrollDelta::PixelDelta(_, _) => AxisSource::Continuous,
    }
}

/// One axis of a scroll.
#[derive(Debug, Clone, Copy, PartialEq, Eq, Hash)]
pub struct WinitMouseWheelEvent {
    pub axis: Axis,
    pub time: u32,
    pub delta: MouseScrollDelta,
}

impl WinitMouseWheelEvent {
    pub fn time(&self) -> (r: u32)
        ensures
            r == self.time,
    {
        self.time
    }

    pub fn axis(&self) -> (r: Axis)
        ensures
            r == self.axis,
    {
        self.axis
    }

    pub fn source(&self) -> (r: AxisSource)
        ensures
            r == source_of(self.delta),
    {
        match self.delta {
            MouseScrollDelta::LineDelta(_, _) => AxisSource::Wheel,
            MouseScrollDelta::PixelDelta(_, _) => AxisSource::Continuous,
        }
    }

    /// The scroll along this event's own axis only.
    pub fn amount(&self) -> (r: i32)
        ensures
            r == delta_along(self.delta, self.axis),
    {
        match (self.axis, self.delta) {
            (Axis::Horizontal, MouseScrollDelta::LineDelta(x, _)) => x,
            (Axis::Horizontal, MouseScrollDelta::PixelDelta(x, _)) => x,
            (Axis::Vertical, MouseScrollDelta::LineDelta(_, y)) => y,
            (Axis::Vertical, MouseScrollDelta::PixelDelta(_, y)) => y,
        }
    }
}

/// A pointer button went down or came up.
#[derive(Debug, Clone, Copy, PartialEq, Eq, Hash)]
pub struct WinitMouseInputEvent {
    pub time: u32,
    pub button: WinitMouseButton,
    pub state: ElementState,
}

impl WinitMouseInputEvent {
    pub fn time(&self) -> (r: u32)
        ensures
            r == self.time,
    {
        self.time
    }

    pub fn button(&self) -> (r: MouseButton)
        ensures
            r == button_of(self.button),
    {
        MouseButton::from(self.button)
    }

    pub fn state(&self) -> (r: MouseButtonState)
        ensures
            r == button_state_of(self.state),
    {
        MouseButtonState::from(self.state)
    }
}

/// A touch contact began.
#[derive(Debug, Clone, Copy, PartialEq, Eq, Hash)]
pub struct WinitTouchStartedEvent {
    pub time: u32,
    pub location: (i32, i32),
    pub id: u64,
    /// The window's logical size when the event was dispatched, where known.
    pub window_size: Option<(u32, u32)>,
}

impl WinitTouchStartedEvent {
    pub fn time(&self) -> (r: u32)
        ensures
            r == self.time,
    {
        self.time
    }

    pub fn slot(&self) -> (r: Option<TouchSlot>)
        ensures
            r == Some(TouchSlot { id: self.id }),
    {
        Some(TouchSlot::new(self.id))
    }

    pub fn x(&self) -> (r: i32)
        ensures
            r == self.location.0,
    {
        self.location.0
    }

    pub fn y(&self) -> (r: i32)
        ensures
            r == self.location.1,
    {
        self.location.1
    }

    pub fn x_transformed(&self, width: u32) -> (r: u32)
        ensures
            r == transformed(
                self.location.0 as int,
                width as int,
                extent_of(width_of(self.window_size), width) as int,
            ),
    {
        transform_coordinate(self.location.0, width, width_extent(self.window_size, width))
    }

    pub fn y_transformed(&self, height: u32) -> (r: u32)
        ensures
            r == transformed(
                self.location.1 as int,
                height as int,
                extent_of(height_of(self.window_size), height) as int,
            ),
    {
        transform_coordinate(self.location.1, height, height_extent(self.window_size, height))
    }
}

/// A touch contact moved.
#[derive(Debug, Clone, Copy, PartialEq, Eq, Hash)]
pub struct WinitTouchMovedEvent {
    pub time: u32,
    pub location: (i32, i32),
    pub id: u64,
    /// The window's logical size when the event was dispatched, where known.
    pub window_size: Option<(u32, u32)>,
}

impl WinitTouchMovedEvent {
    pub fn time(&self) -> (r: u32)
        ensures
            r == self.time,
    {
        self.time
    }

    pub fn slot(&self) -> (r: Option<TouchSlot>)
        ensures
            r == Some(TouchSlot { id: self.id }),
    {
        Some(TouchSlot::new(self.id))
    }

    pub fn x(&self) -> (r: i32)
        ensures
            r == self.location.0,
    {
        self.location.0
    }

    pub fn y(&self) -> (r: i32)
        ensures
            r == self.location.1,
    {
        self.location.1
    }

    pub fn x_transformed(&self, width: u32) -> (r: u32)
        ensures
            r == transformed(
                self.location.0 as int,
                width as int,
                extent_of(width_of(self.window_size), width) as int,
            ),
    {
        transform_coordinate(self.location.0, width, width_extent(self.window_size, width))
    }

    pub fn y_transformed(&self, height: u32) -> (r: u32)
        ensures
            r == transformed(
                self.location.1 as int,
                height as int,
                extent_of(height_of(self.window_size), height) as int,
            ),
    {
        transform_coordinate(self.location.1, height, height_extent(self.window_size, height))
    }
}

/// A touch contact was lifted.
#[derive(Debug, Clone, Copy, PartialEq, Eq, Hash)]
pub struct WinitTouchEndedEvent {
    pub time: u32,
    pub id: u64,
}

impl WinitTouchEndedEvent {
    pub fn time(&self) -> (r: u32)
        ensures
            r == self.time,
    {
        self.time
    }

    pub fn slot(&self) -> (r: Option<TouchSlot>)
        ensures
            r == Some(TouchSlot { id: self.id }),
    {
        Some(TouchSlot::new(self.id))
    }
}

/// A touch contact was cancelled by the system.
#[derive(Debug, Clone, Copy, PartialEq, Eq, Hash)]
pub struct WinitTouchCancelledEvent {
    pub time: u32,
    pub id: u64,
}

impl WinitTouchCancelledEvent {
    pub fn time(&self) -> (r: u32)
        ensures
            r == self.time,
    {
        self.time
    }

    pub fn slot(&self) -> (r: Option<TouchSlot>)
        ensures
            r == Some(TouchSlot { id: self.id }),
    {
        Some(TouchSlot::new(self.id))
    }
}

/// One normalized event, as delivered to a handler.
#[derive(Debug, Clone, Copy, PartialEq, Eq, Hash)]
pub enum InputEvent {
    KeyboardKey(WinitKeyboardInputEvent),
    PointerMotionAbsolute(WinitMouseMovedEvent),
    PointerAxis(WinitMouseWheelEvent),
    PointerButton(WinitMouseInputEvent),
    TouchDown(WinitTouchStartedEvent),
    TouchMotion(WinitTouchMovedEvent),
    TouchUp(WinitTouchEndedEvent),
    TouchCancel(WinitTouchCancelledEvent),
}

} // verus!
