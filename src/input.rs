//! The backend-neutral input model: the seat, its capabilities, the states and
//! identities that input events carry, and the handler that receives them.
use vstd::prelude::*;

use crate::events::{
    InputEvent, WinitKeyboardInputEvent, WinitMouseInputEvent, WinitMouseMovedEvent,
    WinitMouseWheelEvent,
    WinitTouchCancelledEvent, WinitTouchEndedEvent, WinitTouchMovedEvent, WinitTouchStartedEvent,
};

verus! {

/// The input capabilities that a seat announces.
#[derive(Debug, Clone, Copy, PartialEq, Eq, Hash)]
pub struct SeatCapabilities {
    pub pointer: bool,
    pub keyboard: bool,
    pub touch: bool,
}

/// One logical grouping of input devices, presented to a handler as one identity.
#[derive(Debug, Clone, Copy, PartialEq, Eq, Hash)]
pub struct Seat {
    pub id: u64,
    pub capabilities: SeatCapabilities,
}

impl Seat {
    pub fn new(id: u64, capabilities: SeatCapabilities) -> (r: Seat)
        ensures
            r.id == id,
            r.capabilities == capabilities,
    {
        Seat { id, capabilities }
    }

    pub fn id(&self) -> (r: u64)
        ensures
            r == self.id,
    {
        self.id
    }

    pub fn capabilities(&self) -> (r: SeatCapabilities)
        ensures
            r == self.capabilities,
    {
        self.capabilities
    }
}

/// What happened to the seat, as told to the handler that was set or cleared.
#[derive(Debug, Clone, Copy, PartialEq, Eq, Hash)]
pub enum SeatNotification {
    Created,
    Destroyed,
}

/// Whether a key went down or came up.
#[derive(Debug, Clone, Copy, PartialEq, Eq, Hash)]
pub enum KeyState {
    Released,
    Pressed,
}

/// Whether a pointer button went down or came up.
#[derive(Debug, Clone, Copy, PartialEq, Eq, Hash)]
pub enum MouseButtonState {
    Released,
    Pressed,
}

/// Which pointer button an event is about.
#[derive(Debug, Clone, Copy, PartialEq, Eq, Hash)]
pub enum MouseButton {
    Left,
    Middle,
    Right,
    Other(u8),
}

/// The direction of a scroll.
#[derive(Debug, Clone, Copy, PartialEq, Eq, Hash)]
pub enum Axis {
    Vertical,
    Horizontal,
}

/// How a scroll amount was produced.
#[derive(Debug, Clone, Copy, PartialEq, Eq, Hash)]
pub enum AxisSource {
    /// Fine-grained movement, such as a touchpad's pixel deltas.
    Continuous,
    /// Whole steps of a scroll wheel.
    Wheel,
}

/// Identifies one touch contact from its touch-down until its touch-up or cancel.
#[derive(Debug, Clone, Copy, PartialEq, Eq, Hash)]
pub struct TouchSlot {
    pub id: u64,
}

impl TouchSlot {
    pub fn new(id: u64) -> (r: TouchSlot)
        ensures
            r.id == id,
    {
        TouchSlot { id }
    }

    pub fn id(&self) -> (r: u64)
        ensures
            r == self.id,
    {
        self.id
    }
}

/// The capabilities that a host implements to receive input.
///
/// A handler is told when the seat appears and disappears, and gets one call
/// per normalized event, in the order in which the native events arrived.
/// Its record of what it was told, `seat_notes` and `received`, is what the
/// adapter's contracts speak of: each callback adds exactly its own call.
pub trait InputHandler {
    /// The seat notifications received so far, each with its seat, in order.
    spec fn seat_notes(&self) -> Seq<(Seat, SeatNotification)>;

    /// The normalized events received so far, each with its seat, in order.
    spec fn received(&self) -> Seq<(Seat, InputEvent)>;

    fn on_seat_created(&mut self, seat: &Seat)
        ensures
            final(self).seat_notes() == old(self).seat_notes().push(
                (*seat, SeatNotification::Created),
            ),
            final(self).received() == old(self).received(),
    ;

    fn on_seat_destroyed(&mut self, seat: &Seat)
        ensures
            final(self).seat_notes() == old(self).seat_notes().push(
                (*seat, SeatNotification::Destroyed),
            ),
            final(self).received() == old(self).received(),
    ;

    fn on_keyboard_key(&mut self, seat: &Seat, event: WinitKeyboardInputEvent)
        ensures
            final(self).received() == old(self).received().push((*seat, InputEvent::KeyboardKey(event))),
            final(self).seat_notes() == old(self).seat_notes(),
    ;

    fn on_pointer_move_absolute(&mut self, seat: &Seat, event: WinitMouseMovedEvent)
        ensures
            final(self).received() == old(self).received().push((*seat, InputEvent::PointerMotionAbsolute(event))),
            final(self).seat_notes() == old(self).seat_notes(),
    ;

    fn on_pointer_axis(&mut self, seat: &Seat, event: WinitMouseWheelEvent)
        ensures
            final(self).received() == old(self).received().push((*seat, InputEvent::PointerAxis(event))),
            final(self).seat_notes() == old(self).seat_notes(),
    ;

    fn on_pointer_button(&mut self, seat: &Seat, event: WinitMouseInputEvent)
        ensures
            final(self).received() == old(self).received().push((*seat, InputEvent::PointerButton(event))),
            final(self).seat_notes() == old(self).seat_notes(),
    ;

    fn on_touch_down(&mut self, seat: &Seat, event: WinitTouchStartedEvent)
        ensures
            final(self).received() == old(self).received().push((*seat, InputEvent::TouchDown(event))),
            final(self).seat_notes() == old(self).seat_notes(),
    ;

    fn on_touch_motion(&mut self, seat: &Seat, event: WinitTouchMovedEvent)
        ensures
            final(self).received() == old(self).received().push((*seat, InputEvent::TouchMotion(event))),
            final(self).seat_notes() == old(self).seat_notes(),
    ;

    fn on_touch_up(&mut self, seat: &Seat, event: WinitTouchEndedEvent)
        ensures
            final(self).received() == old(self).received().push((*seat, InputEvent::TouchUp(event))),
            final(self).seat_notes() == old(self).seat_notes(),
    ;

    fn on_touch_cancel(&mut self, seat: &Seat, event: WinitTouchCancelledEvent)
        ensures
            final(self).received() == old(self).received().push((*seat, InputEvent::TouchCancel(event))),
            final(self).seat_notes() == old(self).seat_notes(),
    ;
}

/// A handler that keeps every notification and event it receives, for the
/// host to read back after a dispatch.
pub struct EventRecorder {
    notes: Vec<(Seat, SeatNotification)>,
    events: Vec<(Seat, InputEvent)>,
}

impl EventRecorder {
    pub fn new() -> (r: EventRecorder)
        ensures
            r.seat_notes() == Seq::<(Seat, SeatNotification)>::empty(),
            r.received() == Seq::<(Seat, InputEvent)>::empty(),
    {
        EventRecorder { notes: Vec::new(), events: Vec::new() }
    }

    /// The seat notifications received so far.
    pub fn notes(&self) -> (r: &Vec<(Seat, SeatNotification)>)
        ensures
            r@ == self.seat_notes(),
    {
        &self.notes
    }

    /// The normalized events received so far.
    pub fn events(&self) -> (r: &Vec<(Seat, InputEvent)>)
        ensures
            r@ == self.received(),
    {
        &self.events
    }
}

impl InputHandler for EventRecorder {
    closed spec fn seat_notes(&self) -> Seq<(Seat, SeatNotification)> {
        self.notes@
    }

    closed spec fn received(&self) -> Seq<(Seat, InputEvent)> {
        self.events@
    }

    fn on_seat_created(&mut self, seat: &Seat) {
        self.notes.push((*seat, SeatNotification::Created));
    }

    fn on_seat_destroyed(&mut self, seat: &Seat) {
        self.notes.push((*seat, SeatNotification::Destroyed));
    }

    fn on_keyboard_key(&mut self, seat: &Seat, event: WinitKeyboardInputEvent) {
        self.events.push((*seat, InputEvent::KeyboardKey(event)));
    }

    fn on_pointer_move_absolute(&mut self, seat: &Seat, event: WinitMouseMovedEvent) {
        self.events.push((*seat, InputEvent::PointerMotionAbsolute(event)));
    }

    fn on_pointer_axis(&mut self, seat: &Seat, event: WinitMouseWheelEvent) {
        self.events.push((*seat, InputEvent::PointerAxis(event)));
    }

    fn on_pointer_button(&mut self, seat: &Seat, event: WinitMouseInputEvent) {
        self.events.push((*seat, InputEvent::PointerButton(event)));
    }

    fn on_touch_down(&mut self, seat: &Seat, event: WinitTouchStartedEvent) {
        self.events.push((*seat, InputEvent::TouchDown(event)));
    }

    fn on_touch_motion(&mut self, seat: &Seat, event: WinitTouchMovedEvent) {
        self.events.push((*seat, InputEvent::TouchMotion(event)));
    }

    fn on_touch_up(&mut self, seat: &Seat, event: WinitTouchEndedEvent) {
        self.events.push((*seat, InputEvent::TouchUp(event)));
    }

    fn on_touch_cancel(&mut self, seat: &Seat, event: WinitTouchCancelledEvent) {
        self.events.push((*seat, InputEvent::TouchCancel(event)));
    }
}

} // verus!
