//! The event source adapter: it owns the seat, the single handler slot and the
//! counters, and turns each batch of queued native events into normalized
//! events, delivered to the handler in arrival order.
use vstd::prelude::*;

use crate::events::{
    InputEvent, WinitKeyboardInputEvent, WinitMouseInputEvent, WinitMouseMovedEvent,
    WinitMouseWheelEvent, WinitTouchCancelledEvent, WinitTouchEndedEvent, WinitTouchMovedEvent,
    WinitTouchStartedEvent, delta_along,
};
use crate::input::{Axis, InputHandler, Seat, SeatCapabilities, SeatNotification};
use crate::native::{ElementState, MouseScrollDelta, Touch, TouchPhase, WindowEvent};

verus! {

/// Errors that may happen when driving the event loop.
#[derive(Debug, Clone, Copy, PartialEq, Eq, Hash)]
pub enum WinitInputError {
    /// The window was closed. No further events can be processed.
    WindowClosed,
}

impl WinitInputError {
    pub fn description(&self) -> (r: &'static str)
        ensures
            r@ == "Glutin Window was closed"@,
    {
        match self {
            WinitInputError::WindowClosed => "Glutin Window was closed",
        }
    }
}

/// The seat that this adapter announces: id 0, with pointer, keyboard and touch.
pub open spec fn default_seat() -> Seat {
    Seat { id: 0, capabilities: SeatCapabilities { pointer: true, keyboard: true, touch: true } }
}

/// The seat notification due at position `i` of an alternating record.
pub open spec fn due_at(i: int) -> SeatNotification {
    if i % 2 == 0 {
        SeatNotification::Created
    } else {
        SeatNotification::Destroyed
    }
}

/// A handler's seat record in which every even position is a creation and
/// every odd one a destruction: no two creations follow each other without a
/// destruction between, and each destruction follows a creation.
pub open spec fn alternating(notes: Seq<(Seat, SeatNotification)>) -> bool {
    forall|i: int| 0 <= i < notes.len() ==> #[trigger] notes[i].1 == due_at(i)
}

/// Each event of `events`, paired with the seat it is delivered with.
pub open spec fn seated(seat: Seat, events: Seq<InputEvent>) -> Seq<(Seat, InputEvent)> {
    events.map_values(|e: InputEvent| (seat, e))
}

/// The held-key counter after one native event: up by one on a key press, down
/// by one on a key release but never below zero, unchanged otherwise.
pub open spec fn keys_after(keys: nat, ev: WindowEvent) -> nat {
    match ev {
        WindowEvent::KeyboardInput(ElementState::Pressed, _) => keys + 1,
        WindowEvent::KeyboardInput(ElementState::Released, _) => if keys == 0 {
            0
        } else {
            (keys - 1) as nat
        },
        _ => keys,
    }
}

/// The window's logical size after one native event.
pub open spec fn size_after(size: Option<(u32, u32)>, ev: WindowEvent) -> Option<(u32, u32)> {
    match ev {
        WindowEvent::Resized(w, h) => Some((w, h)),
        _ => size,
    }
}

/// The held-key counter after a run of native events.
pub open spec fn keys_after_all(keys: nat, evs: Seq<WindowEvent>) -> nat
    decreases evs.len(),
{
    if evs.len() == 0 {
        keys
    } else {
        keys_after(keys_after_all(keys, evs.drop_last()), evs.last())
    }
}

/// The window's logical size after a run of native events.
pub open spec fn size_after_all(size: Option<(u32, u32)>, evs: Seq<WindowEvent>) -> Option<
    (u32, u32),
>
    decreases evs.len(),
{
    if evs.len() == 0 {
        size
    } else {
        size_after(size_after_all(size, evs.drop_last()), evs.last())
    }
}

/// The axis notification of a scroll along `axis`, if it moved along it.
pub open spec fn axis_events(time: u32, delta: MouseScrollDelta, axis: Axis) -> Seq<InputEvent> {
    if delta_along(delta, axis) != 0 {
        seq![InputEvent::PointerAxis(WinitMouseWheelEvent { axis, time, delta })]
    } else {
        seq![]
    }
}

/// The normalized events for one native touch event.
pub open spec fn touch_events(time: u32, touch: Touch, size: Option<(u32, u32)>) -> Seq<
    InputEvent,
> {
    match touch.phase {
        TouchPhase::Started => seq![
            InputEvent::TouchDown(
                WinitTouchStartedEvent {
                    time,
                    location: touch.location,
                    id: touch.id,
                    window_size: size,
                },
            ),
        ],
        TouchPhase::Moved => seq![
            InputEvent::TouchMotion(
                WinitTouchMovedEvent {
                    time,
                    location: touch.location,
                    id: touch.id,
                    window_size: size,
                },
            ),
        ],
        TouchPhase::Ended => seq![
            InputEvent::TouchMotion(
                WinitTouchMovedEvent {
                    time,
                    location: touch.location,
                    id: touch.id,
                    window_size: size,
                },
            ),
            InputEvent::TouchUp(WinitTouchEndedEvent { time, id: touch.id }),
        ],
        TouchPhase::Cancelled => seq![
            InputEvent::TouchCancel(WinitTouchCancelledEvent { time, id: touch.id }),
        ],
    }
}

/// The normalized events for one native event, stamped with `time`; `count` is
/// the held-key counter after the event and `size` the window's size before it.
pub open spec fn events_for(ev: WindowEvent, time: u32, count: u32, size: Option<(u32, u32)>) -> Seq<
    InputEvent,
> {
    match ev {
        WindowEvent::KeyboardInput(state, key) => seq![
            InputEvent::KeyboardKey(WinitKeyboardInputEvent { time, key, count, state }),
        ],
        WindowEvent::MouseMoved(x, y) => seq![
            InputEvent::PointerMotionAbsolute(
                WinitMouseMovedEvent { time, x, y, window_size: size },
            ),
        ],
        WindowEvent::MouseWheel(delta) => axis_events(time, delta, Axis::Horizontal) + axis_events(
            time,
            delta,
            Axis::Vertical,
        ),
        WindowEvent::MouseInput(state, button) => seq![
            InputEvent::PointerButton(WinitMouseInputEvent { time, button, state }),
        ],
        WindowEvent::Touch(touch) => touch_events(time, touch, size),
        _ => seq![],
    }
}

/// Everything that a run of native events emits, in order, when the time
/// counter starts at `time`, the held-key counter at `keys` and the window's
/// size at `size`.
pub open spec fn emitted(time: nat, keys: nat, size: Option<(u32, u32)>, evs: Seq<WindowEvent>) -> Seq<
    InputEvent,
>
    decreases evs.len(),
{
    if evs.len() == 0 {
        seq![]
    } else {
        let before = evs.drop_last();
        emitted(time, keys, size, before) + events_for(
            evs.last(),
            (time + before.len()) as u32,
            keys_after(keys_after_all(keys, before), evs.last()) as u32,
            size_after_all(size, before),
        )
    }
}

/// Whether a run of native events holds a close notification.
pub open spec fn has_close(evs: Seq<WindowEvent>) -> bool {
    exists|i: int| 0 <= i < evs.len() && #[trigger] evs[i] == WindowEvent::Closed
}

/// Appends the normalized events for one native event to `out`.
fn push_events_for(
    ev: &WindowEvent,
    time: u32,
    count: u32,
    size: Option<(u32, u32)>,
    out: &mut Vec<InputEvent>,
)
    ensures
        final(out)@ == old(out)@ + events_for(*ev, time, count, size),
{
    match *ev {
        WindowEvent::KeyboardInput(state, key) => {
            out.push(InputEvent::KeyboardKey(WinitKeyboardInputEvent { time, key, count, state }));
        },
        WindowEvent::MouseMoved(x, y) => {
            out.push(
                InputEvent::PointerMotionAbsolute(
                    WinitMouseMovedEvent { time, x, y, window_size: size },
                ),
            );
        },
        WindowEvent::MouseWheel(delta) => {
            let (dx, dy) = match delta {
                MouseScrollDelta::LineDelta(x, y) => (x, y),
                MouseScrollDelta::PixelDelta(x, y) => (x, y),
            };
            if dx != 0 {
                out.push(
                    InputEvent::PointerAxis(
                        WinitMouseWheelEvent { axis: Axis::Horizontal, time, delta },
                    ),
                );
            }
            if dy != 0 {
                out.push(
                    InputEvent::PointerAxis(
                        WinitMouseWheelEvent { axis: Axis::Vertical, time, delta },
                    ),
                );
            }
            assert(out@ =~= old(out)@ + events_for(*ev, time, count, size));
        },
        WindowEvent::MouseInput(state, button) => {
            out.push(InputEvent::PointerButton(WinitMouseInputEvent { time, button, state }));
        },
        WindowEvent::Touch(touch) => {
            let id = touch.id;
            let location = touch.location;
            match touch.phase {
                TouchPhase::Started => {
                    out.push(
                        InputEvent::TouchDown(
                            WinitTouchStartedEvent { time, location, id, window_size: size },
                        ),
                    );
                },
                TouchPhase::Moved => {
                    out.push(
                        InputEvent::TouchMotion(
                            WinitTouchMovedEvent { time, location, id, window_size: size },
                        ),
                    );
                },
                TouchPhase::Ended => {
                    out.push(
                        InputEvent::TouchMotion(
                            WinitTouchMovedEvent { time, location, id, window_size: size },
                        ),
                    );
                    out.push(InputEvent::TouchUp(WinitTouchEndedEvent { time, id }));
                },
                TouchPhase::Cancelled => {
                    out.push(InputEvent::TouchCancel(WinitTouchCancelledEvent { time, id }));
                },
            }
            assert(out@ =~= old(out)@ + events_for(*ev, time, count, size));
        },
        _ => {
            assert(out@ =~= old(out)@ + events_for(*ev, time, count, size));
        },
    }
}

/// The event source adapter of one window.
///
/// `dispatch_new_events` must be called periodically for the handler to
/// receive any events.
pub struct WinitInputBackend<H> {
    seat: Seat,
    time_counter: u32,
    key_counter: u32,
    window_size: Option<(u32, u32)>,
    handler: Option<H>,
}

proof fn lemma_alternating_push(notes: Seq<(Seat, SeatNotification)>, e: (Seat, SeatNotification))
    requires
        alternating(notes),
        e.1 == due_at(notes.len() as int),
    ensures
        alternating(notes.push(e)),
{
    let next = notes.push(e);
    assert forall|i: int| 0 <= i < next.len() implies #[trigger] next[i].1 == due_at(i) by {
        if i < notes.len() {
            assert(next[i] == notes[i]);
        }
    }
}

impl<H: InputHandler> WinitInputBackend<H> {
    /// The internal consistency of the adapter: the fixed seat, no more keys
    /// held than events seen, and a handler in the slot whose latest seat
    /// notification is the creation it got on being set.
    pub closed spec fn wf(&self) -> bool {
        &&& self.seat == default_seat()
        &&& self.key_counter <= self.time_counter
        &&& (self.handler matches Some(h) ==> h.seat_notes().len() > 0 && h.seat_notes().last() == (
            default_seat(),
            SeatNotification::Created,
        ))
    }

    /// The time counter: the number of native events drained so far.
    pub closed spec fn spec_time(&self) -> nat {
        self.time_counter as nat
    }

    /// The number of keys held, over all keys.
    pub closed spec fn spec_keys(&self) -> nat {
        self.key_counter as nat
    }

    /// The window's logical size, where known.
    pub closed spec fn spec_window_size(&self) -> Option<(u32, u32)> {
        self.window_size
    }

    /// The handler slot.
    pub closed spec fn spec_handler(&self) -> Option<H> {
        self.handler
    }

    /// A new adapter for a window of the given logical size: both counters at
    /// zero, the default seat, and no handler.
    pub fn new(window_size: Option<(u32, u32)>) -> (r: Self)
        ensures
            r.wf(),
            r.spec_time() == 0,
            r.spec_keys() == 0,
            r.spec_window_size() == window_size,
            r.spec_handler() is None,
    {
        WinitInputBackend {
            seat: Seat::new(0, SeatCapabilities { pointer: true, keyboard: true, touch: true }),
            time_counter: 0,
            key_counter: 0,
            window_size,
            handler: None,
        }
    }

    pub fn seat(&self) -> (r: Seat)
        requires
            self.wf(),
        ensures
            r == default_seat(),
    {
        self.seat
    }

    pub fn time_counter(&self) -> (r: u32)
        ensures
            r == self.spec_time(),
    {
        self.time_counter
    }

    pub fn key_counter(&self) -> (r: u32)
        ensures
            r == self.spec_keys(),
    {
        self.key_counter
    }

    pub fn window_size(&self) -> (r: Option<(u32, u32)>)
        ensures
            r == self.spec_window_size(),
    {
        self.window_size
    }

    /// The handler, if one is set, for the caller to use in place; no
    /// callback is made. The adapter stays consistent as long as the caller
    /// leaves the handler's seat record as it found it.
    pub fn get_handler(&mut self) -> (r: Option<&mut H>)
        requires
            old(self).wf(),
        ensures
            r is Some <==> old(self).spec_handler() is Some,
            r matches Some(h) ==> {
                &&& *h == old(self).spec_handler()->0
                &&& final(self).spec_handler() == Some(*final(h))
                &&& final(h).seat_notes() == h.seat_notes() ==> final(self).wf()
            },
            r is None ==> final(self).spec_handler() is None && final(self).wf(),
            final(self).spec_time() == old(self).spec_time(),
            final(self).spec_keys() == old(self).spec_keys(),
            final(self).spec_window_size() == old(self).spec_window_size(),
    {
        self.handler.as_mut()
    }

    /// Removes the handler, if any, after telling it that the seat is gone,
    /// and hands it back.
    pub fn clear_handler(&mut self) -> (r: Option<H>)
        requires
            old(self).wf(),
        ensures
            final(self).wf(),
            final(self).spec_handler() is None,
            r is Some <==> old(self).spec_handler() is Some,
            r matches Some(h) ==> {
                let before = old(self).spec_handler()->0;
                &&& h.seat_notes() == before.seat_notes().push(
                    (default_seat(), SeatNotification::Destroyed),
                )
                &&& h.received() == before.received()
                &&& before.seat_notes().last() == (default_seat(), SeatNotification::Created)
                &&& alternating(before.seat_notes()) ==> alternating(h.seat_notes())
            },
            final(self).spec_time() == old(self).spec_time(),
            final(self).spec_keys() == old(self).spec_keys(),
            final(self).spec_window_size() == old(self).spec_window_size(),
    {
        let taken = self.handler.take();
        match taken {
            Some(h) => {
                let mut h = h;
                let ghost notes = h.seat_notes();
                h.on_seat_destroyed(&self.seat);
                proof {
                    if alternating(notes) {
                        assert(notes[notes.len() - 1].1 == due_at(notes.len() - 1));
                        lemma_alternating_push(notes, (default_seat(), SeatNotification::Destroyed));
                    }
                }
                Some(h)
            },
            None => None,
        }
    }

    /// Installs `handler`, first tearing down the one before it, which is
    /// handed back: the old handler is told that the seat is gone, then the
    /// new one is told that it exists. The slot then holds `handler`, with
    /// that creation added to its record.
    pub fn set_handler(&mut self, handler: H) -> (r: Option<H>)
        requires
            old(self).wf(),
        ensures
            final(self).wf(),
            final(self).spec_handler() matches Some(h) && h.seat_notes() == handler.seat_notes().push(
                (default_seat(), SeatNotification::Created),
            ) && h.received() == handler.received(),
            alternating(handler.seat_notes()) && handler.seat_notes().len() % 2 == 0 ==> alternating(
                final(self).spec_handler()->0.seat_notes(),
            ),
            r is Some <==> old(self).spec_handler() is Some,
            r matches Some(p) ==> {
                let before = old(self).spec_handler()->0;
                &&& p.seat_notes() == before.seat_notes().push(
                    (default_seat(), SeatNotification::Destroyed),
                )
                &&& p.received() == before.received()
                &&& alternating(before.seat_notes()) ==> alternating(p.seat_notes())
            },
            final(self).spec_time() == old(self).spec_time(),
            final(self).spec_keys() == old(self).spec_keys(),
            final(self).spec_window_size() == old(self).spec_window_size(),
    {
        let previous = self.clear_handler();
        let mut handler = handler;
        let ghost notes = handler.seat_notes();
        handler.on_seat_created(&self.seat);
        proof {
            if alternating(notes) && notes.len() % 2 == 0 {
                lemma_alternating_push(notes, (default_seat(), SeatNotification::Created));
            }
        }
        self.handler = Some(handler);
        previous
    }

    /// Drains one batch of queued native events in arrival order and returns
    /// the normalized events it yields, with whether it held a close
    /// notification. The counters and the window size move as each event
    /// says; the time counter moves by one per native event.
    pub fn translate_events(&mut self, batch: &Vec<WindowEvent>) -> (r: (Vec<InputEvent>, bool))
        requires
            old(self).wf(),
            old(self).spec_time() + batch.len() <= u32::MAX,
        ensures
            final(self).wf(),
            r.0@ == emitted(
                old(self).spec_time(),
                old(self).spec_keys(),
                old(self).spec_window_size(),
                batch@,
            ),
            r.1 == has_close(batch@),
            final(self).spec_time() == old(self).spec_time() + batch.len(),
            final(self).spec_keys() == keys_after_all(old(self).spec_keys(), batch@),
            final(self).spec_window_size() == size_after_all(
                old(self).spec_window_size(),
                batch@,
            ),
            final(self).spec_handler() == old(self).spec_handler(),
    {
        let mut out: Vec<InputEvent> = Vec::new();
        let mut closed = false;
        let n = batch.len();
        let mut i: usize = 0;
        while i < n
            invariant
                0 <= i <= n,
                n == batch.len(),
                old(self).spec_time() + n <= u32::MAX,
                self.wf(),
                self.handler == old(self).handler,
                self.time_counter == old(self).time_counter + i,
                self.key_counter == keys_after_all(
                    old(self).spec_keys(),
                    batch@.subrange(0, i as int),
                ),
                self.window_size == size_after_all(
                    old(self).window_size,
                    batch@.subrange(0, i as int),
                ),
                out@ == emitted(
                    old(self).spec_time(),
                    old(self).spec_keys(),
                    old(self).window_size,
                    batch@.subrange(0, i as int),
                ),
                closed == has_close(batch@.subrange(0, i as int)),
            decreases n - i,
        {
            let ev = &batch[i];
            let size = self.window_size;
            match *ev {
                WindowEvent::KeyboardInput(ElementState::Pressed, _) => {
                    self.key_counter = self.key_counter + 1;
                },
                WindowEvent::KeyboardInput(ElementState::Released, _) => {
                    if self.key_counter > 0 {
                        self.key_counter = self.key_counter - 1;
                    }
                },
                WindowEvent::Resized(w, h) => {
                    self.window_size = Some((w, h));
                },
                WindowEvent::Closed => {
                    closed = true;
                },
                _ => {},
            }
            push_events_for(ev, self.time_counter, self.key_counter, size, &mut out);
            self.time_counter = self.time_counter + 1;
            proof {
                let done = batch@.subrange(0, i as int);
                let next = batch@.subrange(0, i + 1);
                assert(next.drop_last() =~= done);
                assert(next.last() == batch@[i as int]);
                if batch@[i as int] == WindowEvent::Closed {
                    assert(next[i as int] == WindowEvent::Closed);
                } else if has_close(next) {
                    let j = choose|j: int| 0 <= j < next.len() && #[trigger] next[j] == WindowEvent::Closed;
                    assert(done[j] == WindowEvent::Closed);
                }
                if has_close(done) {
                    let j = choose|j: int| 0 <= j < done.len() && #[trigger] done[j] == WindowEvent::Closed;
                    assert(next[j] == WindowEvent::Closed);
                }
            }
            i = i + 1;
        }
        assert(batch@.subrange(0, n as int) =~= batch@);
        (out, closed)
    }

    /// Processes the native events queued since the last call, delivering the
    /// normalized events to the handler, if any, once the whole batch has been
    /// translated: the handler receives exactly the events that
    /// `translate_events` gives, in order, each with the adapter's seat.
    /// Without a handler the events are translated and dropped.
    ///
    /// Returns `WindowClosed` if the batch held a close notification; the rest
    /// of the batch is still processed. After that the window is gone and
    /// calling again is of no use.
    pub fn dispatch_new_events(&mut self, batch: &Vec<WindowEvent>) -> (r: Result<
        (),
        WinitInputError,
    >)
        requires
            old(self).wf(),
            old(self).spec_time() + batch.len() <= u32::MAX,
        ensures
            final(self).wf(),
            r == if has_close(batch@) {
                Err::<(), WinitInputError>(WinitInputError::WindowClosed)
            } else {
                Ok(())
            },
            old(self).spec_handler() is None ==> final(self).spec_handler() is None,
            old(self).spec_handler() matches Some(before) ==> {
                &&& final(self).spec_handler() matches Some(after)
                &&& after.received() == before.received() + seated(
                    default_seat(),
                    emitted(
                        old(self).spec_time(),
                        old(self).spec_keys(),
                        old(self).spec_window_size(),
                        batch@,
                    ),
                )
                &&& after.seat_notes() == before.seat_notes()
            },
            final(self).spec_time() == old(self).spec_time() + batch.len(),
            final(self).spec_keys() == keys_after_all(old(self).spec_keys(), batch@),
            final(self).spec_window_size() == size_after_all(
                old(self).spec_window_size(),
                batch@,
            ),
    {
        let (events, closed) = self.translate_events(batch);
        let taken = self.handler.take();
        match taken {
            Some(h) => {
                let mut h = h;
                let ghost start = h.received();
                let ghost notes = h.seat_notes();
                let ghost seat = self.seat;
                let ghost time = self.time_counter;
                let ghost keys = self.key_counter;
                let ghost size = self.window_size;
                let mut j: usize = 0;
                while j < events.len()
                    invariant
                        j <= events.len(),
                        self.seat == seat,
                        seat == default_seat(),
                        self.time_counter == time,
                        self.key_counter == keys,
                        self.window_size == size,
                        self.handler is None,
                        h.seat_notes() == notes,
                        h.received() == start + seated(seat, events@.subrange(0, j as int)),
                    decreases events.len() - j,
                {
                    deliver(&mut h, &self.seat, events[j]);
                    proof {
                        assert(seated(seat, events@.subrange(0, j + 1)) =~= seated(
                            seat,
                            events@.subrange(0, j as int),
                        ).push((seat, events@[j as int])));
                        assert(start + seated(seat, events@.subrange(0, j + 1)) =~= (start
                            + seated(seat, events@.subrange(0, j as int))).push(
                            (seat, events@[j as int]),
                        ));
                    }
                    j = j + 1;
                }
                assert(events@.subrange(0, events.len() as int) =~= events@);
                self.handler = Some(h);
            },
            None => {},
        }
        if closed {
            Err(WinitInputError::WindowClosed)
        } else {
            Ok(())
        }
    }
}

/// Hands one normalized event to the handler's matching callback.
fn deliver<H: InputHandler>(handler: &mut H, seat: &Seat, event: InputEvent)
    ensures
        final(handler).received() == old(handler).received().push((*seat, event)),
        final(handler).seat_notes() == old(handler).seat_notes(),
{
    match event {
        InputEvent::KeyboardKey(e) => handler.on_keyboard_key(seat, e),
        InputEvent::PointerMotionAbsolute(e) => handler.on_pointer_move_absolute(seat, e),
        InputEvent::PointerAxis(e) => handler.on_pointer_axis(seat, e),
        InputEvent::PointerButton(e) => handler.on_pointer_button(seat, e),
        InputEvent::TouchDown(e) => handler.on_touch_down(seat, e),
        InputEvent::TouchMotion(e) => handler.on_touch_motion(seat, e),
        InputEvent::TouchUp(e) => handler.on_touch_up(seat, e),
        InputEvent::TouchCancel(e) => handler.on_touch_cancel(seat, e),
    }
}

} // verus!
