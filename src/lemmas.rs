//! Laws of the event translation, proved over the spec functions that the
//! adapter's contracts use.
use vstd::prelude::*;

use crate::events::{
    InputEvent, WinitMouseWheelEvent, WinitTouchCancelledEvent, WinitTouchEndedEvent,
    WinitTouchMovedEvent, delta_along,
};
use crate::input::{Axis, Seat, SeatNotification};
use crate::native::{ElementState, MouseScrollDelta, Touch, TouchPhase, WindowEvent};
use crate::winit::{alternating, axis_events, due_at, emitted, events_for, keys_after_all, size_after_all};

verus! {

/// The number of key presses in a run of native events.
pub open spec fn presses(evs: Seq<WindowEvent>) -> nat
    decreases evs.len(),
{
    if evs.len() == 0 {
        0
    } else {
        presses(evs.drop_last()) + match evs.last() {
            WindowEvent::KeyboardInput(ElementState::Pressed, _) => 1nat,
            _ => 0nat,
        }
    }
}

/// The number of key releases in a run of native events.
pub open spec fn releases(evs: Seq<WindowEvent>) -> nat
    decreases evs.len(),
{
    if evs.len() == 0 {
        0
    } else {
        releases(evs.drop_last()) + match evs.last() {
            WindowEvent::KeyboardInput(ElementState::Released, _) => 1nat,
            _ => 0nat,
        }
    }
}

/// Every release in `evs` comes while a key is held: no prefix has more
/// releases than the keys held at the start plus its presses.
pub open spec fn releases_matched(keys: nat, evs: Seq<WindowEvent>) -> bool {
    forall|j: int|
        0 <= j <= evs.len() ==> releases(#[trigger] evs.subrange(0, j)) <= keys + presses(
            evs.subrange(0, j),
        )
}

proof fn lemma_held_keys_whole(keys: nat, evs: Seq<WindowEvent>)
    requires
        releases_matched(keys, evs),
    ensures
        keys_after_all(keys, evs) == keys + presses(evs) - releases(evs),
    decreases evs.len(),
{
    if evs.len() > 0 {
        let before = evs.drop_last();
        assert forall|j: int| 0 <= j <= before.len() implies releases(
            #[trigger] before.subrange(0, j),
        ) <= keys + presses(before.subrange(0, j)) by {
            assert(before.subrange(0, j) =~= evs.subrange(0, j));
        }
        lemma_held_keys_whole(keys, before);
        assert(evs.subrange(0, evs.len() as int) =~= evs);
    }
}

/// The held-key counter never drops below what the presses and releases
/// alone give, and equals it, after every prefix of the run, whenever each
/// release comes while a key is held: from zero, it is presses minus releases.
pub proof fn lemma_held_keys(keys: nat, evs: Seq<WindowEvent>)
    ensures
        keys_after_all(keys, evs) >= keys + presses(evs) - releases(evs),
        releases_matched(keys, evs) ==> forall|j: int|
            0 <= j <= evs.len() ==> #[trigger] keys_after_all(keys, evs.subrange(0, j)) == keys
                + presses(evs.subrange(0, j)) - releases(evs.subrange(0, j)),
    decreases evs.len(),
{
    if evs.len() > 0 {
        lemma_held_keys(keys, evs.drop_last());
    }
    if releases_matched(keys, evs) {
        assert forall|j: int| 0 <= j <= evs.len() implies #[trigger] keys_after_all(
            keys,
            evs.subrange(0, j),
        ) == keys + presses(evs.subrange(0, j)) - releases(evs.subrange(0, j)) by {
            let pre = evs.subrange(0, j);
            assert forall|m: int| 0 <= m <= pre.len() implies releases(
                #[trigger] pre.subrange(0, m),
            ) <= keys + presses(pre.subrange(0, m)) by {
                assert(pre.subrange(0, m) =~= evs.subrange(0, m));
            }
            lemma_held_keys_whole(keys, pre);
        }
    }
}

/// Draining two batches one after the other moves the counters and the
/// window size, and emits the events, exactly as draining them as one batch:
/// the counters carry over from call to call and are never reset.
pub proof fn lemma_split_batches(
    time: nat,
    keys: nat,
    size: Option<(u32, u32)>,
    first: Seq<WindowEvent>,
    second: Seq<WindowEvent>,
)
    ensures
        keys_after_all(keys, first + second) == keys_after_all(
            keys_after_all(keys, first),
            second,
        ),
        size_after_all(size, first + second) == size_after_all(
            size_after_all(size, first),
            second,
        ),
        emitted(time, keys, size, first + second) == emitted(time, keys, size, first) + emitted(
            time + first.len(),
            keys_after_all(keys, first),
            size_after_all(size, first),
            second,
        ),
    decreases second.len(),
{
    if second.len() == 0 {
        assert(first + second =~= first);
        assert(emitted(time, keys, size, first) + Seq::<InputEvent>::empty() =~= emitted(
            time,
            keys,
            size,
            first,
        ));
    } else {
        let rest = second.drop_last();
        lemma_split_batches(time, keys, size, first, rest);
        assert((first + second).drop_last() =~= first + rest);
        assert((first + second).last() == second.last());
        let e1 = emitted(time, keys, size, first);
        let e2 = emitted(
            time + first.len(),
            keys_after_all(keys, first),
            size_after_all(size, first),
            rest,
        );
        let e3 = events_for(
            second.last(),
            (time + first.len() + rest.len()) as u32,
            crate::winit::keys_after(
                keys_after_all(keys_after_all(keys, first), rest),
                second.last(),
            ) as u32,
            size_after_all(size_after_all(size, first), rest),
        );
        assert(e1 + e2 + e3 =~= e1 + (e2 + e3));
    }
}

/// The timestamp that a normalized event carries.
pub open spec fn stamp(e: InputEvent) -> u32 {
    match e {
        InputEvent::KeyboardKey(k) => k.time,
        InputEvent::PointerMotionAbsolute(m) => m.time,
        InputEvent::PointerAxis(a) => a.time,
        InputEvent::PointerButton(b) => b.time,
        InputEvent::TouchDown(t) => t.time,
        InputEvent::TouchMotion(t) => t.time,
        InputEvent::TouchUp(t) => t.time,
        InputEvent::TouchCancel(t) => t.time,
    }
}

proof fn lemma_events_for_stamp(ev: WindowEvent, time: u32, count: u32, size: Option<(u32, u32)>)
    ensures
        forall|i: int|
            0 <= i < events_for(ev, time, count, size).len() ==> stamp(
                #[trigger] events_for(ev, time, count, size)[i],
            ) == time,
{
    if let WindowEvent::MouseWheel(delta) = ev {
        let h = axis_events(time, delta, Axis::Horizontal);
        let v = axis_events(time, delta, Axis::Vertical);
        assert forall|i: int| 0 <= i < (h + v).len() implies stamp(#[trigger] (h + v)[i])
            == time by {
            if i < h.len() {
                assert((h + v)[i] == h[i]);
            } else {
                assert((h + v)[i] == v[i - h.len()]);
            }
        }
    }
}

/// Every event emitted for a run of native events carries the time counter
/// of the native event it came from: timestamps never go down, and all lie
/// between the counter at the start and the counter at the end.
pub proof fn lemma_timestamps(
    time: nat,
    keys: nat,
    size: Option<(u32, u32)>,
    evs: Seq<WindowEvent>,
)
    requires
        time + evs.len() <= u32::MAX,
    ensures
        forall|i: int|
            0 <= i < emitted(time, keys, size, evs).len() ==> time <= stamp(
                #[trigger] emitted(time, keys, size, evs)[i],
            ) < time + evs.len(),
        forall|i: int, j: int|
            0 <= i < j < emitted(time, keys, size, evs).len() ==> stamp(
                #[trigger] emitted(time, keys, size, evs)[i],
            ) <= stamp(#[trigger] emitted(time, keys, size, evs)[j]),
    decreases evs.len(),
{
    if evs.len() > 0 {
        let before = evs.drop_last();
        lemma_timestamps(time, keys, size, before);
        let t = (time + before.len()) as u32;
        let c = crate::winit::keys_after(keys_after_all(keys, before), evs.last()) as u32;
        let sz = size_after_all(size, before);
        lemma_events_for_stamp(evs.last(), t, c, sz);
        let p = emitted(time, keys, size, before);
        let q = events_for(evs.last(), t, c, sz);
        let all = emitted(time, keys, size, evs);
        assert(all == p + q);
        assert forall|i: int| 0 <= i < all.len() implies time <= stamp(#[trigger] all[i]) < time
            + evs.len() by {
            if i < p.len() {
                assert(all[i] == p[i]);
            } else {
                assert(all[i] == q[i - p.len()]);
            }
        }
        assert forall|i: int, j: int| 0 <= i < j < all.len() implies stamp(#[trigger] all[i])
            <= stamp(#[trigger] all[j]) by {
            if j < p.len() {
                assert(all[i] == p[i]);
                assert(all[j] == p[j]);
            } else if i < p.len() {
                assert(all[i] == p[i]);
                assert(all[j] == q[j - p.len()]);
            } else {
                assert(all[i] == q[i - p.len()]);
                assert(all[j] == q[j - p.len()]);
            }
        }
    }
}

/// A touch end adds, at the end of any batch, exactly one motion to the final
/// location and then exactly one lift, both for the contact's own slot.
pub proof fn lemma_touch_end(
    time: nat,
    keys: nat,
    size: Option<(u32, u32)>,
    before: Seq<WindowEvent>,
    touch: Touch,
)
    requires
        touch.phase == TouchPhase::Ended,
    ensures
        emitted(time, keys, size, before.push(WindowEvent::Touch(touch))) == emitted(
            time,
            keys,
            size,
            before,
        ) + seq![
            InputEvent::TouchMotion(
                WinitTouchMovedEvent {
                    time: (time + before.len()) as u32,
                    location: touch.location,
                    id: touch.id,
                    window_size: size_after_all(size, before),
                },
            ),
            InputEvent::TouchUp(
                WinitTouchEndedEvent { time: (time + before.len()) as u32, id: touch.id },
            ),
        ],
{
    assert(before.push(WindowEvent::Touch(touch)).drop_last() =~= before);
}

/// A touch cancel adds, at the end of any batch, exactly one cancel for the
/// contact's slot and no motion.
pub proof fn lemma_touch_cancel(
    time: nat,
    keys: nat,
    size: Option<(u32, u32)>,
    before: Seq<WindowEvent>,
    touch: Touch,
)
    requires
        touch.phase == TouchPhase::Cancelled,
    ensures
        emitted(time, keys, size, before.push(WindowEvent::Touch(touch))) == emitted(
            time,
            keys,
            size,
            before,
        ).push(
            InputEvent::TouchCancel(
                WinitTouchCancelledEvent { time: (time + before.len()) as u32, id: touch.id },
            ),
        ),
{
    assert(before.push(WindowEvent::Touch(touch)).drop_last() =~= before);
    assert(emitted(time, keys, size, before.push(WindowEvent::Touch(touch))) =~= emitted(
        time,
        keys,
        size,
        before,
    ).push(
        InputEvent::TouchCancel(
            WinitTouchCancelledEvent { time: (time + before.len()) as u32, id: touch.id },
        ),
    ));
}

/// The axis notification that a scroll along `axis` adds.
pub open spec fn axis_note(time: nat, delta: MouseScrollDelta, axis: Axis) -> InputEvent {
    InputEvent::PointerAxis(WinitMouseWheelEvent { axis, time: time as u32, delta })
}

/// A scroll adds, at the end of any batch, one axis notification for each
/// axis along which it moved, horizontal first, none for an axis along which
/// it did not; each carries its own axis, and the source kind of its delta.
pub proof fn lemma_wheel(
    time: nat,
    keys: nat,
    size: Option<(u32, u32)>,
    before: Seq<WindowEvent>,
    delta: MouseScrollDelta,
)
    ensures
        ({
            let added = emitted(time, keys, size, before.push(WindowEvent::MouseWheel(delta)));
            let prior = emitted(time, keys, size, before);
            let t = time + before.len();
            let dx = delta_along(delta, Axis::Horizontal);
            let dy = delta_along(delta, Axis::Vertical);
            &&& dx != 0 && dy != 0 ==> added == prior + seq![
                axis_note(t, delta, Axis::Horizontal),
                axis_note(t, delta, Axis::Vertical),
            ]
            &&& dx != 0 && dy == 0 ==> added == prior.push(axis_note(t, delta, Axis::Horizontal))
            &&& dx == 0 && dy != 0 ==> added == prior.push(axis_note(t, delta, Axis::Vertical))
            &&& dx == 0 && dy == 0 ==> added == prior
        }),
{
    let evs = before.push(WindowEvent::MouseWheel(delta));
    assert(evs.drop_last() =~= before);
    let prior = emitted(time, keys, size, before);
    let t = time + before.len();
    assert(prior + seq![axis_note(t, delta, Axis::Horizontal)] =~= prior.push(
        axis_note(t, delta, Axis::Horizontal),
    ));
    assert(prior + seq![axis_note(t, delta, Axis::Vertical)] =~= prior.push(
        axis_note(t, delta, Axis::Vertical),
    ));
    assert(seq![axis_note(t, delta, Axis::Horizontal)] + seq![axis_note(t, delta, Axis::Vertical)]
        =~= seq![axis_note(t, delta, Axis::Horizontal), axis_note(t, delta, Axis::Vertical)]);
    assert(prior + Seq::<InputEvent>::empty() =~= prior);
    assert(Seq::<InputEvent>::empty() + Seq::<InputEvent>::empty() =~= Seq::<InputEvent>::empty());
    assert(seq![axis_note(t, delta, Axis::Horizontal)] + Seq::<InputEvent>::empty() =~= seq![
        axis_note(t, delta, Axis::Horizontal),
    ]);
    assert(Seq::<InputEvent>::empty() + seq![axis_note(t, delta, Axis::Vertical)] =~= seq![
        axis_note(t, delta, Axis::Vertical),
    ]);
}

/// In a handler's seat record that alternates, a creation is never followed
/// directly by another creation.
pub proof fn lemma_no_double_creation(notes: Seq<(Seat, SeatNotification)>)
    requires
        alternating(notes),
    ensures
        forall|i: int|
            #![trigger notes[i], notes[i + 1]]
            0 <= i < notes.len() - 1 ==> !(notes[i].1 == SeatNotification::Created && notes[i
                + 1].1 == SeatNotification::Created),
{
    assert forall|i: int| #![trigger notes[i], notes[i + 1]] 0 <= i < notes.len() - 1 implies !(
    notes[i].1 == SeatNotification::Created && notes[i + 1].1 == SeatNotification::Created) by {
        assert(notes[i].1 == due_at(i));
        assert(notes[i + 1].1 == due_at(i + 1));
    }
}

} // verus!
