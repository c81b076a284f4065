use winit_backend::{
    Axis, AxisSource, ElementState, EventRecorder, InputEvent, KeyState, MouseButton,
    MouseButtonState, MouseScrollDelta, Seat, SeatNotification, Touch, TouchPhase, TouchSlot,
    WindowEvent, WinitInputBackend, WinitInputError, WinitKeyboardInputEvent,
    WinitMouseInputEvent, WinitMouseMovedEvent, WinitMouseWheelEvent, WinitTouchCancelledEvent,
    WinitTouchEndedEvent, WinitTouchMovedEvent, WinitTouchStartedEvent,
};

fn setup() -> WinitInputBackend<EventRecorder> {
    let mut backend = WinitInputBackend::new(Some((800, 600)));
    assert!(backend.set_handler(EventRecorder::new()).is_none());
    backend
}

fn events(backend: &mut WinitInputBackend<EventRecorder>) -> Vec<InputEvent> {
    match backend.get_handler() {
        Some(h) => h.events().iter().map(|(_, e)| *e).collect(),
        None => panic!("expected a handler"),
    }
}

fn touch(phase: TouchPhase, x: i32, y: i32, id: u64) -> WindowEvent {
    WindowEvent::Touch(Touch { phase, location: (x, y), id })
}

#[test]
fn key_counts_follow_presses_and_releases() {
    let mut backend = setup();
    let batch = vec![
        WindowEvent::KeyboardInput(ElementState::Pressed, 30),
        WindowEvent::KeyboardInput(ElementState::Pressed, 48),
        WindowEvent::KeyboardInput(ElementState::Released, 30),
    ];
    assert_eq!(backend.dispatch_new_events(&batch), Ok(()));
    let seen = events(&mut backend);
    let counts: Vec<u32> = seen
        .iter()
        .map(|e| match e {
            InputEvent::KeyboardKey(k) => k.count(),
            _ => panic!("unexpected event"),
        })
        .collect();
    assert_eq!(counts, vec![1, 2, 1]);
    match seen[2] {
        InputEvent::KeyboardKey(k) => {
            assert_eq!(k.key_code(), 30);
            assert_eq!(k.state(), KeyState::Released);
            assert_eq!(k.time(), 2);
        }
        _ => panic!("unexpected event"),
    }
    assert_eq!(backend.key_counter(), 1);
}

#[test]
fn key_counter_floors_at_zero() {
    let mut backend = setup();
    let batch = vec![
        WindowEvent::KeyboardInput(ElementState::Released, 1),
        WindowEvent::KeyboardInput(ElementState::Pressed, 2),
    ];
    assert_eq!(backend.dispatch_new_events(&batch), Ok(()));
    let counts: Vec<u32> = events(&mut backend)
        .iter()
        .map(|e| match e {
            InputEvent::KeyboardKey(k) => k.count(),
            _ => panic!("unexpected event"),
        })
        .collect();
    assert_eq!(counts, vec![0, 1]);
}

#[test]
fn touch_end_is_motion_then_up() {
    let mut backend = setup();
    let batch = vec![touch(TouchPhase::Started, 10, 10, 7), touch(TouchPhase::Ended, 12, 12, 7)];
    assert_eq!(backend.dispatch_new_events(&batch), Ok(()));
    let seen = events(&mut backend);
    assert_eq!(seen.len(), 3);
    match seen[0] {
        InputEvent::TouchDown(e) => {
            assert_eq!(e.slot(), Some(TouchSlot::new(7)));
            assert_eq!((e.x(), e.y()), (10, 10));
        }
        _ => panic!("expected a touch down"),
    }
    match seen[1] {
        InputEvent::TouchMotion(e) => {
            assert_eq!(e.slot(), Some(TouchSlot::new(7)));
            assert_eq!((e.x(), e.y()), (12, 12));
            assert_eq!(e.time(), 1);
        }
        _ => panic!("expected a touch motion"),
    }
    match seen[2] {
        InputEvent::TouchUp(e) => {
            assert_eq!(e.slot(), Some(TouchSlot::new(7)));
            assert_eq!(e.time(), 1);
        }
        _ => panic!("expected a touch up"),
    }
}

#[test]
fn touch_cancel_has_no_motion() {
    let mut backend = setup();
    let batch = vec![touch(TouchPhase::Cancelled, 5, 6, 3)];
    assert_eq!(backend.dispatch_new_events(&batch), Ok(()));
    assert_eq!(
        events(&mut backend),
        vec![InputEvent::TouchCancel(WinitTouchCancelledEvent { time: 0, id: 3 })]
    );
}

#[test]
fn touch_move_keeps_slot() {
    let mut backend = setup();
    let batch = vec![touch(TouchPhase::Moved, 40, 30, 9)];
    assert_eq!(backend.dispatch_new_events(&batch), Ok(()));
    assert_eq!(
        events(&mut backend),
        vec![InputEvent::TouchMotion(WinitTouchMovedEvent {
            time: 0,
            location: (40, 30),
            id: 9,
            window_size: Some((800, 600)),
        })]
    );
}

#[test]
fn wheel_with_both_deltas_gives_two_axes() {
    let mut backend = setup();
    let batch = vec![
        WindowEvent::MouseWheel(MouseScrollDelta::LineDelta(3, -2)),
        WindowEvent::MouseWheel(MouseScrollDelta::PixelDelta(-15, 40)),
    ];
    assert_eq!(backend.dispatch_new_events(&batch), Ok(()));
    let seen: Vec<(Axis, AxisSource, i32, u32)> = events(&mut backend)
        .iter()
        .map(|e| match e {
            InputEvent::PointerAxis(a) => (a.axis(), a.source(), a.amount(), a.time()),
            _ => panic!("unexpected event"),
        })
        .collect();
    assert_eq!(
        seen,
        vec![
            (Axis::Horizontal, AxisSource::Wheel, 3, 0),
            (Axis::Vertical, AxisSource::Wheel, -2, 0),
            (Axis::Horizontal, AxisSource::Continuous, -15, 1),
            (Axis::Vertical, AxisSource::Continuous, 40, 1),
        ]
    );
}

#[test]
fn wheel_with_a_zero_delta_skips_that_axis() {
    let mut backend = setup();
    let batch = vec![
        WindowEvent::MouseWheel(MouseScrollDelta::LineDelta(0, 4)),
        WindowEvent::MouseWheel(MouseScrollDelta::PixelDelta(7, 0)),
        WindowEvent::MouseWheel(MouseScrollDelta::LineDelta(0, 0)),
    ];
    assert_eq!(backend.dispatch_new_events(&batch), Ok(()));
    let seen: Vec<(Axis, i32)> = events(&mut backend)
        .iter()
        .map(|e| match e {
            InputEvent::PointerAxis(a) => (a.axis(), a.amount()),
            _ => panic!("unexpected event"),
        })
        .collect();
    assert_eq!(seen, vec![(Axis::Vertical, 4), (Axis::Horizontal, 7)]);
    assert_eq!(backend.time_counter(), 3);
}

#[test]
fn time_counter_moves_once_per_native_event() {
    let mut backend = setup();
    assert_eq!(backend.time_counter(), 0);
    let batch = vec![
        WindowEvent::Resized(640, 480),
        WindowEvent::Other,
        WindowEvent::MouseMoved(3, 4),
    ];
    assert_eq!(backend.dispatch_new_events(&batch), Ok(()));
    assert_eq!(backend.time_counter(), 3);
    let batch = vec![touch(TouchPhase::Ended, 1, 1, 2)];
    assert_eq!(backend.dispatch_new_events(&batch), Ok(()));
    assert_eq!(backend.time_counter(), 4);
    let seen = events(&mut backend);
    assert_eq!(
        seen[0],
        InputEvent::PointerMotionAbsolute(WinitMouseMovedEvent {
            time: 2,
            x: 3,
            y: 4,
            window_size: Some((640, 480)),
        })
    );
    assert_eq!(seen[1], InputEvent::TouchMotion(WinitTouchMovedEvent {
        time: 3,
        location: (1, 1),
        id: 2,
        window_size: Some((640, 480)),
    }));
    assert_eq!(seen[2], InputEvent::TouchUp(WinitTouchEndedEvent { time: 3, id: 2 }));
}

#[test]
fn resize_is_not_delivered_and_sets_size() {
    let mut backend = setup();
    assert_eq!(backend.dispatch_new_events(&vec![WindowEvent::Resized(1024, 768)]), Ok(()));
    assert!(events(&mut backend).is_empty());
    assert_eq!(backend.window_size(), Some((1024, 768)));
}

#[test]
fn pointer_button_is_delivered() {
    let mut backend = setup();
    let batch = vec![WindowEvent::MouseInput(ElementState::Pressed, winit_backend::WinitMouseButton::Other(9))];
    assert_eq!(backend.dispatch_new_events(&batch), Ok(()));
    match events(&mut backend)[0] {
        InputEvent::PointerButton(b) => {
            assert_eq!(b.button(), MouseButton::Other(9));
            assert_eq!(b.state(), MouseButtonState::Pressed);
            assert_eq!(b.time(), 0);
        }
        _ => panic!("expected a button event"),
    }
}

#[test]
fn new_handler_follows_old_teardown() {
    let mut backend: WinitInputBackend<EventRecorder> = WinitInputBackend::new(None);
    assert!(backend.set_handler(EventRecorder::new()).is_none());
    let seat = backend.seat();
    let first = match backend.set_handler(EventRecorder::new()) {
        Some(h) => h,
        None => panic!("expected the first handler back"),
    };
    assert_eq!(
        *first.notes(),
        vec![(seat, SeatNotification::Created), (seat, SeatNotification::Destroyed)]
    );
    let second = match backend.clear_handler() {
        Some(h) => h,
        None => panic!("expected the second handler back"),
    };
    assert_eq!(
        *second.notes(),
        vec![(seat, SeatNotification::Created), (seat, SeatNotification::Destroyed)]
    );
    assert!(backend.clear_handler().is_none());
    assert!(backend.get_handler().is_none());
}

#[test]
fn get_handler_sends_no_notification() {
    let mut backend = setup();
    let seat = backend.seat();
    match backend.get_handler() {
        Some(h) => {
            assert_eq!(*h.notes(), vec![(seat, SeatNotification::Created)]);
            assert!(h.events().is_empty());
        }
        None => panic!("expected a handler"),
    }
    match backend.get_handler() {
        Some(h) => assert_eq!(h.notes().len(), 1),
        None => panic!("expected a handler"),
    }
}

#[test]
fn events_come_with_the_seat() {
    let mut backend = setup();
    let seat = backend.seat();
    assert_eq!(backend.dispatch_new_events(&vec![WindowEvent::MouseMoved(1, 2)]), Ok(()));
    match backend.get_handler() {
        Some(h) => {
            assert_eq!(h.events().len(), 1);
            assert_eq!(h.events()[0].0, seat);
        }
        None => panic!("expected a handler"),
    }
}

#[test]
fn close_is_reported_after_the_whole_batch() {
    let mut backend = setup();
    let batch = vec![
        WindowEvent::Closed,
        WindowEvent::KeyboardInput(ElementState::Pressed, 5),
        WindowEvent::Closed,
    ];
    assert_eq!(backend.dispatch_new_events(&batch), Err(WinitInputError::WindowClosed));
    assert_eq!(events(&mut backend).len(), 1);
    assert_eq!(backend.key_counter(), 1);
    assert_eq!(backend.time_counter(), 3);
    assert_eq!(backend.dispatch_new_events(&vec![WindowEvent::Other]), Ok(()));
}

#[test]
fn without_handler_time_and_close_are_tracked() {
    let mut backend: WinitInputBackend<EventRecorder> = WinitInputBackend::new(None);
    let batch = vec![WindowEvent::MouseMoved(1, 1), WindowEvent::Closed];
    assert_eq!(backend.dispatch_new_events(&batch), Err(WinitInputError::WindowClosed));
    assert_eq!(backend.time_counter(), 2);
}

#[test]
fn translate_events_buffers_the_batch() {
    let mut backend: WinitInputBackend<EventRecorder> = WinitInputBackend::new(None);
    let batch = vec![
        WindowEvent::KeyboardInput(ElementState::Pressed, 65),
        WindowEvent::Closed,
        touch(TouchPhase::Started, 2, 3, 11),
    ];
    let (out, closed) = backend.translate_events(&batch);
    assert!(closed);
    assert_eq!(
        out,
        vec![
            InputEvent::KeyboardKey(WinitKeyboardInputEvent {
                time: 0,
                key: 65,
                count: 1,
                state: ElementState::Pressed,
            }),
            InputEvent::TouchDown(WinitTouchStartedEvent {
                time: 2,
                location: (2, 3),
                id: 11,
                window_size: None,
            }),
        ]
    );
}

#[test]
fn seat_is_fixed() {
    let backend = setup();
    let seat = backend.seat();
    assert_eq!(seat.id(), 0);
    let caps = seat.capabilities();
    assert!(caps.pointer && caps.keyboard && caps.touch);
}

#[test]
fn error_text() {
    assert_eq!(WinitInputError::WindowClosed.description(), "Glutin Window was closed");
}

#[test]
fn two_batches_match_one() {
    let batch = vec![
        WindowEvent::KeyboardInput(ElementState::Pressed, 1),
        WindowEvent::Resized(100, 50),
        touch(TouchPhase::Ended, 4, 4, 1),
        WindowEvent::MouseWheel(MouseScrollDelta::LineDelta(1, 1)),
    ];
    let mut whole = setup();
    assert_eq!(whole.dispatch_new_events(&batch), Ok(()));
    let mut split = setup();
    assert_eq!(split.dispatch_new_events(&batch[..2].to_vec()), Ok(()));
    assert_eq!(split.dispatch_new_events(&batch[2..].to_vec()), Ok(()));
    assert_eq!(events(&mut whole), events(&mut split));
    assert_eq!(whole.time_counter(), 4);
    assert_eq!(split.time_counter(), 4);
    assert_eq!(split.key_counter(), 1);
    assert_eq!(split.window_size(), Some((100, 50)));
}
