use winit_backend::{
    ElementState, KeyState, MouseButton, MouseButtonState, WinitMouseButton,
    WinitMouseMovedEvent, WinitTouchMovedEvent, WinitTouchStartedEvent, transform_coordinate,
};

#[test]
fn transform_scales_into_destination() {
    assert_eq!(transform_coordinate(50, 100, 200), 25);
    assert_eq!(transform_coordinate(399, 1920, 800), 957);
}

#[test]
fn transform_bounds_into_destination() {
    assert_eq!(transform_coordinate(-5, 100, 200), 0);
    assert_eq!(transform_coordinate(0, 100, 200), 0);
    assert_eq!(transform_coordinate(300, 100, 200), 100);
    assert_eq!(transform_coordinate(i32::MAX, u32::MAX, 1), u32::MAX);
}

#[test]
fn transform_with_unknown_size_is_one_to_one() {
    assert_eq!(transform_coordinate(42, 100, 0), 42);
    assert_eq!(transform_coordinate(420, 100, 0), 100);
}

#[test]
fn pointer_transform_uses_window_size() {
    let e = WinitMouseMovedEvent { time: 0, x: 200, y: 150, window_size: Some((800, 600)) };
    assert_eq!(e.x_transformed(1600), 400);
    assert_eq!(e.y_transformed(300), 75);
    let unknown = WinitMouseMovedEvent { time: 0, x: 200, y: 150, window_size: None };
    assert_eq!(unknown.x_transformed(1600), 200);
    assert_eq!(unknown.y_transformed(100), 100);
}

#[test]
fn touch_transforms_use_window_size() {
    let down = WinitTouchStartedEvent { time: 0, location: (100, 50), id: 1, window_size: Some((200, 100)) };
    assert_eq!(down.x_transformed(1000), 500);
    assert_eq!(down.y_transformed(1000), 500);
    let moved = WinitTouchMovedEvent { time: 0, location: (-1, 100), id: 1, window_size: Some((200, 100)) };
    assert_eq!(moved.x_transformed(1000), 0);
    assert_eq!(moved.y_transformed(1000), 1000);
}

#[test]
fn native_states_convert() {
    assert_eq!(KeyState::from(ElementState::Pressed), KeyState::Pressed);
    assert_eq!(KeyState::from(ElementState::Released), KeyState::Released);
    assert_eq!(MouseButtonState::from(ElementState::Pressed), MouseButtonState::Pressed);
    assert_eq!(MouseButtonState::from(ElementState::Released), MouseButtonState::Released);
    assert_eq!(MouseButton::from(WinitMouseButton::Left), MouseButton::Left);
    assert_eq!(MouseButton::from(WinitMouseButton::Right), MouseButton::Right);
    assert_eq!(MouseButton::from(WinitMouseButton::Middle), MouseButton::Middle);
    assert_eq!(MouseButton::from(WinitMouseButton::Other(4)), MouseButton::Other(4));
}
