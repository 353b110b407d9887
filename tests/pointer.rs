use astrolabe::mouse::{
    native_pointer_move,
    cursor_or_default, translate_cursor, translate_mouse_event, translate_scroll, MouseEventType, NativeMouseEvent,
    CursorShape, MouseAction, MouseButton, MouseEvent, NativeButton, NativeCursor, Point,
    ScrollDelta,
};

#[test]
fn line_scroll_is_scaled() {
    assert_eq!(translate_scroll(ScrollDelta::Lines { x: 100, y: -300 }), (100, -300));
}

#[test]
fn fractional_lines_are_kept() {
    assert_eq!(translate_scroll(ScrollDelta::Lines { x: 150, y: -25 }), (150, -25));
}

#[test]
fn pixel_scroll_passes_through() {
    assert_eq!(translate_scroll(ScrollDelta::Pixels { x: 7, y: -9 }), (7, -9));
}

#[test]
fn line_scroll_saturates() {
    assert_eq!(
        translate_scroll(ScrollDelta::Lines { x: i32::MAX, y: i32::MIN }),
        (i32::MAX, i32::MIN)
    );
}

#[test]
fn buttons_become_native_events() {
    let p = Point { x: 12, y: 34 };
    assert_eq!(
        translate_mouse_event(MouseEvent::ButtonPressed(MouseButton::Left), p),
        MouseAction::Button(NativeMouseEvent {
            ty: MouseEventType::MouseDown,
            x: 12,
            y: 34,
            button: Some(NativeButton::Left),
        })
    );
    assert_eq!(
        translate_mouse_event(MouseEvent::ButtonReleased(MouseButton::Right), p),
        MouseAction::Button(NativeMouseEvent {
            ty: MouseEventType::MouseUp,
            x: 12,
            y: 34,
            button: Some(NativeButton::Right),
        })
    );
    assert_eq!(
        translate_mouse_event(MouseEvent::ButtonPressed(MouseButton::Middle), p),
        MouseAction::Ignore
    );
}

#[test]
fn history_buttons_navigate() {
    let p = Point::default();
    assert_eq!(
        translate_mouse_event(MouseEvent::ButtonReleased(MouseButton::Forward), p),
        MouseAction::GoForward
    );
    assert_eq!(
        translate_mouse_event(MouseEvent::ButtonReleased(MouseButton::Back), p),
        MouseAction::GoBack
    );
    assert_eq!(
        translate_mouse_event(MouseEvent::ButtonPressed(MouseButton::Back), p),
        MouseAction::Ignore
    );
}

#[test]
fn pointer_focus_and_wheel() {
    let p = Point { x: 5, y: 6 };
    assert_eq!(translate_mouse_event(MouseEvent::CursorMoved, p), MouseAction::MovePointer(p));
    assert_eq!(translate_mouse_event(MouseEvent::CursorEntered, p), MouseAction::Focus);
    assert_eq!(translate_mouse_event(MouseEvent::CursorLeft, p), MouseAction::Unfocus);
    assert_eq!(
        translate_mouse_event(MouseEvent::WheelScrolled(ScrollDelta::Lines { x: 0, y: 200 }), p),
        MouseAction::Scroll { dx: 0, dy: 200 }
    );
}

#[test]
fn cursor_shapes() {
    assert_eq!(translate_cursor(NativeCursor::Hand), CursorShape::Pointer);
    assert_eq!(translate_cursor(NativeCursor::Pointer), CursorShape::Idle);
    assert_eq!(translate_cursor(NativeCursor::IBeam), CursorShape::Text);
    assert_eq!(translate_cursor(NativeCursor::NorthSouthResize), CursorShape::ResizingVertically);
    assert_eq!(translate_cursor(NativeCursor::EastWestResize), CursorShape::ResizingHorizontally);
    assert_eq!(translate_cursor(NativeCursor::ZoomOut), CursorShape::ZoomIn);
    assert_eq!(translate_cursor(NativeCursor::Wait), CursorShape::Working);
    assert_eq!(translate_cursor(NativeCursor::Other), CursorShape::Pointer);
}

#[test]
fn failed_cursor_read_shows_busy() {
    assert_eq!(cursor_or_default(None), CursorShape::Working);
    assert_eq!(cursor_or_default(Some(CursorShape::Text)), CursorShape::Text);
}

#[test]
fn pointer_replay_event() {
    assert_eq!(
        native_pointer_move(Point { x: 9, y: -1 }),
        NativeMouseEvent { ty: MouseEventType::MouseMoved, x: 9, y: -1, button: None }
    );
}
