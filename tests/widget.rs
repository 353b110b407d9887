use astrolabe::engine::Size;
use astrolabe::keyboard::{KeyboardEvent, Modifiers};
use astrolabe::mouse::{CursorShape, MouseEvent, Point};
use astrolabe::webview::Action;
use astrolabe::widget::{widget_actions, widget_cursor, HostEvent};

fn size(width: u32, height: u32) -> Size {
    Size { width, height }
}

#[test]
fn size_change_publishes_resize_first() {
    let mods = Modifiers { alt: false, control: true, logo: false, shift: false };
    let ev = KeyboardEvent::ModifiersChanged(mods);
    let actions = widget_actions(size(10, 10), size(12, 9), HostEvent::Keyboard(ev.clone()), None);
    assert_eq!(actions, vec![Action::Resize(size(12, 9)), Action::SendKeyboardEvent(ev)]);
}

#[test]
fn mouse_outside_widget_is_dropped() {
    let actions = widget_actions(size(5, 5), size(5, 5), HostEvent::Mouse(MouseEvent::CursorMoved), None);
    assert!(actions.is_empty());
    let p = Point { x: 1, y: 2 };
    let actions =
        widget_actions(size(5, 5), size(5, 5), HostEvent::Mouse(MouseEvent::CursorMoved), Some(p));
    assert_eq!(actions, vec![Action::SendMouseEvent(MouseEvent::CursorMoved, p)]);
}

#[test]
fn other_events_only_resize() {
    assert!(widget_actions(size(1, 1), size(1, 1), HostEvent::Other, None).is_empty());
    assert_eq!(
        widget_actions(size(1, 1), size(2, 1), HostEvent::Other, None),
        vec![Action::Resize(size(2, 1))]
    );
}

#[test]
fn cursor_shown_only_over_widget() {
    assert_eq!(widget_cursor(true, CursorShape::Text), CursorShape::Text);
    assert_eq!(widget_cursor(false, CursorShape::Text), CursorShape::Idle);
}
