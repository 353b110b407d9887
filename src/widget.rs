use vstd::prelude::*;

use crate::engine::Size;
use crate::keyboard::KeyboardEvent;
use crate::mouse::{CursorShape, MouseEvent, Point};
use crate::webview::Action;

verus! {

/// An event the host's widget receives.
#[derive(Clone, Debug, PartialEq, Eq)]
pub enum HostEvent {
    Keyboard(KeyboardEvent),
    Mouse(MouseEvent),
    /// Any other event, which the view ignores.
    Other,
}

/// The actions a widget of size `bounds` showing a frame of size `frame`
/// publishes for an event: a resize where the sizes differ, then the event
/// itself; a mouse event only where the pointer is inside the widget, at
/// `pointer` relative to it.
pub open spec fn widget_actions_of(
    frame: Size,
    bounds: Size,
    event: HostEvent,
    pointer: Option<Point>,
) -> Seq<Action> {
    let resize = if frame != bounds {
        seq![Action::Resize(bounds)]
    } else {
        Seq::empty()
    };
    let forwarded = match event {
        HostEvent::Keyboard(e) => seq![Action::SendKeyboardEvent(e)],
        HostEvent::Mouse(e) => match pointer {
            Some(p) => seq![Action::SendMouseEvent(e, p)],
            None => Seq::empty(),
        },
        HostEvent::Other => Seq::empty(),
    };
    resize + forwarded
}

/// Decides what the widget publishes for one event.
pub fn widget_actions(
    frame: Size,
    bounds: Size,
    event: HostEvent,
    pointer: Option<Point>,
) -> (r: Vec<Action>)
    ensures
        r@ == widget_actions_of(frame, bounds, event, pointer),
{
    let mut actions: Vec<Action> = Vec::new();
    if frame.width != bounds.width || frame.height != bounds.height {
        actions.push(Action::Resize(bounds));
    }
    match event {
        HostEvent::Keyboard(e) => {
            actions.push(Action::SendKeyboardEvent(e));
        },
        HostEvent::Mouse(e) => {
            if let Some(p) = pointer {
                actions.push(Action::SendMouseEvent(e, p));
            }
        },
        HostEvent::Other => {},
    }
    proof {
        assert(actions@ =~= widget_actions_of(frame, bounds, event, pointer));
    }
    actions
}

/// The cursor shown over the widget: the view's while the pointer is over
/// it, the idle cursor elsewhere.
pub fn widget_cursor(pointer_over: bool, view_cursor: CursorShape) -> (r: CursorShape)
    ensures
        r == (if pointer_over {
            view_cursor
        } else {
            CursorShape::Idle
        }),
{
    if pointer_over {
        view_cursor
    } else {
        CursorShape::Idle
    }
}

} // verus!
