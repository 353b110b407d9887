use vstd::prelude::*;

verus! {

/// A pointer position in view coordinates.
#[derive(Clone, Copy, Debug, Default, PartialEq, Eq, Structural)]
pub struct Point {
    pub x: i32,
    pub y: i32,
}

/// Mouse buttons as the host reports them.
#[derive(Clone, Copy, Debug, PartialEq, Eq, Structural)]
pub enum MouseButton {
    Left,
    Right,
    Middle,
    Back,
    Forward,
    Other,
}

/// A wheel movement, in lines or in pixels.
#[derive(Clone, Copy, Debug, PartialEq, Eq, Structural)]
pub enum ScrollDelta {
    /// Lines, counted in steps of `1 / LINE_STEPS` of a line.
    Lines { x: i32, y: i32 },
    Pixels { x: i32, y: i32 },
}

/// A host-neutral mouse event.
#[derive(Clone, Copy, Debug, PartialEq, Eq, Structural)]
pub enum MouseEvent {
    CursorEntered,
    CursorLeft,
    CursorMoved,
    ButtonPressed(MouseButton),
    ButtonReleased(MouseButton),
    WheelScrolled(ScrollDelta),
}

/// Kind of a native mouse event.
#[derive(Clone, Copy, Debug, PartialEq, Eq, Structural)]
pub enum MouseEventType {
    MouseMoved,
    MouseDown,
    MouseUp,
}

/// Button identity of a native button event.
#[derive(Clone, Copy, Debug, PartialEq, Eq, Structural)]
pub enum NativeButton {
    Left,
    Right,
}

/// A native mouse event: its kind, position and button, if any.
#[derive(Clone, Copy, Debug, PartialEq, Eq, Structural)]
pub struct NativeMouseEvent {
    pub ty: MouseEventType,
    pub x: i32,
    pub y: i32,
    pub button: Option<NativeButton>,
}

/// What a backend does with one mouse event.
#[derive(Clone, Copy, Debug, PartialEq, Eq, Structural)]
pub enum MouseAction {
    /// Fire a native button event.
    Button(NativeMouseEvent),
    /// Navigate forward in the view's history.
    GoForward,
    /// Navigate back in the view's history.
    GoBack,
    /// Give focus to every view.
    Focus,
    /// Take focus from every view.
    Unfocus,
    /// Remember the pointer position for the next paint.
    MovePointer(Point),
    /// Fire a native scroll event with these pixel deltas.
    Scroll { dx: i32, dy: i32 },
    /// Nothing to do.
    Ignore,
}

/// Pixels per wheel line.
pub const LINE_SCROLL_PIXELS: i32 = 100;

/// Steps per wheel line in `ScrollDelta::Lines`.
pub const LINE_STEPS: i32 = 100;

/// `v` pixels, held within the range of `i32`.
pub open spec fn clamp_i32(v: int) -> i32 {
    if v > i32::MAX {
        i32::MAX
    } else if v < i32::MIN {
        i32::MIN
    } else {
        v as i32
    }
}

/// Pixels for `v` steps of a line, rounded toward zero and held within the
/// range of `i32`.
pub open spec fn line_pixels(v: i32) -> i32 {
    if v >= 0 {
        clamp_i32((v * LINE_SCROLL_PIXELS) / LINE_STEPS as int)
    } else {
        clamp_i32(-((-v * LINE_SCROLL_PIXELS) / LINE_STEPS as int))
    }
}

/// Pixel deltas of a wheel movement: lines are scaled, pixels pass through.
pub open spec fn scroll_pixels(delta: ScrollDelta) -> (i32, i32) {
    match delta {
        ScrollDelta::Lines { x, y } => (
            line_pixels(x),
            line_pixels(y),
        ),
        ScrollDelta::Pixels { x, y } => (x, y),
    }
}

/// A native button event at `point`.
pub open spec fn button_event(
    ty: MouseEventType,
    button: NativeButton,
    point: Point,
) -> NativeMouseEvent {
    NativeMouseEvent { ty, x: point.x, y: point.y, button: Some(button) }
}

/// A native pointer move to `point`, with no button.
pub open spec fn pointer_move(point: Point) -> NativeMouseEvent {
    NativeMouseEvent { ty: MouseEventType::MouseMoved, x: point.x, y: point.y, button: None }
}

/// The backend's response to a mouse event at `point`.
pub open spec fn mouse_action(event: MouseEvent, point: Point) -> MouseAction {
    match event {
        MouseEvent::ButtonReleased(MouseButton::Forward) => MouseAction::GoForward,
        MouseEvent::ButtonReleased(MouseButton::Back) => MouseAction::GoBack,
        MouseEvent::ButtonPressed(MouseButton::Left) => MouseAction::Button(
            button_event(MouseEventType::MouseDown, NativeButton::Left, point),
        ),
        MouseEvent::ButtonReleased(MouseButton::Left) => MouseAction::Button(
            button_event(MouseEventType::MouseUp, NativeButton::Left, point),
        ),
        MouseEvent::ButtonPressed(MouseButton::Right) => MouseAction::Button(
            button_event(MouseEventType::MouseDown, NativeButton::Right, point),
        ),
        MouseEvent::ButtonReleased(MouseButton::Right) => MouseAction::Button(
            button_event(MouseEventType::MouseUp, NativeButton::Right, point),
        ),
        MouseEvent::CursorMoved => MouseAction::MovePointer(point),
        MouseEvent::WheelScrolled(delta) => MouseAction::Scroll {
            dx: scroll_pixels(delta).0,
            dy: scroll_pixels(delta).1,
        },
        MouseEvent::CursorLeft => MouseAction::Unfocus,
        MouseEvent::CursorEntered => MouseAction::Focus,
        _ => MouseAction::Ignore,
    }
}

/// Scales steps of a line to pixels.
fn lines_to_pixels(v: i32) -> (r: i32)
    ensures
        r == line_pixels(v),
{
    let m: u64 = if v >= 0 {
        v as u64
    } else {
        (-(v as i64)) as u64
    };
    let per_line: u64 = LINE_SCROLL_PIXELS as u64;
    assert(m * per_line <= 0x8000_0000u64 * 100) by (nonlinear_arith)
        requires
            m <= 0x8000_0000u64,
            per_line == 100,
    ;
    let scaled: u64 = m * per_line / (LINE_STEPS as u64);
    if v >= 0 {
        if scaled > i32::MAX as u64 {
            i32::MAX
        } else {
            scaled as i32
        }
    } else {
        if scaled > 0x8000_0000u64 {
            i32::MIN
        } else {
            (-(scaled as i64)) as i32
        }
    }
}

/// Pixel deltas of a wheel movement.
pub fn translate_scroll(delta: ScrollDelta) -> (r: (i32, i32))
    ensures
        r == scroll_pixels(delta),
{
    match delta {
        ScrollDelta::Lines { x, y } => (lines_to_pixels(x), lines_to_pixels(y)),
        ScrollDelta::Pixels { x, y } => (x, y),
    }
}

/// The native button event at `point`.
fn native_button(ty: MouseEventType, button: NativeButton, point: Point) -> (r: NativeMouseEvent)
    ensures
        r == button_event(ty, button, point),
{
    NativeMouseEvent { ty, x: point.x, y: point.y, button: Some(button) }
}

/// The native event that moves the pointer to `point`.
pub fn native_pointer_move(point: Point) -> (r: NativeMouseEvent)
    ensures
        r == pointer_move(point),
{
    NativeMouseEvent { ty: MouseEventType::MouseMoved, x: point.x, y: point.y, button: None }
}

/// Decides what a backend does with a mouse event at `point`.
pub fn translate_mouse_event(event: MouseEvent, point: Point) -> (r: MouseAction)
    ensures
        r == mouse_action(event, point),
{
    match event {
        MouseEvent::ButtonReleased(MouseButton::Forward) => MouseAction::GoForward,
        MouseEvent::ButtonReleased(MouseButton::Back) => MouseAction::GoBack,
        MouseEvent::ButtonPressed(MouseButton::Left) => MouseAction::Button(
            native_button(MouseEventType::MouseDown, NativeButton::Left, point),
        ),
        MouseEvent::ButtonReleased(MouseButton::Left) => MouseAction::Button(
            native_button(MouseEventType::MouseUp, NativeButton::Left, point),
        ),
        MouseEvent::ButtonPressed(MouseButton::Right) => MouseAction::Button(
            native_button(MouseEventType::MouseDown, NativeButton::Right, point),
        ),
        MouseEvent::ButtonReleased(MouseButton::Right) => MouseAction::Button(
            native_button(MouseEventType::MouseUp, NativeButton::Right, point),
        ),
        MouseEvent::CursorMoved => MouseAction::MovePointer(point),
        MouseEvent::WheelScrolled(delta) => {
            let (dx, dy) = translate_scroll(delta);
            MouseAction::Scroll { dx, dy }
        },
        MouseEvent::CursorLeft => MouseAction::Unfocus,
        MouseEvent::CursorEntered => MouseAction::Focus,
        _ => MouseAction::Ignore,
    }
}

/// Abstract cursor shapes shown over a view.
#[derive(Clone, Copy, Debug, PartialEq, Eq, Structural)]
pub enum CursorShape {
    Idle,
    Pointer,
    Grab,
    Text,
    Crosshair,
    Working,
    ResizingVertically,
    ResizingHorizontally,
    NotAllowed,
    ZoomIn,
}

/// Cursor shapes a native engine asks for.
#[derive(Clone, Copy, Debug, PartialEq, Eq, Structural)]
pub enum NativeCursor {
    Hidden,
    Pointer,
    Hand,
    Grab,
    Grabbing,
    VerticalText,
    IBeam,
    Cross,
    Wait,
    NorthSouthResize,
    EastWestResize,
    NotAllowed,
    ZoomIn,
    ZoomOut,
    /// Any other native shape.
    Other,
}

/// The abstract shape shown for a native cursor; unknown shapes show a pointer.
pub open spec fn cursor_shape(c: NativeCursor) -> CursorShape {
    match c {
        NativeCursor::Hidden => CursorShape::Idle,
        NativeCursor::Pointer => CursorShape::Idle,
        NativeCursor::Hand => CursorShape::Pointer,
        NativeCursor::Grab => CursorShape::Grab,
        NativeCursor::Grabbing => CursorShape::Grab,
        NativeCursor::VerticalText => CursorShape::Text,
        NativeCursor::IBeam => CursorShape::Text,
        NativeCursor::Cross => CursorShape::Crosshair,
        NativeCursor::Wait => CursorShape::Working,
        NativeCursor::NorthSouthResize => CursorShape::ResizingVertically,
        NativeCursor::EastWestResize => CursorShape::ResizingHorizontally,
        NativeCursor::NotAllowed => CursorShape::NotAllowed,
        NativeCursor::ZoomIn => CursorShape::ZoomIn,
        NativeCursor::ZoomOut => CursorShape::ZoomIn,
        NativeCursor::Other => CursorShape::Pointer,
    }
}

/// Maps a native cursor onto the abstract cursor shapes.
pub fn translate_cursor(c: NativeCursor) -> (r: CursorShape)
    ensures
        r == cursor_shape(c),
{
    match c {
        NativeCursor::Hidden => CursorShape::Idle,
        NativeCursor::Pointer => CursorShape::Idle,
        NativeCursor::Hand => CursorShape::Pointer,
        NativeCursor::Grab => CursorShape::Grab,
        NativeCursor::Grabbing => CursorShape::Grab,
        NativeCursor::VerticalText => CursorShape::Text,
        NativeCursor::IBeam => CursorShape::Text,
        NativeCursor::Cross => CursorShape::Crosshair,
        NativeCursor::Wait => CursorShape::Working,
        NativeCursor::NorthSouthResize => CursorShape::ResizingVertically,
        NativeCursor::EastWestResize => CursorShape::ResizingHorizontally,
        NativeCursor::NotAllowed => CursorShape::NotAllowed,
        NativeCursor::ZoomIn => CursorShape::ZoomIn,
        NativeCursor::ZoomOut => CursorShape::ZoomIn,
        NativeCursor::Other => CursorShape::Pointer,
    }
}

/// The cursor to show after reading the shared cursor cell: a failed read
/// shows the busy cursor.
pub fn cursor_or_default(read: Option<CursorShape>) -> (r: CursorShape)
    ensures
        r == (match read {
            Some(c) => c,
            None => CursorShape::Working,
        }),
{
    match read {
        Some(c) => c,
        None => CursorShape::Working,
    }
}

} // verus!
