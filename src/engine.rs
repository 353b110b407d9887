use vstd::prelude::*;

use crate::image::{frame_len, is_blank, Frame, ImageInfo};
use crate::keyboard::KeyboardEvent;
use crate::mouse::{CursorShape, MouseEvent, Point, ScrollDelta};

verus! {

/// Identifier of one logical browsing context.
pub type ViewId = usize;

/// A viewport size in pixels.
#[derive(Clone, Copy, Debug, PartialEq, Eq, Structural)]
pub struct Size {
    pub width: u32,
    pub height: u32,
}

/// Content to load into a view.
#[derive(Clone, Debug, Eq, PartialEq, PartialOrd, Ord)]
pub enum PageType {
    Url(String),
    Html(String),
}

/// Size change used to force a repaint: some native surfaces lay out again
/// only when the size they are given really changes.
pub const RESIZE_NUDGE: u32 = 10;

/// A size that differs from `s` in both dimensions by the nudge: wider and
/// shorter where the range of `u32` allows.
pub open spec fn nudged(s: Size) -> Size {
    Size {
        width: if s.width <= u32::MAX - RESIZE_NUDGE {
            (s.width + RESIZE_NUDGE) as u32
        } else {
            (s.width - RESIZE_NUDGE) as u32
        },
        height: if s.height >= RESIZE_NUDGE {
            (s.height - RESIZE_NUDGE) as u32
        } else {
            (s.height + RESIZE_NUDGE) as u32
        },
    }
}

/// The nudged size of `s`.
pub fn nudge(s: Size) -> (r: Size)
    ensures
        r == nudged(s),
{
    let width = if s.width <= u32::MAX - RESIZE_NUDGE {
        s.width + RESIZE_NUDGE
    } else {
        s.width - RESIZE_NUDGE
    };
    let height = if s.height >= RESIZE_NUDGE {
        s.height - RESIZE_NUDGE
    } else {
        s.height + RESIZE_NUDGE
    };
    Size { width, height }
}

/// A reference to a view that the engine does not hold.
#[derive(Clone, Copy, Debug, PartialEq, Eq, Structural)]
pub struct ViewNotFound {
    pub id: ViewId,
}

/// The capabilities every rendering backend offers.
///
/// A backend owns its native views, keyed by `ViewId`. Every operation that
/// names a view asks that the view be live: naming another is a contract
/// violation, which verified callers cannot commit.
pub trait Engine: Sized {
    /// The backend's own invariant.
    spec fn inv(&self) -> bool;

    /// Ids of the views the engine holds.
    spec fn live_views(&self) -> Set<ViewId>;

    /// Ids of the views in order of creation.
    spec fn view_order(&self) -> Seq<ViewId>;

    /// Last frame captured for a view.
    spec fn frame(&self, id: ViewId) -> Frame;

    /// Whether a load of the view is awaited, so that its end is captured.
    spec fn loading(&self, id: ViewId) -> bool;

    /// Last known pointer position over a view, replayed after every paint.
    spec fn pointer(&self, id: ViewId) -> Point;

    /// Starts the engine, with no views. Done once per process.
    fn start() -> (r: Self)
        ensures
            r.inv(),
            r.live_views() == Set::<ViewId>::empty(),
            r.view_order() == Seq::<ViewId>::empty(),
    ;

    /// Creates a view of the given size, with a blank frame, and starts
    /// loading the content.
    fn new_view(&mut self, size: Size, content: Option<PageType>) -> (id: ViewId)
        requires
            old(self).inv(),
            frame_len(size.width, size.height) <= usize::MAX,
        ensures
            final(self).inv(),
            !old(self).live_views().contains(id),
            final(self).live_views() == old(self).live_views().insert(id),
            final(self).view_order() == old(self).view_order().push(id),
            is_blank(final(self).frame(id), size.width, size.height),
            final(self).loading(id),
            final(self).pointer(id) == (Point { x: 0, y: 0 }),
            forall|k: ViewId|
                #![trigger final(self).frame(k)]
                #![trigger final(self).loading(k)]
                #![trigger final(self).pointer(k)]
                old(self).live_views().contains(k) ==> {
                    &&& final(self).frame(k) == old(self).frame(k)
                    &&& final(self).loading(k) == old(self).loading(k)
                    &&& final(self).pointer(k) == old(self).pointer(k)
                },
    ;

    /// Releases a view and its native resources.
    fn remove_view(&mut self, id: ViewId)
        requires
            old(self).inv(),
            old(self).live_views().contains(id),
        ensures
            final(self).inv(),
            final(self).live_views() == old(self).live_views().remove(id),
            exists|i: int|
                0 <= i < old(self).view_order().len() && old(self).view_order()[i] == id
                    && final(self).view_order() == old(self).view_order().remove(i),
            forall|k: ViewId|
                #![trigger final(self).frame(k)]
                #![trigger final(self).loading(k)]
                #![trigger final(self).pointer(k)]
                old(self).live_views().contains(k) && k != id ==> {
                    &&& final(self).frame(k) == old(self).frame(k)
                    &&& final(self).loading(k) == old(self).loading(k)
                    &&& final(self).pointer(k) == old(self).pointer(k)
                },
    ;

    /// Takes focus from every view.
    fn unfocus(&self)
        requires
            self.inv(),
    ;

    /// Advances the engine's scheduler without capturing pixels.
    fn update(&mut self)
        requires
            old(self).inv(),
        ensures
            final(self).inv(),
            final(self).live_views() == old(self).live_views(),
            final(self).view_order() == old(self).view_order(),
            forall|k: ViewId|
                #![trigger final(self).frame(k)]
                #![trigger final(self).loading(k)]
                #![trigger final(self).pointer(k)]
                old(self).live_views().contains(k) ==> {
                    &&& final(self).frame(k) == old(self).frame(k)
                    &&& final(self).loading(k) == old(self).loading(k)
                    &&& final(self).pointer(k) == old(self).pointer(k)
                },
    ;

    /// Captures every view that needs a paint or has just finished loading;
    /// every other view keeps its frame.
    fn render(&mut self, size: Size)
        requires
            old(self).inv(),
            frame_len(size.width, size.height) <= usize::MAX,
        ensures
            final(self).inv(),
            final(self).live_views() == old(self).live_views(),
            final(self).view_order() == old(self).view_order(),
            forall|k: ViewId|
                #![trigger final(self).frame(k)]
                old(self).live_views().contains(k) ==> {
                    &&& final(self).pointer(k) == old(self).pointer(k)
                    &&& (final(self).frame(k) == old(self).frame(k) && final(self).loading(k)
                        == old(self).loading(k)) || (final(self).frame(k).width == size.width
                        && final(self).frame(k).height == size.height && !final(self).loading(k))
                },
    ;

    /// Captures one view now, at the given size. Where the capture succeeds
    /// the frame has that size and no load is awaited any more; where it
    /// fails the view keeps its frame.
    fn request_render(&mut self, id: ViewId, size: Size) -> (captured: bool)
        requires
            old(self).inv(),
            old(self).live_views().contains(id),
            frame_len(size.width, size.height) <= usize::MAX,
        ensures
            final(self).inv(),
            final(self).live_views() == old(self).live_views(),
            final(self).view_order() == old(self).view_order(),
            forall|k: ViewId|
                #![trigger final(self).frame(k)]
                #![trigger final(self).loading(k)]
                #![trigger final(self).pointer(k)]
                old(self).live_views().contains(k) && k != id ==> {
                    &&& final(self).frame(k) == old(self).frame(k)
                    &&& final(self).loading(k) == old(self).loading(k)
                    &&& final(self).pointer(k) == old(self).pointer(k)
                },
            final(self).pointer(id) == old(self).pointer(id),
            captured ==> final(self).frame(id).width == size.width
                && final(self).frame(id).height == size.height && !final(self).loading(id),
            !captured ==> final(self).frame(id) == old(self).frame(id) && final(self).loading(id)
                == old(self).loading(id),
    ;

    /// Gives every view focus.
    fn focus(&mut self)
        requires
            old(self).inv(),
        ensures
            final(self).inv(),
            final(self).live_views() == old(self).live_views(),
            final(self).view_order() == old(self).view_order(),
            forall|k: ViewId|
                #![trigger final(self).frame(k)]
                #![trigger final(self).loading(k)]
                #![trigger final(self).pointer(k)]
                old(self).live_views().contains(k) ==> {
                    &&& final(self).frame(k) == old(self).frame(k)
                    &&& final(self).loading(k) == old(self).loading(k)
                    &&& final(self).pointer(k) == old(self).pointer(k)
                },
    ;

    /// Resizes every view; each will be captured again.
    fn resize(&mut self, size: Size)
        requires
            old(self).inv(),
        ensures
            final(self).inv(),
            final(self).live_views() == old(self).live_views(),
            final(self).view_order() == old(self).view_order(),
            forall|k: ViewId|
                #![trigger final(self).frame(k)]
                #![trigger final(self).loading(k)]
                #![trigger final(self).pointer(k)]
                old(self).live_views().contains(k) ==> {
                    &&& final(self).frame(k) == old(self).frame(k)
                    &&& final(self).loading(k) == old(self).loading(k)
                    &&& final(self).pointer(k) == old(self).pointer(k)
                },
    ;

    /// Delivers a keyboard event to a view.
    fn handle_keyboard_event(&mut self, id: ViewId, event: KeyboardEvent)
        requires
            old(self).inv(),
            old(self).live_views().contains(id),
        ensures
            final(self).inv(),
            final(self).live_views() == old(self).live_views(),
            final(self).view_order() == old(self).view_order(),
            forall|k: ViewId|
                #![trigger final(self).frame(k)]
                #![trigger final(self).loading(k)]
                #![trigger final(self).pointer(k)]
                old(self).live_views().contains(k) ==> {
                    &&& final(self).frame(k) == old(self).frame(k)
                    &&& final(self).loading(k) == old(self).loading(k)
                    &&& final(self).pointer(k) == old(self).pointer(k)
                },
    ;

    /// Delivers a wheel movement to a view.
    fn scroll(&mut self, id: ViewId, delta: ScrollDelta)
        requires
            old(self).inv(),
            old(self).live_views().contains(id),
        ensures
            final(self).inv(),
            final(self).live_views() == old(self).live_views(),
            final(self).view_order() == old(self).view_order(),
            forall|k: ViewId|
                #![trigger final(self).frame(k)]
                #![trigger final(self).loading(k)]
                #![trigger final(self).pointer(k)]
                old(self).live_views().contains(k) ==> {
                    &&& final(self).frame(k) == old(self).frame(k)
                    &&& final(self).loading(k) == old(self).loading(k)
                    &&& final(self).pointer(k) == old(self).pointer(k)
                },
    ;

    /// Reloads a view.
    fn refresh(&mut self, id: ViewId)
        requires
            old(self).inv(),
            old(self).live_views().contains(id),
        ensures
            final(self).inv(),
            final(self).live_views() == old(self).live_views(),
            final(self).view_order() == old(self).view_order(),
            forall|k: ViewId|
                #![trigger final(self).frame(k)]
                #![trigger final(self).loading(k)]
                #![trigger final(self).pointer(k)]
                old(self).live_views().contains(k) ==> {
                    &&& final(self).frame(k) == old(self).frame(k)
                    &&& final(self).loading(k) == old(self).loading(k)
                    &&& final(self).pointer(k) == old(self).pointer(k)
                },
    ;

    /// Moves a view forward in its history.
    fn go_forward(&mut self, id: ViewId)
        requires
            old(self).inv(),
            old(self).live_views().contains(id),
        ensures
            final(self).inv(),
            final(self).live_views() == old(self).live_views(),
            final(self).view_order() == old(self).view_order(),
            forall|k: ViewId|
                #![trigger final(self).frame(k)]
                #![trigger final(self).loading(k)]
                #![trigger final(self).pointer(k)]
                old(self).live_views().contains(k) ==> {
                    &&& final(self).frame(k) == old(self).frame(k)
                    &&& final(self).loading(k) == old(self).loading(k)
                    &&& final(self).pointer(k) == old(self).pointer(k)
                },
    ;

    /// Moves a view back in its history.
    fn go_back(&mut self, id: ViewId)
        requires
            old(self).inv(),
            old(self).live_views().contains(id),
        ensures
            final(self).inv(),
            final(self).live_views() == old(self).live_views(),
            final(self).view_order() == old(self).view_order(),
            forall|k: ViewId|
                #![trigger final(self).frame(k)]
                #![trigger final(self).loading(k)]
                #![trigger final(self).pointer(k)]
                old(self).live_views().contains(k) ==> {
                    &&& final(self).frame(k) == old(self).frame(k)
                    &&& final(self).loading(k) == old(self).loading(k)
                    &&& final(self).pointer(k) == old(self).pointer(k)
                },
    ;

    /// Delivers a mouse event at `point` to a view. A pointer move is
    /// remembered for the view; no frame or loading flag changes.
    fn handle_mouse_event(&mut self, id: ViewId, point: Point, event: MouseEvent)
        requires
            old(self).inv(),
            old(self).live_views().contains(id),
        ensures
            final(self).inv(),
            final(self).live_views() == old(self).live_views(),
            final(self).view_order() == old(self).view_order(),
            forall|k: ViewId|
                #![trigger final(self).frame(k)]
                #![trigger final(self).loading(k)]
                old(self).live_views().contains(k) ==> final(self).frame(k) == old(self).frame(k)
                    && final(self).loading(k) == old(self).loading(k),
            forall|k: ViewId|
                #![trigger final(self).pointer(k)]
                old(self).live_views().contains(k) ==> final(self).pointer(k) == (if k == id
                    && event == MouseEvent::CursorMoved {
                    point
                } else {
                    old(self).pointer(k)
                }),
    ;

    /// Loads new content into a view, superseding any load in flight; the
    /// view then awaits that load.
    fn goto(&mut self, id: ViewId, page_type: PageType)
        requires
            old(self).inv(),
            old(self).live_views().contains(id),
        ensures
            final(self).inv(),
            final(self).live_views() == old(self).live_views(),
            final(self).view_order() == old(self).view_order(),
            forall|k: ViewId|
                #![trigger final(self).frame(k)]
                #![trigger final(self).loading(k)]
                #![trigger final(self).pointer(k)]
                old(self).live_views().contains(k) && k != id ==> {
                    &&& final(self).frame(k) == old(self).frame(k)
                    &&& final(self).loading(k) == old(self).loading(k)
                    &&& final(self).pointer(k) == old(self).pointer(k)
                },
            final(self).frame(id) == old(self).frame(id),
            final(self).pointer(id) == old(self).pointer(id),
            final(self).loading(id),
    ;

    /// The view's url.
    fn get_url(&self, id: ViewId) -> String
        requires
            self.inv(),
            self.live_views().contains(id),
    ;

    /// The view's title.
    fn get_title(&self, id: ViewId) -> String
        requires
            self.inv(),
            self.live_views().contains(id),
    ;

    /// The cursor shape the view asks for.
    fn get_cursor(&self, id: ViewId) -> CursorShape
        requires
            self.inv(),
            self.live_views().contains(id),
    ;

    /// The view's last captured frame; never captures.
    fn get_view(&self, id: ViewId) -> (r: &ImageInfo)
        requires
            self.inv(),
            self.live_views().contains(id),
        ensures
            r@ == self.frame(id),
    ;
}

} // verus!
