use vstd::prelude::*;

use crate::engine::{nudge, Engine, PageType, Size, ViewId};
use crate::image::{frame_bytes, frame_len, Frame, ImageInfo, PixelFormat};
use crate::keyboard::{translate_keyboard_event, KeyEventInfo, KeyboardEvent};
use crate::mouse::{
    cursor_or_default, native_pointer_move, translate_mouse_event, translate_scroll, CursorShape,
    MouseAction, MouseEvent, NativeMouseEvent, Point, ScrollDelta,
};
use crate::views::{lemma_push_id, lemma_remove_id, needs_capture, ViewTable};

verus! {

/// The calls a native rendering library offers: one renderer, many views.
pub trait NativeRenderer: Sized {
    /// A native view handle.
    type View;

    /// Starts the renderer and its process-wide hooks (fonts, file system,
    /// clipboard). Done once, before the first view.
    fn start() -> Self;

    /// Creates a view of the given size.
    fn create_view(&mut self, size: Size) -> Self::View;

    /// Runs the renderer's scheduler.
    fn update(&mut self);

    /// Paints every view that needs it.
    fn render(&mut self);

    /// Resizes a view and its surface.
    fn resize_view(&mut self, view: &Self::View, size: Size);

    fn set_needs_paint(&mut self, view: &Self::View, needs_paint: bool);

    fn needs_paint(&self, view: &Self::View) -> bool;

    fn is_loading(&self, view: &Self::View) -> bool;

    /// A copy of the view's surface, where it can be locked.
    fn pixels(&self, view: &Self::View) -> Option<Vec<u8>>;

    /// Channel order of the surfaces.
    fn pixel_format(&self) -> PixelFormat;

    /// Starts loading content into a view.
    fn load(&mut self, view: &Self::View, page: PageType);

    fn focus(&mut self, view: &Self::View);

    fn unfocus(&self, view: &Self::View);

    fn fire_key_event(&mut self, view: &Self::View, event: KeyEventInfo);

    fn fire_mouse_event(&mut self, view: &Self::View, event: NativeMouseEvent);

    fn fire_scroll_event(&mut self, view: &Self::View, dx: i32, dy: i32);

    fn reload(&mut self, view: &Self::View);

    fn go_forward(&mut self, view: &Self::View);

    fn go_back(&mut self, view: &Self::View);

    fn url(&self, view: &Self::View) -> String;

    fn title(&self, view: &Self::View) -> String;

    /// The cursor the view last asked for; `None` where the cell shared with
    /// the renderer's callback cannot be read.
    fn cursor(&self, view: &Self::View) -> Option<CursorShape>;

    /// Sets the cursor shown over a view.
    fn set_cursor(&self, view: &Self::View, shape: CursorShape);
}

/// The backend adapter: the engine contract over a native renderer.
pub struct Ultralight<N: NativeRenderer> {
    native: N,
    views: ViewTable<N::View>,
}

impl<N: NativeRenderer> Ultralight<N> {
    /// The adapter's views.
    pub closed spec fn table(&self) -> ViewTable<N::View> {
        self.views
    }

    /// The native renderer.
    pub fn native(&self) -> &N {
        &self.native
    }

    /// Number of views.
    pub fn view_count(&self) -> (r: usize)
        ensures
            r == self.table().entries().len(),
    {
        self.views.len()
    }

    /// The frame, loading flag and pointer of the view at position `j` are
    /// those of its id.
    proof fn lemma_entry(&self, j: int)
        requires
            self.views.wf(),
            0 <= j < self.views.entries().len(),
        ensures
            self.frame(self.views.ids()[j]) == self.views.entries()[j].last_frame@,
            self.loading(self.views.ids()[j]) == self.views.entries()[j].was_loading,
            self.pointer(self.views.ids()[j]) == self.views.entries()[j].pointer,
    {
        let id = self.views.ids()[j];
        assert(self.views.ids()[j] == id);
        let i = choose|i: int| 0 <= i < self.views.ids().len() && self.views.ids()[i] == id;
        assert(self.views.ids()[i] == self.views.ids()[j]);
    }

    /// Every entry but the one at `skip` is as it was: so is the state of
    /// every view but that one's.
    proof fn lemma_kept(a: Self, b: Self, skip: int, except: Option<ViewId>)
        requires
            a.views.wf(),
            b.views.wf(),
            b.views.ids() == a.views.ids(),
            (0 <= skip < a.views.entries().len() && except == Some(a.views.ids()[skip])) || (skip
                < 0 && except is None),
            forall|j: int|
                0 <= j < a.views.entries().len() && j != skip ==> b.views.entries()[j]
                    == a.views.entries()[j],
        ensures
            forall|k: ViewId|
                #![trigger b.frame(k)]
                #![trigger b.loading(k)]
                #![trigger b.pointer(k)]
                a.live_views().contains(k) && except != Some(k) ==> {
                    &&& b.frame(k) == a.frame(k)
                    &&& b.loading(k) == a.loading(k)
                    &&& b.pointer(k) == a.pointer(k)
                },
    {
        assert forall|k: ViewId| a.live_views().contains(k) && except != Some(k) implies {
            &&& b.frame(k) == a.frame(k)
            &&& b.loading(k) == a.loading(k)
            &&& b.pointer(k) == a.pointer(k)
        } by {
            assert(a.views.ids().contains(k));
            let j = choose|j: int| 0 <= j < a.views.ids().len() && a.views.ids()[j] == k;
            assert(b.views.ids()[j] == k);
            a.lemma_entry(j);
            b.lemma_entry(j);
        }
    }

    /// Position of a live view.
    fn slot(&self, id: ViewId) -> (i: usize)
        requires
            self.views.wf(),
            self.views.ids().to_set().contains(id),
        ensures
            i < self.views.entries().len(),
            self.views.ids()[i as int] == id,
    {
        assert(self.views.ids().contains(id));
        self.views.position(id).unwrap()
    }

    /// Replays the last known pointer position into the view at `i`.
    fn replay_pointer(&mut self, i: usize)
        requires
            i < old(self).views.entries().len(),
        ensures
            final(self).views == old(self).views,
    {
        let v = self.views.entry(i);
        self.native.fire_mouse_event(&v.handle, native_pointer_move(v.pointer));
    }

    /// A frame of the given size from the view's surface, where the surface
    /// can be read and matches the size.
    fn capture(&self, view: &N::View, size: Size) -> (r: Option<ImageInfo>)
        requires
            frame_len(size.width, size.height) <= usize::MAX,
        ensures
            r matches Some(f) ==> f@.width == size.width && f@.height == size.height && f.wf(),
    {
        match self.native.pixels(view) {
            Some(px) => {
                if px.len() == frame_bytes(size.width, size.height) {
                    Some(ImageInfo::new(px, self.native.pixel_format(), size.width, size.height))
                } else {
                    None
                }
            },
            None => None,
        }
    }
}

impl<N: NativeRenderer> Engine for Ultralight<N> {
    closed spec fn inv(&self) -> bool {
        self.views.wf()
    }

    closed spec fn live_views(&self) -> Set<ViewId> {
        self.views.ids().to_set()
    }

    closed spec fn view_order(&self) -> Seq<ViewId> {
        self.views.ids()
    }

    closed spec fn frame(&self, id: ViewId) -> Frame {
        let i = choose|i: int| 0 <= i < self.views.ids().len() && self.views.ids()[i] == id;
        self.views.entries()[i].last_frame@
    }

    closed spec fn loading(&self, id: ViewId) -> bool {
        let i = choose|i: int| 0 <= i < self.views.ids().len() && self.views.ids()[i] == id;
        self.views.entries()[i].was_loading
    }

    closed spec fn pointer(&self, id: ViewId) -> Point {
        let i = choose|i: int| 0 <= i < self.views.ids().len() && self.views.ids()[i] == id;
        self.views.entries()[i].pointer
    }

    fn start() -> (r: Self) {
        let r = Ultralight { native: N::start(), views: ViewTable::new() };
        assert(r.views.ids() =~= Seq::<ViewId>::empty());
        assert(r.views.ids().to_set() =~= Set::<ViewId>::empty());
        r
    }

    fn update(&mut self) {
        self.native.update();
        proof {
            Self::lemma_kept(*old(self), *self, -1, None);
        }
    }

    fn render(&mut self, size: Size) {
        let n = self.views.len();
        let mut i: usize = 0;
        while i < n
            invariant
                self.views.wf(),
                self.views.ids() == old(self).views.ids(),
                old(self).views.wf(),
                n == self.views.entries().len(),
                n == old(self).views.entries().len(),
                i <= n,
                frame_len(size.width, size.height) <= usize::MAX,
                forall|j: int|
                    #![trigger self.views.entries()[j]]
                    0 <= j < n ==> {
                        let (a, b) = (old(self).views.entries()[j], self.views.entries()[j]);
                        &&& b.pointer == a.pointer
                        &&& (b.last_frame == a.last_frame && b.was_loading == a.was_loading) || (
                        b.last_frame@.width == size.width && b.last_frame@.height == size.height
                            && !b.was_loading)
                    },
            decreases n - i,
        {
            self.replay_pointer(i);
            let v = self.views.entry(i);
            let paint = self.native.needs_paint(&v.handle);
            let loading = self.native.is_loading(&v.handle);
            if needs_capture(paint, v.was_loading, loading) {
                if let Some(frame) = self.capture(&v.handle, size) {
                    self.views.store_frame_at(i, frame);
                }
            }
            i = i + 1;
        }
        proof {
            assert forall|k: ViewId| #[trigger]
                old(self).live_views().contains(k) implies {
                &&& self.pointer(k) == old(self).pointer(k)
                &&& (self.frame(k) == old(self).frame(k) && self.loading(k) == old(self).loading(
                    k,
                )) || (self.frame(k).width == size.width && self.frame(k).height == size.height
                    && !self.loading(k))
            } by {
                assert(old(self).views.ids().contains(k));
                let j = choose|j: int|
                    0 <= j < old(self).views.ids().len() && old(self).views.ids()[j] == k;
                assert(self.views.ids()[j] == k);
                old(self).lemma_entry(j);
                self.lemma_entry(j);
                assert(self.views.entries()[j] == self.views.entries()[j]);
            }
        }
    }

    fn request_render(&mut self, id: ViewId, size: Size) -> (captured: bool) {
        let i = self.slot(id);
        self.replay_pointer(i);
        let v = self.views.entry(i);
        self.native.set_needs_paint(&v.handle, true);
        self.native.render();
        let v = self.views.entry(i);
        match self.capture(&v.handle, size) {
            Some(frame) => {
                self.views.store_frame_at(i, frame);
                proof {
                    Self::lemma_kept(*old(self), *self, i as int, Some(id));
                    self.lemma_entry(i as int);
                    old(self).lemma_entry(i as int);
                }
                true
            },
            None => {
                proof {
                    Self::lemma_kept(*old(self), *self, -1, None);
                    Self::lemma_kept(*old(self), *self, i as int, Some(id));
                }
                false
            },
        }
    }

    fn new_view(&mut self, size: Size, content: Option<PageType>) -> (id: ViewId) {
        let handle = self.native.create_view(size);
        self.native.resize_view(&handle, nudge(size));
        self.native.resize_view(&handle, size);
        if let Some(page) = content {
            self.native.load(&handle, page);
            self.native.set_needs_paint(&handle, true);
        }
        let ghost before = self.views.ids();
        let id = self.views.insert(handle, size);
        proof {
            assert(self.views.ids() =~= before.push(id));
            lemma_push_id(before, id);
            let n = before.len() as int;
            self.lemma_entry(n);
            assert forall|k: ViewId| old(self).live_views().contains(k) implies {
                &&& self.frame(k) == old(self).frame(k)
                &&& self.loading(k) == old(self).loading(k)
                &&& self.pointer(k) == old(self).pointer(k)
            } by {
                assert(before.contains(k));
                let j = choose|j: int| 0 <= j < before.len() && before[j] == k;
                assert(self.views.entries()[j] == self.views.entries().drop_last()[j]);
                assert(self.views.ids()[j] == k);
                old(self).lemma_entry(j);
                self.lemma_entry(j);
            }
        }
        id
    }

    fn remove_view(&mut self, id: ViewId) {
        let ghost before = self.views.ids();
        let ghost entries = self.views.entries();
        let r = self.views.remove(id);
        proof {
            assert(before.contains(id));
            let i = choose|i: int|
                0 <= i < entries.len() && entries[i] == r->Ok_0 && self.views.entries()
                    == entries.remove(i);
            assert(self.views.ids() =~= before.remove(i));
            lemma_remove_id(before, i);
            assert(before[i] == id);
            assert(0 <= i < old(self).view_order().len() && old(self).view_order()[i] == id
                && self.view_order() == old(self).view_order().remove(i));
            assert forall|k: ViewId| old(self).live_views().contains(k) && Some(id) != Some(k) implies {
                &&& self.frame(k) == old(self).frame(k)
                &&& self.loading(k) == old(self).loading(k)
                &&& self.pointer(k) == old(self).pointer(k)
            } by {
                assert(before.contains(k));
                let j = choose|j: int| 0 <= j < before.len() && before[j] == k;
                assert(j != i);
                let jn = if j < i { j } else { j - 1 };
                assert(self.views.entries()[jn] == entries[j]);
                assert(self.views.ids()[jn] == k);
                old(self).lemma_entry(j);
                self.lemma_entry(jn);
            }
        }
    }

    fn focus(&mut self) {
        let n = self.views.len();
        let mut i: usize = 0;
        while i < n
            invariant
                self.views == old(self).views,
                n == self.views.entries().len(),
                i <= n,
            decreases n - i,
        {
            let v = self.views.entry(i);
            self.native.focus(&v.handle);
            i = i + 1;
        }
        proof {
            Self::lemma_kept(*old(self), *self, -1, None);
        }
    }

    fn unfocus(&self) {
        let n = self.views.len();
        let mut i: usize = 0;
        while i < n
            invariant
                n == self.views.entries().len(),
                i <= n,
            decreases n - i,
        {
            self.native.unfocus(&self.views.entry(i).handle);
            i = i + 1;
        }
    }

    fn resize(&mut self, size: Size) {
        let n = self.views.len();
        let mut i: usize = 0;
        while i < n
            invariant
                self.views == old(self).views,
                n == self.views.entries().len(),
                i <= n,
            decreases n - i,
        {
            let v = self.views.entry(i);
            self.native.resize_view(&v.handle, size);
            self.native.set_needs_paint(&v.handle, true);
            i = i + 1;
        }
        proof {
            Self::lemma_kept(*old(self), *self, -1, None);
        }
    }

    fn handle_keyboard_event(&mut self, id: ViewId, event: KeyboardEvent) {
        if let Some(key_event) = translate_keyboard_event(event) {
            let i = self.slot(id);
            let v = self.views.entry(i);
            self.native.fire_key_event(&v.handle, key_event);
        }
        proof {
            Self::lemma_kept(*old(self), *self, -1, None);
        }
    }

    fn handle_mouse_event(&mut self, id: ViewId, point: Point, event: MouseEvent) {
        let ghost entries = self.views.entries();
        match translate_mouse_event(event, point) {
            MouseAction::Button(e) => {
                let i = self.slot(id);
                let v = self.views.entry(i);
                self.native.fire_mouse_event(&v.handle, e);
                proof {
                    Self::lemma_kept(*old(self), *self, -1, None);
                }
            },
            MouseAction::GoForward => self.go_forward(id),
            MouseAction::GoBack => self.go_back(id),
            MouseAction::Focus => self.focus(),
            MouseAction::Unfocus => {
                self.unfocus();
                proof {
                    Self::lemma_kept(*old(self), *self, -1, None);
                }
            },
            MouseAction::MovePointer(p) => {
                let i = self.slot(id);
                let _ = self.views.set_pointer(id, p);
                proof {
                    assert(event == MouseEvent::CursorMoved && p == point);
                    assert forall|j: int| 0 <= j < entries.len() && j != i implies
                        self.views.entries()[j] == entries[j] by {
                        assert(old(self).views.ids()[j] != old(self).views.ids()[i as int]);
                    }
                    Self::lemma_kept(*old(self), *self, i as int, Some(id));
                    self.lemma_entry(i as int);
                    old(self).lemma_entry(i as int);
                }
            },
            MouseAction::Scroll { dx, dy } => {
                let i = self.slot(id);
                let v = self.views.entry(i);
                self.native.fire_scroll_event(&v.handle, dx, dy);
                proof {
                    Self::lemma_kept(*old(self), *self, -1, None);
                }
            },
            MouseAction::Ignore => {
                proof {
                    Self::lemma_kept(*old(self), *self, -1, None);
                }
            },
        }
    }

    fn scroll(&mut self, id: ViewId, delta: ScrollDelta) {
        let (dx, dy) = translate_scroll(delta);
        let i = self.slot(id);
        let v = self.views.entry(i);
        self.native.fire_scroll_event(&v.handle, dx, dy);
        proof {
            Self::lemma_kept(*old(self), *self, -1, None);
        }
    }

    fn goto(&mut self, id: ViewId, page_type: PageType) {
        let i = self.slot(id);
        let v = self.views.entry(i);
        self.native.set_cursor(&v.handle, CursorShape::Working);
        self.native.load(&v.handle, page_type);
        let ghost entries = self.views.entries();
        let _ = self.views.mark_loading(id);
        proof {
            assert forall|j: int| 0 <= j < entries.len() && j != i implies self.views.entries()[j]
                == entries[j] by {
                assert(old(self).views.ids()[j] != old(self).views.ids()[i as int]);
            }
            Self::lemma_kept(*old(self), *self, i as int, Some(id));
            self.lemma_entry(i as int);
            old(self).lemma_entry(i as int);
        }
    }

    fn refresh(&mut self, id: ViewId) {
        let i = self.slot(id);
        let v = self.views.entry(i);
        self.native.reload(&v.handle);
        proof {
            Self::lemma_kept(*old(self), *self, -1, None);
        }
    }

    fn go_forward(&mut self, id: ViewId) {
        let i = self.slot(id);
        let v = self.views.entry(i);
        self.native.go_forward(&v.handle);
        proof {
            Self::lemma_kept(*old(self), *self, -1, None);
        }
    }

    fn go_back(&mut self, id: ViewId) {
        let i = self.slot(id);
        let v = self.views.entry(i);
        self.native.go_back(&v.handle);
        proof {
            Self::lemma_kept(*old(self), *self, -1, None);
        }
    }

    fn get_url(&self, id: ViewId) -> String {
        self.native.url(&self.views.entry(self.slot(id)).handle)
    }

    fn get_title(&self, id: ViewId) -> String {
        self.native.title(&self.views.entry(self.slot(id)).handle)
    }

    fn get_cursor(&self, id: ViewId) -> CursorShape {
        cursor_or_default(self.native.cursor(&self.views.entry(self.slot(id)).handle))
    }

    fn get_view(&self, id: ViewId) -> (r: &ImageInfo) {
        let i = self.slot(id);
        proof {
            self.lemma_entry(i as int);
        }
        &self.views.entry(i).last_frame
    }
}

} // verus!
