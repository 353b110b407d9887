use vstd::prelude::*;

use crate::engine::{nudge, Engine, PageType, Size, ViewId};
use crate::image::{checked_frame_bytes, frame_len, ImageInfo};
use crate::keyboard::KeyboardEvent;
use crate::mouse::{CursorShape, MouseEvent, Point};
use crate::startpage::get_startpage;
use crate::views::{lemma_push_id, lemma_remove_id};

verus! {

/// Commands the host sends to the multiplexer.
#[derive(Clone, Debug, PartialEq, Eq)]
pub enum Action {
    /// Make the view at this index the current one.
    ChangeView(u32),
    /// Close the view at this index.
    CloseView(u32),
    /// Open a new view with this content.
    CreateView(PageType),
    GoBack,
    GoForward,
    /// Load this url in the current view.
    GoToUrl(String),
    Refresh,
    SendKeyboardEvent(KeyboardEvent),
    SendMouseEvent(MouseEvent, Point),
    /// The periodic tick.
    Update,
    Resize(Size),
}

/// Why an action was refused.
#[derive(Clone, Copy, Debug, PartialEq, Eq, Structural)]
pub enum WebViewError {
    /// The index names no view.
    IndexOutOfRange(u32),
    /// The action needs a current view and there is none.
    NoCurrentView,
    /// A frame of this size would not fit in memory.
    SizeTooLarge(Size),
}

/// What the host learns from one action.
#[derive(Clone, Debug, PartialEq, Eq)]
pub struct Outcome {
    /// The current view's url, where it differs from the last one seen.
    pub url_changed: Option<String>,
    /// The current view's title, where it differs from the last one seen.
    pub title_changed: Option<String>,
    /// The view that was created.
    pub created: Option<ViewId>,
    /// A view was closed.
    pub closed: bool,
    /// The last view was closed: the host should shut down.
    pub no_views_remain: bool,
    /// The current view was captured afresh at the viewport's size.
    pub frame_captured: bool,
}

/// Viewport size before the host reports one.
pub const DEFAULT_WIDTH: u32 = 1920;

/// Viewport size before the host reports one.
pub const DEFAULT_HEIGHT: u32 = 1080;

/// The current index after closing the view at `closed` out of `len`: gone
/// with the last view; one lower where the closed view was at or below it,
/// but never below zero.
pub open spec fn index_after_close(current: Option<usize>, closed: int, len: int) -> Option<usize> {
    if len <= 1 {
        None
    } else {
        match current {
            Some(c) => if closed <= c {
                Some(
                    if c == 0 {
                        0usize
                    } else {
                        (c - 1) as usize
                    },
                )
            } else {
                Some(c)
            },
            None => None,
        }
    }
}

/// The characters of an optional string.
pub open spec fn opt_chars(s: Option<String>) -> Option<Seq<char>> {
    match s {
        Some(t) => Some(t@),
        None => None,
    }
}

/// What a newly seen value changes: the value, where it differs from the
/// last one reported.
pub open spec fn change_of(last: Seq<char>, seen: Seq<char>) -> Option<Seq<char>> {
    if seen != last {
        Some(seen)
    } else {
        None
    }
}

/// Whether an action only acts on the current view.
pub open spec fn targets_current(action: Action) -> bool {
    match action {
        Action::GoBack => true,
        Action::GoForward => true,
        Action::GoToUrl(_) => true,
        Action::Refresh => true,
        Action::SendKeyboardEvent(_) => true,
        Action::SendMouseEvent(_, _) => true,
        _ => false,
    }
}

/// Several views, one of them current, over one engine.
pub struct WebView<E> {
    engine: E,
    view_size: Size,
    current_view_index: Option<usize>,
    view_ids: Vec<ViewId>,
    url: String,
    title: String,
}

impl<E: Engine> WebView<E> {
    /// The engine's state.
    pub closed spec fn engine_state(&self) -> E {
        self.engine
    }

    /// The viewport size.
    pub closed spec fn viewport(&self) -> Size {
        self.view_size
    }

    /// Index of the current view.
    pub closed spec fn current(&self) -> Option<usize> {
        self.current_view_index
    }

    /// Ids of the views, by tab position.
    pub closed spec fn ids(&self) -> Seq<ViewId> {
        self.view_ids@
    }

    /// Url last reported to the host.
    pub closed spec fn last_url(&self) -> Seq<char> {
        self.url@
    }

    /// Title last reported to the host.
    pub closed spec fn last_title(&self) -> Seq<char> {
        self.title@
    }

    /// The engine holds exactly the views, whose ids are distinct; the
    /// current index names a view; a frame of the viewport's size fits in
    /// memory.
    pub open spec fn wf(&self) -> bool {
        &&& self.engine_state().inv()
        &&& self.ids().no_duplicates()
        &&& self.ids().to_set() == self.engine_state().live_views()
        &&& frame_len(self.viewport().width, self.viewport().height) <= usize::MAX
        &&& match self.current() {
            Some(c) => c < self.ids().len(),
            None => true,
        }
    }

    /// Id of the current view.
    pub open spec fn current_id(&self) -> Option<ViewId> {
        match self.current() {
            Some(c) => Some(self.ids()[c as int]),
            None => None,
        }
    }

    /// Why the action is refused in this state, if it is.
    pub open spec fn rejects(&self, action: Action) -> Option<WebViewError> {
        match action {
            Action::ChangeView(i) => if i >= self.ids().len() {
                Some(WebViewError::IndexOutOfRange(i))
            } else {
                None
            },
            Action::CloseView(i) => if i >= self.ids().len() {
                Some(WebViewError::IndexOutOfRange(i))
            } else {
                None
            },
            Action::Resize(s) => if frame_len(s.width, s.height) > usize::MAX {
                Some(WebViewError::SizeTooLarge(s))
            } else {
                None
            },
            _ => if targets_current(action) && self.current() is None {
                Some(WebViewError::NoCurrentView)
            } else {
                None
            },
        }
    }

    /// The current view's frame has the viewport's size.
    pub open spec fn frame_fits(&self) -> bool {
        match self.current_id() {
            Some(id) => {
                &&& self.engine_state().frame(id).width == self.viewport().width
                &&& self.engine_state().frame(id).height == self.viewport().height
            },
            None => true,
        }
    }

    /// What one call of `update` does: from `old`, the action leads to `new`
    /// and to the result `r`.
    pub open spec fn steps(
        old: Self,
        action: Action,
        new: Self,
        r: Result<Outcome, WebViewError>,
    ) -> bool {
        match r {
            Err(e) => old.rejects(action) == Some(e) && new == old,
            Ok(out) => {
                &&& old.rejects(action) is None
                &&& new.wf()
                &&& (old.current() is None ==> out.url_changed is None && out.title_changed is None)
                &&& match out.url_changed {
                    Some(u) => u@ != old.last_url() && new.last_url() == u@,
                    None => new.last_url() == old.last_url(),
                }
                &&& match out.title_changed {
                    Some(u) => u@ != old.last_title() && new.last_title() == u@,
                    None => new.last_title() == old.last_title(),
                }
                &&& new.viewport() == (match action {
                    Action::Resize(s) => s,
                    _ => old.viewport(),
                })
                &&& (out.frame_captured ==> new.frame_fits())
                &&& (new.current() is None ==> !out.frame_captured)
                &&& match action {
                    Action::CreateView(_) => {
                        &&& out.created is Some
                        &&& !old.ids().contains(out.created->Some_0)
                        &&& new.ids() == old.ids().push(out.created->Some_0)
                        &&& new.current() == old.current()
                        &&& !out.closed
                        &&& !out.no_views_remain
                    },
                    Action::ChangeView(i) => {
                        &&& new.ids() == old.ids()
                        &&& new.current() == Some(i as usize)
                        &&& out.created is None
                        &&& !out.closed
                        &&& !out.no_views_remain
                    },
                    Action::CloseView(i) => {
                        &&& new.ids() == old.ids().remove(i as int)
                        &&& new.current() == index_after_close(
                            old.current(),
                            i as int,
                            old.ids().len() as int,
                        )
                        &&& out.created is None
                        &&& out.closed
                        &&& out.no_views_remain == (old.ids().len() == 1)
                    },
                    _ => {
                        &&& new.ids() == old.ids()
                        &&& new.current() == old.current()
                        &&& out.created is None
                        &&& !out.closed
                        &&& !out.no_views_remain
                    },
                }
            },
        }
    }

    /// A multiplexer with a freshly started engine and no views.
    pub fn new() -> (r: Self)
        ensures
            r.wf(),
            r.ids().len() == 0,
            r.current() is None,
            r.viewport() == (Size { width: DEFAULT_WIDTH, height: DEFAULT_HEIGHT }),
            r.last_url().len() == 0,
            r.last_title().len() == 0,
    {
        assert(1920int * 1080int * 4 == 8294400) by (nonlinear_arith);
        assert(frame_len(DEFAULT_WIDTH, DEFAULT_HEIGHT) == 8294400);
        assert(Seq::<ViewId>::empty().to_set() =~= Set::<ViewId>::empty());
        WebView {
            engine: E::start(),
            view_size: Size { width: DEFAULT_WIDTH, height: DEFAULT_HEIGHT },
            current_view_index: None,
            view_ids: Vec::new(),
            url: String::new(),
            title: String::new(),
        }
    }

    /// Opens the start page in a new view and makes it current.
    pub fn init(&mut self)
        requires
            old(self).wf(),
        ensures
            final(self).wf(),
            final(self).ids().len() == old(self).ids().len() + 1,
            final(self).ids().drop_last() == old(self).ids(),
            !old(self).ids().contains(final(self).ids().last()),
            final(self).current() == Some(old(self).ids().len() as usize),
            final(self).viewport() == old(self).viewport(),
            final(self).last_url() == old(self).last_url(),
            final(self).last_title() == old(self).last_title(),
    {
        let id = self.engine.new_view(self.view_size, Some(PageType::Html(get_startpage())));
        let ghost before = self.view_ids@;
        self.view_ids.push(id);
        proof {
            lemma_push_id(before, id);
            assert(self.view_ids@.drop_last() =~= before);
        }
        self.current_view_index = Some(self.view_ids.len() - 1);
    }

    /// Reports a newly seen url of the current view: the url where it
    /// differs from the last one reported, which it then becomes.
    pub fn note_url(&mut self, seen: String) -> (r: Option<String>)
        ensures
            opt_chars(r) == change_of(old(self).last_url(), seen@),
            final(self).last_url() == seen@,
            final(self).last_title() == old(self).last_title(),
            final(self).engine_state() == old(self).engine_state(),
            final(self).ids() == old(self).ids(),
            final(self).current() == old(self).current(),
            final(self).viewport() == old(self).viewport(),
    {
        if seen == self.url {
            None
        } else {
            self.url = seen.clone();
            Some(seen)
        }
    }

    /// Reports a newly seen title of the current view: the title where it
    /// differs from the last one reported, which it then becomes.
    pub fn note_title(&mut self, seen: String) -> (r: Option<String>)
        ensures
            opt_chars(r) == change_of(old(self).last_title(), seen@),
            final(self).last_title() == seen@,
            final(self).last_url() == old(self).last_url(),
            final(self).engine_state() == old(self).engine_state(),
            final(self).ids() == old(self).ids(),
            final(self).current() == old(self).current(),
            final(self).viewport() == old(self).viewport(),
    {
        if seen == self.title {
            None
        } else {
            self.title = seen.clone();
            Some(seen)
        }
    }

    /// Id of the current view.
    pub fn get_current_view_id(&self) -> (r: Result<ViewId, WebViewError>)
        requires
            self.wf(),
        ensures
            match r {
                Ok(id) => self.current_id() == Some(id),
                Err(e) => self.current_id() is None && e == WebViewError::NoCurrentView,
            },
    {
        match self.current_view_index {
            Some(c) => Ok(self.view_ids[c]),
            None => Err(WebViewError::NoCurrentView),
        }
    }

    /// Id of the view at a tab position.
    pub fn index_as_view_id(&self, index: u32) -> (r: Result<ViewId, WebViewError>)
        ensures
            match r {
                Ok(id) => index < self.ids().len() && self.ids()[index as int] == id,
                Err(e) => index >= self.ids().len() && e == WebViewError::IndexOutOfRange(index),
            },
    {
        if (index as usize) < self.view_ids.len() {
            Ok(self.view_ids[index as usize])
        } else {
            Err(WebViewError::IndexOutOfRange(index))
        }
    }

    /// Resizes to a nudged size and back, then captures the view at `index`.
    fn repaint_at(&mut self, index: usize)
        requires
            old(self).wf(),
            index < old(self).ids().len(),
        ensures
            final(self).wf(),
            final(self).ids() == old(self).ids(),
            final(self).current() == old(self).current(),
            final(self).viewport() == old(self).viewport(),
            final(self).last_url() == old(self).last_url(),
            final(self).last_title() == old(self).last_title(),
    {
        let s = self.view_size;
        self.engine.resize(nudge(s));
        self.engine.resize(s);
        let id = self.view_ids[index];
        self.engine.request_render(id, s);
    }

    /// Carries out one action on the current view or the set of views, and
    /// reports url and title changes of the current view seen on the way.
    pub fn update(&mut self, action: Action) -> (r: Result<Outcome, WebViewError>)
        requires
            old(self).wf(),
        ensures
            Self::steps(*old(self), action, *final(self), r),
    {
        let len = self.view_ids.len();
        match &action {
            Action::ChangeView(i) => {
                if *i as usize >= len {
                    return Err(WebViewError::IndexOutOfRange(*i));
                }
            },
            Action::CloseView(i) => {
                if *i as usize >= len {
                    return Err(WebViewError::IndexOutOfRange(*i));
                }
            },
            Action::CreateView(_) => {},
            Action::Update => {},
            Action::Resize(s) => {
                if checked_frame_bytes(s.width, s.height).is_none() {
                    return Err(WebViewError::SizeTooLarge(*s));
                }
            },
            _ => {
                if self.current_view_index.is_none() {
                    return Err(WebViewError::NoCurrentView);
                }
            },
        }
        let mut url_changed: Option<String> = None;
        let mut title_changed: Option<String> = None;
        if let Some(c) = self.current_view_index {
            let id = self.view_ids[c];
            let url = self.engine.get_url(id);
            url_changed = self.note_url(url);
            let title = self.engine.get_title(id);
            title_changed = self.note_title(title);
        }
        let mut created: Option<ViewId> = None;
        let mut closed = false;
        let mut no_views_remain = false;
        match action {
            Action::ChangeView(index) => {
                self.repaint_at(index as usize);
                self.current_view_index = Some(index as usize);
            },
            Action::CloseView(index) => {
                let i = index as usize;
                let id = self.view_ids[i];
                let ghost before = self.view_ids@;
                self.view_ids.remove(i);
                self.engine.remove_view(id);
                proof {
                    lemma_remove_id(before, i as int);
                }
                closed = true;
                if self.view_ids.len() == 0 {
                    self.current_view_index = None;
                    no_views_remain = true;
                } else if let Some(cur) = self.current_view_index {
                    if i <= cur {
                        let c = if cur == 0 {
                            0
                        } else {
                            cur - 1
                        };
                        // The old index may now be past the last view.
                        self.current_view_index = None;
                        self.repaint_at(c);
                        self.current_view_index = Some(c);
                    }
                }
            },
            Action::CreateView(page_type) => {
                let id = self.engine.new_view(self.view_size, Some(page_type));
                let ghost before = self.view_ids@;
                self.view_ids.push(id);
                proof {
                    lemma_push_id(before, id);
                }
                created = Some(id);
            },
            Action::GoBack => {
                let id = self.view_ids[self.current_view_index.unwrap()];
                self.engine.go_back(id);
            },
            Action::GoForward => {
                let id = self.view_ids[self.current_view_index.unwrap()];
                self.engine.go_forward(id);
            },
            Action::GoToUrl(url) => {
                let id = self.view_ids[self.current_view_index.unwrap()];
                self.engine.goto(id, PageType::Url(url));
            },
            Action::Refresh => {
                let id = self.view_ids[self.current_view_index.unwrap()];
                self.engine.refresh(id);
            },
            Action::SendKeyboardEvent(event) => {
                let id = self.view_ids[self.current_view_index.unwrap()];
                self.engine.handle_keyboard_event(id, event);
            },
            Action::SendMouseEvent(event, point) => {
                let id = self.view_ids[self.current_view_index.unwrap()];
                self.engine.handle_mouse_event(id, point, event);
            },
            Action::Update => {
                self.engine.update();
            },
            Action::Resize(size) => {
                self.view_size = size;
                self.engine.resize(size);
            },
        }
        let mut frame_captured = false;
        if let Some(c) = self.current_view_index {
            let id = self.view_ids[c];
            frame_captured = self.engine.request_render(id, self.view_size);
        }
        Ok(Outcome { url_changed, title_changed, created, closed, no_views_remain, frame_captured })
    }

    /// The current view's frame and cursor.
    pub fn view(&self) -> (r: Result<(&ImageInfo, CursorShape), WebViewError>)
        requires
            self.wf(),
        ensures
            match r {
                Ok((frame, _)) => self.current_id() is Some && frame@ == self.engine_state().frame(
                    self.current_id()->Some_0,
                ),
                Err(e) => self.current_id() is None && e == WebViewError::NoCurrentView,
            },
    {
        let id = self.get_current_view_id()?;
        Ok((self.engine.get_view(id), self.engine.get_cursor(id)))
    }

    /// The current view's title.
    pub fn get_current_view_title(&self) -> (r: Result<String, WebViewError>)
        requires
            self.wf(),
        ensures
            match r {
                Ok(_) => self.current_id() is Some,
                Err(e) => self.current_id() is None && e == WebViewError::NoCurrentView,
            },
    {
        let id = self.get_current_view_id()?;
        Ok(self.engine.get_title(id))
    }

    /// The title of the view at a tab position.
    pub fn get_view_title(&self, index: u32) -> (r: Result<String, WebViewError>)
        requires
            self.wf(),
        ensures
            match r {
                Ok(_) => index < self.ids().len(),
                Err(e) => index >= self.ids().len() && e == WebViewError::IndexOutOfRange(index),
            },
    {
        let id = self.index_as_view_id(index)?;
        Ok(self.engine.get_title(id))
    }

    /// Creating views one after another from an empty multiplexer gives as
    /// many views as were created, with distinct ids, in order of creation.
    pub proof fn lemma_created_views_distinct(
        states: Seq<Self>,
        pages: Seq<PageType>,
        results: Seq<Result<Outcome, WebViewError>>,
    )
        requires
            states.len() == pages.len() + 1,
            results.len() == pages.len(),
            states[0].wf(),
            states[0].ids().len() == 0,
            forall|k: int|
                0 <= k < pages.len() ==> #[trigger] Self::steps(
                    states[k],
                    Action::CreateView(pages[k]),
                    states[k + 1],
                    results[k],
                ),
        ensures
            states.last().ids().len() == pages.len(),
            states.last().ids().no_duplicates(),
            forall|k: int|
                0 <= k < pages.len() ==> (#[trigger] results[k]) is Ok
                    && results[k]->Ok_0.created == Some(states.last().ids()[k]),
    {
        Self::lemma_created_prefix(states, pages, results, pages.len() as int);
    }

    proof fn lemma_created_prefix(
        states: Seq<Self>,
        pages: Seq<PageType>,
        results: Seq<Result<Outcome, WebViewError>>,
        n: int,
    )
        requires
            0 <= n <= pages.len(),
            states.len() == pages.len() + 1,
            results.len() == pages.len(),
            states[0].wf(),
            states[0].ids().len() == 0,
            forall|k: int|
                0 <= k < pages.len() ==> #[trigger] Self::steps(
                    states[k],
                    Action::CreateView(pages[k]),
                    states[k + 1],
                    results[k],
                ),
        ensures
            states[n].wf(),
            states[n].ids().len() == n,
            forall|k: int|
                0 <= k < n ==> (#[trigger] results[k]) is Ok
                    && results[k]->Ok_0.created == Some(states[n].ids()[k]),
        decreases n,
    {
        if n > 0 {
            Self::lemma_created_prefix(states, pages, results, n - 1);
            let j = n - 1;
            assert(Self::steps(states[j], Action::CreateView(pages[j]), states[j + 1], results[j]));
            assert(j + 1 == n);
            assert forall|k: int| 0 <= k < n implies (#[trigger] results[k]) is Ok
                && results[k]->Ok_0.created == Some(states[n].ids()[k]) by {
                if k < n - 1 {
                    assert(states[n].ids()[k] == states[n - 1].ids()[k]);
                }
            }
        }
    }

    /// Changing to an index outside the views is refused and changes nothing.
    pub proof fn lemma_change_view_out_of_range(
        old: Self,
        i: u32,
        new: Self,
        r: Result<Outcome, WebViewError>,
    )
        requires
            i >= old.ids().len(),
            Self::steps(old, Action::ChangeView(i), new, r),
        ensures
            r == Err::<Outcome, WebViewError>(WebViewError::IndexOutOfRange(i)),
            new == old,
    {
    }

    /// Closing the current view, while others remain, makes the view just
    /// below it current (or the first view where it was the first); where the
    /// capture that follows succeeds, that view's frame has the viewport's
    /// size.
    pub proof fn lemma_close_current(
        old: Self,
        i: u32,
        new: Self,
        r: Result<Outcome, WebViewError>,
    )
        requires
            old.wf(),
            old.current() == Some(i as usize),
            old.ids().len() > 1,
            Self::steps(old, Action::CloseView(i), new, r),
        ensures
            r is Ok,
            new.current() == Some(
                if i == 0 {
                    0usize
                } else {
                    (i - 1) as usize
                },
            ),
            new.ids() == old.ids().remove(i as int),
            r->Ok_0.frame_captured ==> new.frame_fits(),
            !r->Ok_0.no_views_remain,
    {
    }

    /// Closing the only view reports that no views remain and leaves no
    /// current view.
    pub proof fn lemma_close_last(old: Self, new: Self, r: Result<Outcome, WebViewError>)
        requires
            old.wf(),
            old.ids().len() == 1,
            Self::steps(old, Action::CloseView(0), new, r),
        ensures
            r is Ok,
            r->Ok_0.no_views_remain,
            r->Ok_0.closed,
            new.current() is None,
            new.ids().len() == 0,
    {
    }

    /// A url change is reported once: seeing the same url again right after
    /// reports nothing.
    pub proof fn lemma_url_change_reported_once(
        w0: Self,
        seen: String,
        w1: Self,
        r1: Option<String>,
        w2: Self,
        r2: Option<String>,
    )
        requires
            opt_chars(r1) == change_of(w0.last_url(), seen@),
            w1.last_url() == seen@,
            opt_chars(r2) == change_of(w1.last_url(), seen@),
        ensures
            r2 is None,
    {
    }

    /// Index of the current view.
    pub fn current_index(&self) -> (r: Option<usize>)
        ensures
            r == self.current(),
    {
        self.current_view_index
    }

    /// Number of views.
    pub fn view_count(&self) -> (r: usize)
        ensures
            r == self.ids().len(),
    {
        self.view_ids.len()
    }

    /// The viewport size.
    pub fn view_size(&self) -> (r: Size)
        ensures
            r == self.viewport(),
    {
        self.view_size
    }

    /// The engine.
    pub fn engine(&self) -> (r: &E)
        ensures
            *r == self.engine_state(),
    {
        &self.engine
    }
}

} // verus!
