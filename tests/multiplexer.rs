use std::cell::RefCell;

use astrolabe::engine::{Engine, PageType, Size};
use astrolabe::image::PixelFormat;
use astrolabe::keyboard::{Key, KeyEventInfo, KeyEventType, KeyboardEvent, Modifiers};
use astrolabe::mouse::{
    CursorShape, MouseButton, MouseEvent, MouseEventType, NativeMouseEvent, Point, ScrollDelta,
};
use astrolabe::ultralight::{NativeRenderer, Ultralight};
use astrolabe::webview::{Action, WebView, WebViewError};

struct FakePage {
    url: String,
    title: String,
    pending: Option<PageType>,
    size: Size,
    cursor: CursorShape,
}

#[derive(Default)]
struct Log {
    pages: Vec<FakePage>,
    resizes: Vec<(usize, Size)>,
    renders: usize,
    loads: Vec<(usize, PageType)>,
    keys: Vec<(usize, KeyEventInfo)>,
    mice: Vec<(usize, NativeMouseEvent)>,
    scrolls: Vec<(usize, i32, i32)>,
    history: Vec<(usize, &'static str)>,
    focused: usize,
    unfocused: usize,
    unreadable: bool,
}

/// A renderer that loads pages on the next tick, paints BGRA surfaces of a
/// fixed pattern, and records what it is asked.
struct FakeNative {
    log: RefCell<Log>,
}

impl NativeRenderer for FakeNative {
    type View = usize;

    fn start() -> Self {
        FakeNative { log: RefCell::new(Log::default()) }
    }

    fn create_view(&mut self, size: Size) -> usize {
        let mut log = self.log.borrow_mut();
        log.pages.push(FakePage {
            url: String::new(),
            title: String::new(),
            pending: None,
            size,
            cursor: CursorShape::Idle,
        });
        log.pages.len() - 1
    }

    fn update(&mut self) {
        for p in self.log.borrow_mut().pages.iter_mut() {
            if let Some(page) = p.pending.take() {
                match page {
                    PageType::Url(u) => {
                        p.title = format!("title of {u}");
                        p.url = u;
                    }
                    PageType::Html(_) => p.title = "local page".to_string(),
                }
                p.cursor = CursorShape::Idle;
            }
        }
    }

    fn render(&mut self) {
        self.log.borrow_mut().renders += 1;
    }

    fn resize_view(&mut self, view: &usize, size: Size) {
        let mut log = self.log.borrow_mut();
        log.pages[*view].size = size;
        log.resizes.push((*view, size));
    }

    fn set_needs_paint(&mut self, _view: &usize, _needs_paint: bool) {}

    fn needs_paint(&self, _view: &usize) -> bool {
        true
    }

    fn is_loading(&self, view: &usize) -> bool {
        self.log.borrow().pages[*view].pending.is_some()
    }

    fn pixels(&self, view: &usize) -> Option<Vec<u8>> {
        if self.log.borrow().unreadable {
            return None;
        }
        let s = self.log.borrow().pages[*view].size;
        let n = s.width as usize * s.height as usize;
        Some([1u8, 2, 3, 4].repeat(n))
    }

    fn pixel_format(&self) -> PixelFormat {
        PixelFormat::Bgra
    }

    fn load(&mut self, view: &usize, page: PageType) {
        let mut log = self.log.borrow_mut();
        log.pages[*view].pending = Some(page.clone());
        log.loads.push((*view, page));
    }

    fn focus(&mut self, _view: &usize) {
        self.log.borrow_mut().focused += 1;
    }

    fn unfocus(&self, _view: &usize) {
        self.log.borrow_mut().unfocused += 1;
    }

    fn fire_key_event(&mut self, view: &usize, event: KeyEventInfo) {
        self.log.borrow_mut().keys.push((*view, event));
    }

    fn fire_mouse_event(&mut self, view: &usize, event: NativeMouseEvent) {
        self.log.borrow_mut().mice.push((*view, event));
    }

    fn fire_scroll_event(&mut self, view: &usize, dx: i32, dy: i32) {
        self.log.borrow_mut().scrolls.push((*view, dx, dy));
    }

    fn reload(&mut self, view: &usize) {
        self.log.borrow_mut().history.push((*view, "reload"));
    }

    fn go_forward(&mut self, view: &usize) {
        self.log.borrow_mut().history.push((*view, "forward"));
    }

    fn go_back(&mut self, view: &usize) {
        self.log.borrow_mut().history.push((*view, "back"));
    }

    fn url(&self, view: &usize) -> String {
        self.log.borrow().pages[*view].url.clone()
    }

    fn title(&self, view: &usize) -> String {
        self.log.borrow().pages[*view].title.clone()
    }

    fn cursor(&self, view: &usize) -> Option<CursorShape> {
        Some(self.log.borrow().pages[*view].cursor)
    }

    fn set_cursor(&self, view: &usize, shape: CursorShape) {
        self.log.borrow_mut().pages[*view].cursor = shape;
    }
}

type Browser = WebView<Ultralight<FakeNative>>;

fn small_webview() -> Browser {
    let mut w: Browser = WebView::new();
    w.update(Action::Resize(Size { width: 4, height: 3 })).unwrap();
    w
}

fn html(s: &str) -> Action {
    Action::CreateView(PageType::Html(s.to_string()))
}

fn log(w: &Browser) -> std::cell::Ref<'_, Log> {
    w.engine().native().log.borrow()
}

fn frame_size(w: &Browser) -> (u32, u32) {
    let (frame, _) = w.view().unwrap();
    (frame.width(), frame.height())
}

#[test]
fn creating_views_gives_distinct_ids() {
    let mut w = small_webview();
    let mut ids = Vec::new();
    for k in 0..5 {
        let out = w.update(html(&format!("<p>{k}</p>"))).unwrap();
        ids.push(out.created.unwrap());
    }
    assert_eq!(w.view_count(), 5);
    assert_eq!(w.engine().view_count(), 5);
    for (i, id) in ids.iter().enumerate() {
        assert_eq!(w.index_as_view_id(i as u32), Ok(*id));
        assert_eq!(ids.iter().filter(|x| *x == id).count(), 1);
    }
}

#[test]
fn change_view_out_of_range_is_refused() {
    let mut w = small_webview();
    w.update(html("a")).unwrap();
    w.update(html("b")).unwrap();
    w.update(Action::ChangeView(1)).unwrap();
    assert_eq!(w.update(Action::ChangeView(2)), Err(WebViewError::IndexOutOfRange(2)));
    assert_eq!(w.update(Action::ChangeView(u32::MAX)), Err(WebViewError::IndexOutOfRange(u32::MAX)));
    assert_eq!(w.current_index(), Some(1));
    assert_eq!(w.view_count(), 2);
}

#[test]
fn close_view_out_of_range_is_refused() {
    let mut w = small_webview();
    w.update(html("a")).unwrap();
    assert_eq!(w.update(Action::CloseView(1)), Err(WebViewError::IndexOutOfRange(1)));
    assert_eq!(w.view_count(), 1);
}

#[test]
fn closing_current_view_moves_down_and_renders() {
    let mut w = small_webview();
    for s in ["a", "b", "c"] {
        w.update(html(s)).unwrap();
    }
    let b = w.index_as_view_id(1).unwrap();
    w.update(Action::ChangeView(2)).unwrap();
    let renders = log(&w).renders;
    let out = w.update(Action::CloseView(2)).unwrap();
    assert!(out.closed);
    assert!(!out.no_views_remain);
    assert_eq!(w.current_index(), Some(1));
    assert_eq!(w.get_current_view_id(), Ok(b));
    assert!(log(&w).renders > renders);
    assert_eq!(frame_size(&w), (4, 3));
    assert_eq!(w.engine().view_count(), 2);
}

#[test]
fn closing_below_current_keeps_the_same_view() {
    let mut w = small_webview();
    for s in ["a", "b", "c"] {
        w.update(html(s)).unwrap();
    }
    let c = w.index_as_view_id(2).unwrap();
    w.update(Action::ChangeView(2)).unwrap();
    w.update(Action::CloseView(0)).unwrap();
    assert_eq!(w.current_index(), Some(1));
    assert_eq!(w.index_as_view_id(1), Ok(c));
}

#[test]
fn closing_above_current_keeps_index() {
    let mut w = small_webview();
    for s in ["a", "b", "c"] {
        w.update(html(s)).unwrap();
    }
    w.update(Action::ChangeView(0)).unwrap();
    w.update(Action::CloseView(2)).unwrap();
    assert_eq!(w.current_index(), Some(0));
    assert_eq!(w.view_count(), 2);
}

#[test]
fn closing_last_view_reports_no_views_remain() {
    let mut w = small_webview();
    w.update(html("only")).unwrap();
    w.update(Action::ChangeView(0)).unwrap();
    let out = w.update(Action::CloseView(0)).unwrap();
    assert!(out.no_views_remain);
    assert!(out.closed);
    assert_eq!(w.current_index(), None);
    assert_eq!(w.view_count(), 0);
    assert_eq!(w.update(Action::Refresh), Err(WebViewError::NoCurrentView));
}

#[test]
fn actions_on_current_view_need_one() {
    let mut w = small_webview();
    assert_eq!(w.update(Action::GoBack), Err(WebViewError::NoCurrentView));
    assert_eq!(
        w.update(Action::GoToUrl("https://a.test/".to_string())),
        Err(WebViewError::NoCurrentView)
    );
    assert!(w.view().is_err());
    assert_eq!(w.get_current_view_title(), Err(WebViewError::NoCurrentView));
    assert!(w.update(Action::Update).is_ok());
}

#[test]
fn oversized_viewport_is_refused() {
    let mut w = small_webview();
    let huge = Size { width: u32::MAX, height: u32::MAX };
    assert_eq!(w.update(Action::Resize(huge)), Err(WebViewError::SizeTooLarge(huge)));
    assert_eq!(w.view_size(), Size { width: 4, height: 3 });
}

#[test]
fn change_view_nudges_size_and_renders() {
    let mut w = small_webview();
    w.update(html("a")).unwrap();
    let before = log(&w).resizes.len();
    w.update(Action::ChangeView(0)).unwrap();
    let sizes: Vec<Size> = log(&w).resizes[before..].iter().map(|r| r.1).collect();
    assert_eq!(sizes, vec![Size { width: 14, height: 13 }, Size { width: 4, height: 3 }]);
    assert_eq!(frame_size(&w), (4, 3));
}

#[test]
fn new_view_is_created_slightly_off_size() {
    let mut w = small_webview();
    w.update(Action::Resize(Size { width: 30, height: 20 })).unwrap();
    w.update(html("a")).unwrap();
    let l = log(&w);
    let n = l.resizes.len();
    assert_eq!(l.resizes[n - 2].1, Size { width: 40, height: 10 });
    assert_eq!(l.resizes[n - 1].1, Size { width: 30, height: 20 });
}

#[test]
fn failed_capture_keeps_last_frame() {
    let mut w = small_webview();
    w.update(html("a")).unwrap();
    let out = w.update(Action::ChangeView(0)).unwrap();
    assert!(out.frame_captured);
    let before = w.view().unwrap().0.clone();
    w.engine().native().log.borrow_mut().unreadable = true;
    let out = w.update(Action::Resize(Size { width: 6, height: 5 })).unwrap();
    assert!(!out.frame_captured);
    assert_eq!(w.view().unwrap().0, &before);
    assert_eq!(frame_size(&w), (4, 3));
}

#[test]
fn no_capture_without_current_view() {
    let mut w = small_webview();
    let out = w.update(html("a")).unwrap();
    assert!(!out.frame_captured);
}

#[test]
fn frames_are_normalized_to_rgba() {
    let mut w = small_webview();
    w.update(html("a")).unwrap();
    w.update(Action::ChangeView(0)).unwrap();
    let (frame, _) = w.view().unwrap();
    assert_eq!(frame.pixels().len(), 4 * 3 * 4);
    assert_eq!(&frame.pixels()[..8], &[3u8, 2, 1, 4, 3, 2, 1, 4][..]);
}

#[test]
fn default_viewport() {
    let w: Browser = WebView::new();
    assert_eq!(w.view_size(), Size { width: 1920, height: 1080 });
    assert_eq!(w.current_index(), None);
}

#[test]
fn init_opens_start_page() {
    let mut w: Browser = WebView::new();
    w.init();
    assert_eq!(w.current_index(), Some(0));
    assert_eq!(w.view_count(), 1);
    match &log(&w).loads[0].1 {
        PageType::Html(h) => assert!(h.contains("<title>New Tab</title>")),
        _ => panic!("start page not loaded"),
    };
}

#[test]
fn go_to_url_targets_current_view_and_shows_busy_cursor() {
    let mut w = small_webview();
    w.update(html("a")).unwrap();
    w.update(html("b")).unwrap();
    w.update(Action::ChangeView(1)).unwrap();
    w.update(Action::GoToUrl("https://b.test/".to_string())).unwrap();
    assert_eq!(log(&w).loads.last().unwrap(), &(1, PageType::Url("https://b.test/".to_string())));
    assert_eq!(w.view().unwrap().1, CursorShape::Working);
}

#[test]
fn keyboard_events_reach_current_view() {
    let mut w = small_webview();
    w.update(html("a")).unwrap();
    w.update(Action::ChangeView(0)).unwrap();
    let mods = Modifiers { alt: false, control: false, logo: false, shift: false };
    let press = KeyboardEvent::KeyPressed {
        key: Key::Character("k".to_string()),
        modified_key: Key::Character("k".to_string()),
        modifiers: mods,
        text: Some("k".to_string()),
    };
    w.update(Action::SendKeyboardEvent(press)).unwrap();
    w.update(Action::SendKeyboardEvent(KeyboardEvent::ModifiersChanged(mods))).unwrap();
    let keys = &log(&w).keys;
    assert_eq!(keys.len(), 1);
    assert_eq!(keys[0].1.ty, KeyEventType::Char);
    assert_eq!(keys[0].1.native_key, 37);
}

#[test]
fn mouse_events_reach_current_view() {
    let mut w = small_webview();
    w.update(html("a")).unwrap();
    w.update(Action::ChangeView(0)).unwrap();
    let p = Point { x: 2, y: 1 };
    w.update(Action::SendMouseEvent(MouseEvent::ButtonPressed(MouseButton::Left), p)).unwrap();
    w.update(Action::SendMouseEvent(MouseEvent::ButtonReleased(MouseButton::Back), p)).unwrap();
    w.update(Action::SendMouseEvent(MouseEvent::WheelScrolled(ScrollDelta::Lines { x: 0, y: -100 }), p))
        .unwrap();
    w.update(Action::SendMouseEvent(MouseEvent::CursorEntered, p)).unwrap();
    w.update(Action::SendMouseEvent(MouseEvent::CursorMoved, Point { x: 3, y: 2 })).unwrap();
    let l = log(&w);
    assert!(l.mice.contains(&(
        0,
        NativeMouseEvent { ty: MouseEventType::MouseDown, x: 2, y: 1, button: Some(astrolabe::mouse::NativeButton::Left) }
    )));
    assert_eq!(l.history, vec![(0, "back")]);
    assert_eq!(l.scrolls, vec![(0, 0, -100)]);
    assert_eq!(l.focused, 1);
    assert_eq!(
        l.mice.last().unwrap(),
        &(0, NativeMouseEvent { ty: MouseEventType::MouseMoved, x: 3, y: 2, button: None })
    );
}

#[test]
fn engine_render_pass_captures_views() {
    let mut e: Ultralight<FakeNative> = Ultralight::start();
    let id = e.new_view(Size { width: 2, height: 2 }, Some(PageType::Html("x".to_string())));
    assert!(e.get_view(id).pixels().iter().all(|&b| b == 255));
    e.render(Size { width: 2, height: 2 });
    assert_eq!(e.get_view(id).pixels(), &[3u8, 2, 1, 4].repeat(4)[..]);
    e.scroll(id, ScrollDelta::Pixels { x: 5, y: 6 });
    e.refresh(id);
    e.go_forward(id);
    e.unfocus();
    let l = e.native().log.borrow();
    assert_eq!(l.scrolls, vec![(0, 5, 6)]);
    assert_eq!(l.history, vec![(0, "reload"), (0, "forward")]);
    assert_eq!(l.unfocused, 1);
    drop(l);
    e.remove_view(id);
    assert_eq!(e.view_count(), 0);
}

#[test]
fn title_changes_are_reported_once() {
    let mut w = small_webview();
    w.update(html("a")).unwrap();
    w.update(Action::ChangeView(0)).unwrap();
    w.update(Action::Update).unwrap();
    let out = w.update(Action::Update).unwrap();
    assert_eq!(out.title_changed, Some("local page".to_string()));
    assert_eq!(w.get_current_view_title(), Ok("local page".to_string()));
    assert_eq!(w.get_view_title(0), Ok("local page".to_string()));
    assert_eq!(w.get_view_title(1), Err(WebViewError::IndexOutOfRange(1)));
    let out = w.update(Action::Update).unwrap();
    assert_eq!(out.title_changed, None);
}

#[test]
fn note_url_is_edge_triggered() {
    let mut w = small_webview();
    assert_eq!(w.note_url("https://x.test/".to_string()), Some("https://x.test/".to_string()));
    assert_eq!(w.note_url("https://x.test/".to_string()), None);
    assert_eq!(w.note_url("https://y.test/".to_string()), Some("https://y.test/".to_string()));
    assert_eq!(w.note_title(String::new()), None);
    assert_eq!(w.note_title("T".to_string()), Some("T".to_string()));
}

#[test]
fn two_views_scenario() {
    let mut w = small_webview();
    w.update(html("<p>A</p>")).unwrap();
    let b = w
        .update(Action::CreateView(PageType::Url("https://example.com/".to_string())))
        .unwrap()
        .created
        .unwrap();
    w.update(Action::ChangeView(0)).unwrap();
    assert_eq!(frame_size(&w), (4, 3));

    w.update(Action::ChangeView(1)).unwrap();
    let out = w.update(Action::Update).unwrap();
    assert_eq!(out.url_changed, None);
    let out = w.update(Action::Update).unwrap();
    assert_eq!(out.url_changed, Some("https://example.com/".to_string()));
    let out = w.update(Action::Update).unwrap();
    assert_eq!(out.url_changed, None);

    w.update(Action::ChangeView(0)).unwrap();
    let renders = log(&w).renders;
    let out = w.update(Action::CloseView(0)).unwrap();
    assert!(out.closed && !out.no_views_remain);
    assert_eq!(w.current_index(), Some(0));
    assert_eq!(w.index_as_view_id(0), Ok(b));
    assert!(log(&w).renders > renders);
    assert_eq!(frame_size(&w), (4, 3));
}
