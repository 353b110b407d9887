use astrolabe::engine::{Size, ViewNotFound};
use astrolabe::image::ImageInfo;
use astrolabe::mouse::Point;
use astrolabe::views::{needs_capture, ViewTable};

fn small() -> Size {
    Size { width: 2, height: 2 }
}

#[test]
fn free_draw_is_used_as_id() {
    let mut t: ViewTable<&str> = ViewTable::new();
    let id = t.insert_with("a", small(), 42);
    assert_eq!(id, 42);
    assert_eq!(t.len(), 1);
    let e = t.get(42).unwrap();
    assert_eq!(e.handle, "a");
    assert!(e.was_loading);
    assert_eq!(e.last_frame.pixels().len(), 16);
}

#[test]
fn taken_draw_falls_back_to_least_free_id() {
    let mut t: ViewTable<u8> = ViewTable::new();
    assert_eq!(t.insert_with(1, small(), 0), 0);
    assert_eq!(t.insert_with(2, small(), 2), 2);
    assert_eq!(t.insert_with(3, small(), 0), 1);
    assert_eq!(t.insert_with(4, small(), 2), 3);
    assert_eq!(t.fresh_id(9), 9);
    assert_eq!(t.fresh_id(3), 4);
}

#[test]
fn random_ids_are_distinct() {
    let mut t: ViewTable<u8> = ViewTable::new();
    let a = t.insert(1, small());
    let b = t.insert(2, small());
    assert_ne!(a, b);
    assert!(t.contains(a) && t.contains(b));
}

#[test]
fn missing_view_is_reported() {
    let mut t: ViewTable<u8> = ViewTable::new();
    t.insert_with(1, small(), 5);
    assert_eq!(t.get(6).err(), Some(ViewNotFound { id: 6 }));
    assert_eq!(t.mark_loading(6), Err(ViewNotFound { id: 6 }));
    assert_eq!(t.set_pointer(6, Point::default()), Err(ViewNotFound { id: 6 }));
    assert_eq!(t.remove(6).err(), Some(ViewNotFound { id: 6 }));
    assert_eq!(t.position(6), None);
}

#[test]
fn remove_keeps_order_of_others() {
    let mut t: ViewTable<u8> = ViewTable::new();
    t.insert_with(10, small(), 1);
    t.insert_with(20, small(), 2);
    t.insert_with(30, small(), 3);
    let e = t.remove(2).unwrap();
    assert_eq!(e.handle, 20);
    assert_eq!(t.len(), 2);
    assert_eq!(t.entry(0).id, 1);
    assert_eq!(t.entry(1).id, 3);
    assert!(!t.contains(2));
}

#[test]
fn frames_loading_and_pointer_are_recorded() {
    let mut t: ViewTable<u8> = ViewTable::new();
    t.insert_with(1, small(), 7);
    t.store_frame_at(0, ImageInfo::blank(1, 1));
    assert!(!t.entry(0).was_loading);
    assert_eq!(t.entry(0).last_frame.width(), 1);
    t.mark_loading(7).unwrap();
    assert!(t.entry(0).was_loading);
    t.set_pointer(7, Point { x: 3, y: 4 }).unwrap();
    assert_eq!(t.entry(0).pointer, Point { x: 3, y: 4 });
}

#[test]
fn capture_decision() {
    assert!(needs_capture(true, false, false));
    assert!(needs_capture(false, true, false));
    assert!(!needs_capture(false, true, true));
    assert!(!needs_capture(false, false, false));
}
