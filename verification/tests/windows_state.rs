use rgui::geom::{Point, Rect2};
use rgui::window::{
    Mouse, Platform, State, UnknownHandle, Window, WindowHandle, WindowTable,
};

#[test]
fn constructors_keep_their_fields() {
    assert_eq!(Rect2::new(3, 4), Rect2 { width: 3, height: 4 });
    assert_eq!(Point::new(7, 8), Point { x: 7, y: 8 });
    let w = Window::new(11, State::default());
    assert_eq!(w.handle, 11);
    let p = Platform { handle: 42 };
    assert_eq!(p.handle, 42);
}

#[test]
fn defaults_are_a_fresh_snapshot_and_the_initial_size() {
    let m = Mouse::default();
    assert_eq!(m.pos, Point { x: 0, y: 0 });
    assert!(!m.left);
    assert!(!m.right);
    let s = State::default();
    assert_eq!(s.size, Rect2 { width: 900, height: 600 });
    assert_eq!(s.mouse, m);
}

#[test]
fn handles_wrap_their_value() {
    let h = WindowHandle::from(13u64);
    assert_eq!(h.0, 13);
}

#[test]
fn table_lookup_finds_the_first_match() {
    let table = WindowTable(vec![
        Window::new(7, State::default()),
        Window::new(9, State::default()),
        Window::new(9, State::default()),
    ]);
    assert_eq!(table.index_of(WindowHandle(7)), Ok(0));
    assert_eq!(table.index_of(WindowHandle(9)), Ok(1));
}

#[test]
fn table_lookup_miss_is_a_fail_fast_error() {
    let table = WindowTable(vec![Window::new(7, State::default())]);
    assert_eq!(table.index_of(WindowHandle(8)), Err(UnknownHandle));
    let empty = WindowTable::new();
    assert_eq!(empty.index_of(WindowHandle(7)), Err(UnknownHandle));
}
