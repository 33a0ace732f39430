use window_observer::{Bounds, Position, Rect, Size, Window, WindowId, WindowsWindow};

#[test]
fn window_identity_is_structural() {
    let a = Window::new(WindowId::new(7));
    let b = Window::new(WindowId::new(7));
    let c = Window::new(WindowId::new(8));
    assert_eq!(a, b);
    assert_ne!(a, c);
    assert_eq!(a.id(), WindowId::new(7));
}

#[test]
fn size_and_position_from_bounds() {
    let b = Bounds {
        x: 3,
        y: -4,
        width: 200,
        height: 100,
    };
    assert_eq!(
        Size::from_bounds(&b),
        Size {
            width: 200,
            height: 100
        }
    );
    assert_eq!(Position::from_bounds(&b), Position { x: 3, y: -4 });
}

#[test]
fn windows_window_keeps_its_handle() {
    let w = WindowsWindow::new(0x2a);
    assert_eq!(w.hwnd(), 0x2a);
}

#[test]
fn windows_window_geometry_from_rect() {
    let w = WindowsWindow::new(1);
    let rect = Rect {
        left: 10,
        top: 20,
        right: 110,
        bottom: 70,
    };
    assert_eq!(
        w.get_size(&rect),
        Size {
            width: 100,
            height: 50
        }
    );
    assert_eq!(w.get_position(&rect), Position { x: 10, y: 20 });
}

#[test]
fn windows_window_geometry_handles_extreme_edges() {
    let w = WindowsWindow::new(1);
    let rect = Rect {
        left: i32::MIN,
        top: i32::MIN,
        right: i32::MAX,
        bottom: i32::MAX,
    };
    let size = w.get_size(&rect);
    assert_eq!(size.width, i32::MAX as i64 - i32::MIN as i64);
    assert_eq!(size.height, i32::MAX as i64 - i32::MIN as i64);
}
