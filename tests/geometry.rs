use offscreen_bridge::{PaintEventHandler, Point, Rect, Size, ViewGeometry};

#[test]
fn default_geometry_is_1024_by_768() {
    let g = ViewGeometry::new();
    assert_eq!(g.current(), (1024, 768));
}

#[test]
fn resize_then_current_returns_the_pair() {
    let mut g = ViewGeometry::new();
    for (w, h) in [(1u32, 1u32), (640, 480), (1920, 1080), (u32::MAX, 3)] {
        g.resize(w, h);
        assert_eq!(g.current(), (w, h));
    }
}

#[test]
fn resize_to_degenerate_size_keeps_previous() {
    let mut g = ViewGeometry::new();
    g.resize(800, 600);
    g.resize(0, 600);
    assert_eq!(g.current(), (800, 600));
    g.resize(800, 0);
    assert_eq!(g.current(), (800, 600));
    g.resize(0, 0);
    assert_eq!(g.current(), (800, 600));
}

#[test]
fn with_size_refuses_zero_sides() {
    assert!(ViewGeometry::with_size(0, 5).is_none());
    assert!(ViewGeometry::with_size(5, 0).is_none());
    assert_eq!(ViewGeometry::with_size(5, 7).unwrap().current(), (5, 7));
}

#[test]
fn view_rect_is_anchored_at_origin() {
    let mut g = ViewGeometry::new();
    g.resize(300, 200);
    assert_eq!(g.view_rect(), Rect { x: 0, y: 0, width: 300, height: 200 });
}

#[test]
fn view_rect_saturates_sides_beyond_i32() {
    let g = ViewGeometry::with_size(u32::MAX, 10).unwrap();
    assert_eq!(g.view_rect(), Rect { x: 0, y: 0, width: i32::MAX, height: 10 });
}

#[test]
fn screen_info_describes_current_view() {
    let g = ViewGeometry::with_size(640, 480).unwrap();
    let info = g.screen_info();
    let rect = Rect { x: 0, y: 0, width: 640, height: 480 };
    assert_eq!(info.depth, 32);
    assert_eq!(info.depth_per_component, 8);
    assert!(!info.is_monochrome);
    assert_eq!(info.rect, rect);
    assert_eq!(info.available_rect, rect);
}

#[test]
fn handler_queries_follow_geometry() {
    let mut h = PaintEventHandler::new();
    h.resize(1280, 720);
    let rect = Rect { x: 0, y: 0, width: 1280, height: 720 };
    assert_eq!(h.current_size(), (1280, 720));
    assert_eq!(h.view_rect(), rect);
    assert_eq!(h.root_screen_rect(), Some(rect));
    assert_eq!(h.screen_info().rect, rect);
    assert_eq!(h.screen_point(Point { x: 17, y: -4 }), Some(Point { x: 17, y: -4 }));
    assert_eq!(h.touch_handle_size(), Size { width: 0, height: 0 });
}
