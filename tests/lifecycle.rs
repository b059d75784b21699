use offscreen_bridge::{
    BridgeController, BridgeError, Lifecycle, PaintElementKind, PaintOutcome, Point, Rect,
    StartupStep, TextRange, TouchHandle,
};

fn running() -> BridgeController {
    let mut c = BridgeController::new();
    assert_eq!(c.initialize(None), StartupStep::InitializeEngine);
    assert_eq!(c.engine_initialized(true), Ok(()));
    assert!(c.may_create_browser());
    assert_eq!(c.browser_created(true), Ok(()));
    c.view_rect();
    assert_eq!(c.lifecycle(), Lifecycle::Running);
    c
}

#[test]
fn startup_walks_through_stages() {
    let mut c = BridgeController::new();
    assert_eq!(c.lifecycle(), Lifecycle::Uninitialized);
    assert_eq!(c.initialize(None), StartupStep::InitializeEngine);
    assert_eq!(c.lifecycle(), Lifecycle::Initializing);
    assert_eq!(c.engine_initialized(true), Ok(()));
    assert_eq!(c.browser_created(true), Ok(()));
    assert_eq!(c.lifecycle(), Lifecycle::Initializing);
    assert_eq!(c.view_rect(), Rect { x: 0, y: 0, width: 1024, height: 768 });
    assert_eq!(c.lifecycle(), Lifecycle::Running);
}

#[test]
fn view_query_before_browser_does_not_start_running() {
    let mut c = BridgeController::new();
    c.initialize(None);
    c.engine_initialized(true).unwrap();
    c.view_rect();
    assert_eq!(c.lifecycle(), Lifecycle::Initializing);
}

#[test]
fn subprocess_marker_exits_before_browser() {
    let mut c = BridgeController::new();
    assert_eq!(c.initialize(Some(42)), StartupStep::ExitProcess(42));
    assert_eq!(c.lifecycle(), Lifecycle::Uninitialized);
    assert!(!c.may_create_browser());
    assert_eq!(c.browser_created(true), Err(BridgeError::InvalidState));
}

#[test]
fn second_initialize_is_ignored() {
    let mut c = BridgeController::new();
    c.initialize(None);
    assert_eq!(c.initialize(None), StartupStep::Ignored);
    assert_eq!(c.initialize(Some(1)), StartupStep::Ignored);
    assert_eq!(c.lifecycle(), Lifecycle::Initializing);
}

#[test]
fn engine_init_failure_is_reported() {
    let mut c = BridgeController::new();
    assert_eq!(c.engine_initialized(true), Err(BridgeError::InvalidState));
    c.initialize(None);
    assert_eq!(c.engine_initialized(false), Err(BridgeError::EngineInitError));
    assert!(!c.may_create_browser());
    assert_eq!(c.browser_created(true), Err(BridgeError::InvalidState));
}

#[test]
fn browser_creation_failure_is_reported() {
    let mut c = BridgeController::new();
    c.initialize(None);
    c.engine_initialized(true).unwrap();
    assert_eq!(c.browser_created(false), Err(BridgeError::BrowserCreationError));
    assert!(c.may_create_browser());
    assert_eq!(c.browser_created(true), Ok(()));
    assert_eq!(c.browser_created(true), Err(BridgeError::InvalidState));
}

#[test]
fn shutdown_closes_exactly_once() {
    let mut c = running();
    assert!(c.shutdown());
    assert_eq!(c.lifecycle(), Lifecycle::Closed);
    for _ in 0..5 {
        assert!(!c.shutdown());
        assert_eq!(c.lifecycle(), Lifecycle::Closed);
    }
}

#[test]
fn close_request_then_before_close() {
    let mut c = running();
    assert!(c.request_close());
    assert_eq!(c.lifecycle(), Lifecycle::ShuttingDown);
    assert!(!c.request_close());
    assert!(c.on_before_close());
    assert_eq!(c.lifecycle(), Lifecycle::Closed);
    assert!(!c.on_before_close());
    assert!(!c.shutdown());
}

#[test]
fn shutdown_before_running_does_nothing() {
    let mut c = BridgeController::new();
    assert!(!c.shutdown());
    assert_eq!(c.lifecycle(), Lifecycle::Uninitialized);
    c.initialize(None);
    assert!(!c.shutdown());
    assert!(!c.request_close());
    assert_eq!(c.lifecycle(), Lifecycle::Initializing);
}

#[test]
fn callbacks_after_close_are_ignored() {
    let mut c = running();
    let frame = vec![1u8; 2 * 2 * 4];
    assert_eq!(
        c.on_paint(PaintElementKind::View, &frame, 2, 2),
        Some(PaintOutcome::Published { generation: 1, geometry_mismatch: true })
    );
    c.shutdown();
    assert!(!c.accepts_callbacks());
    let later = vec![2u8; 2 * 2 * 4];
    assert_eq!(c.on_paint(PaintElementKind::View, &later, 2, 2), None);
    assert_eq!(c.snapshot().pixels, &frame[..]);
    assert_eq!(c.snapshot().generation, 1);
    c.on_popup_show(true);
    c.on_popup_size(Rect { x: 1, y: 2, width: 3, height: 4 });
    assert!(!c.start_dragging(7, Point { x: 0, y: 0 }));
    c.update_drag_cursor(1);
    c.on_text_selection_changed(Some(String::from("late")), TextRange { from: 1, to: 2 });
    c.on_ime_composition_range_changed(TextRange { from: 3, to: 4 }, &[Rect { x: 0, y: 0, width: 1, height: 1 }]);
    c.on_touch_handle_state_changed(TouchHandle { id: 1, enabled: true, origin: Point { x: 1, y: 1 } });
    let st = c.handler().render_state();
    assert!(!st.popup_visible);
    assert_eq!(st.popup_rect, Rect { x: 0, y: 0, width: 0, height: 0 });
    assert_eq!(st.drag_allowed_ops, 0);
    assert_eq!(st.drag_operation, 0);
    assert!(st.selected_text.is_none());
    assert_eq!(st.ime_range, TextRange { from: 0, to: 0 });
    assert!(st.ime_character_bounds.is_empty());
    assert!(st.touch_handle.is_none());
}

#[test]
fn auxiliary_state_is_recorded_while_open() {
    let mut c = running();
    c.on_popup_show(true);
    let popup = Rect { x: 10, y: 20, width: 200, height: 100 };
    c.on_popup_size(popup);
    assert!(!c.start_dragging(0x3, Point { x: 5, y: 6 }));
    c.update_drag_cursor(0x1);
    c.on_text_selection_changed(Some(String::from("hello")), TextRange { from: 0, to: 5 });
    let bounds = [Rect { x: 0, y: 0, width: 8, height: 16 }, Rect { x: 8, y: 0, width: 8, height: 16 }];
    c.on_ime_composition_range_changed(TextRange { from: 2, to: 4 }, &bounds);
    let handle = TouchHandle { id: 9, enabled: true, origin: Point { x: 30, y: 40 } };
    c.on_touch_handle_state_changed(handle);
    let st = c.handler().render_state();
    assert!(st.popup_visible);
    assert_eq!(st.popup_rect, popup);
    assert_eq!(st.drag_allowed_ops, 0x3);
    assert_eq!(st.drag_operation, 0x1);
    assert!(st.drag_active());
    assert_eq!(st.selected_text.as_deref(), Some("hello"));
    assert_eq!(st.selection, TextRange { from: 0, to: 5 });
    assert_eq!(st.ime_range, TextRange { from: 2, to: 4 });
    assert_eq!(st.ime_character_bounds, bounds.to_vec());
    assert_eq!(st.touch_handle, Some(handle));
    c.update_drag_cursor(0);
    assert!(!c.handler().render_state().drag_active());
    c.on_popup_show(false);
    assert!(!c.handler().render_state().popup_visible);
}

#[test]
fn controller_end_to_end_scenario() {
    let mut c = BridgeController::new();
    c.initialize(None);
    c.engine_initialized(true).unwrap();
    c.browser_created(true).unwrap();
    c.resize(1024, 768);
    assert_eq!(c.view_rect(), Rect { x: 0, y: 0, width: 1024, height: 768 });
    assert_eq!(c.lifecycle(), Lifecycle::Running);
    let frame = vec![0x11u8; 1024 * 768 * 4];
    c.on_paint(PaintElementKind::View, &frame, 1024, 768);
    let s = c.snapshot();
    assert_eq!((s.width, s.height, s.generation), (1024, 768, 1));
    c.resize(640, 480);
    let s = c.snapshot();
    assert_eq!((s.width, s.height, s.generation), (1024, 768, 1));
    assert_eq!(s.pixels.len(), 1024 * 768 * 4);
    assert_eq!(c.view_rect(), Rect { x: 0, y: 0, width: 640, height: 480 });
    let next = vec![0x22u8; 640 * 480 * 4];
    c.on_paint(PaintElementKind::View, &next, 640, 480);
    let s = c.snapshot();
    assert_eq!((s.width, s.height, s.generation), (640, 480, 2));
    assert_eq!(c.popup_snapshot().generation, 0);
}
