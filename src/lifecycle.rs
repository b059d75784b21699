use vstd::prelude::*;
use crate::frame::FrameSnapshot;
use crate::geometry::{Point, Rect, rect_of, resized};
use crate::handler::{HandlerState, handler_wf, PaintElementKind, PaintEventHandler, PaintOutcome, paint_result};
use crate::render_state::{AuxiliaryRenderState, TextRange, TouchHandle};

verus! {

/// The stages of the bridge, in the only order in which they are entered.
#[derive(Clone, Copy, Debug, PartialEq, Eq, Structural)]
pub enum Lifecycle {
    Uninitialized,
    Initializing,
    Running,
    ShuttingDown,
    Closed,
}

/// The position of a stage in the lifecycle.
pub open spec fn rank(s: Lifecycle) -> nat {
    match s {
        Lifecycle::Uninitialized => 0,
        Lifecycle::Initializing => 1,
        Lifecycle::Running => 2,
        Lifecycle::ShuttingDown => 3,
        Lifecycle::Closed => 4,
    }
}

/// A startup failure, fatal for the session.
#[derive(Clone, Copy, Debug, PartialEq, Eq, Structural)]
pub enum BridgeError {
    /// The engine context could not be initialized.
    EngineInitError,
    /// The engine rejected the browser configuration.
    BrowserCreationError,
    /// The step does not belong to the bridge's current stage.
    InvalidState,
}

/// What the caller must do after `initialize`.
#[derive(Clone, Copy, Debug, PartialEq, Eq, Structural)]
pub enum StartupStep {
    /// This process is a helper subprocess of the engine: exit at once with
    /// this code, before any browser or UI is built.
    ExitProcess(i32),
    /// Go on and initialize the engine context.
    InitializeEngine,
    /// Startup has already begun; nothing to do.
    Ignored,
}

/// What the controller holds.
pub struct ControllerState {
    pub lifecycle: Lifecycle,
    pub engine_ready: bool,
    pub browser_created: bool,
    pub handler: HandlerState,
}

/// Owns the paint handler and drives the bridge through its lifecycle. Each
/// method takes what the engine reported and says what to do next; callbacks
/// that arrive after the bridge closed are ignored.
pub struct BridgeController {
    lifecycle: Lifecycle,
    engine_ready: bool,
    browser_created: bool,
    handler: PaintEventHandler,
}

impl View for BridgeController {
    type V = ControllerState;

    closed spec fn view(&self) -> ControllerState {
        ControllerState {
            lifecycle: self.lifecycle,
            engine_ready: self.engine_ready,
            browser_created: self.browser_created,
            handler: self.handler@,
        }
    }
}

/// The controller after `initialize`, and its answer.
pub open spec fn initialize_result(s: ControllerState, subprocess_exit: Option<i32>) -> (ControllerState, StartupStep) {
    if s.lifecycle != Lifecycle::Uninitialized {
        (s, StartupStep::Ignored)
    } else {
        match subprocess_exit {
            Some(code) => (s, StartupStep::ExitProcess(code)),
            None => (ControllerState { lifecycle: Lifecycle::Initializing, ..s }, StartupStep::InitializeEngine),
        }
    }
}

/// The controller after the engine reported whether its context initialized.
pub open spec fn engine_initialized_result(s: ControllerState, ok: bool) -> (ControllerState, Result<(), BridgeError>) {
    if s.lifecycle != Lifecycle::Initializing || s.engine_ready {
        (s, Err(BridgeError::InvalidState))
    } else if !ok {
        (s, Err(BridgeError::EngineInitError))
    } else {
        (ControllerState { engine_ready: true, ..s }, Ok(()))
    }
}

/// Whether a browser may be created now.
pub open spec fn browser_allowed(s: ControllerState) -> bool {
    s.lifecycle == Lifecycle::Initializing && s.engine_ready && !s.browser_created
}

/// The controller after the engine reported whether the browser was created.
pub open spec fn browser_created_result(s: ControllerState, ok: bool) -> (ControllerState, Result<(), BridgeError>) {
    if !browser_allowed(s) {
        (s, Err(BridgeError::InvalidState))
    } else if !ok {
        (s, Err(BridgeError::BrowserCreationError))
    } else {
        (ControllerState { browser_created: true, ..s }, Ok(()))
    }
}

/// The stage after the engine asked for the view rectangle: the first query
/// after the browser exists starts the running stage.
pub open spec fn after_view_query(s: ControllerState) -> Lifecycle {
    if s.lifecycle == Lifecycle::Initializing && s.browser_created {
        Lifecycle::Running
    } else {
        s.lifecycle
    }
}

/// The stage after a close request, and whether the browser must be asked to
/// close.
pub open spec fn close_step(s: Lifecycle) -> (Lifecycle, bool) {
    if s == Lifecycle::Running {
        (Lifecycle::ShuttingDown, true)
    } else {
        (s, false)
    }
}

/// The stage after `shutdown`, and whether this call closed the bridge.
pub open spec fn shutdown_step(s: Lifecycle) -> (Lifecycle, bool) {
    if s == Lifecycle::Running || s == Lifecycle::ShuttingDown {
        (Lifecycle::Closed, true)
    } else {
        (s, false)
    }
}

/// The stage after `n` calls of `shutdown` from `s`, and how many of them
/// closed the bridge.
pub open spec fn shutdown_times(s: Lifecycle, n: nat) -> (Lifecycle, nat)
    decreases n,
{
    if n == 0 {
        (s, 0)
    } else {
        let (t, closed) = shutdown_step(s);
        let (u, k) = shutdown_times(t, (n - 1) as nat);
        (u, if closed { k + 1 } else { k })
    }
}

/// The controller after a callback that sets the auxiliary renderer state to
/// `render`: unchanged once the bridge is closed.
pub open spec fn gated(s: ControllerState, render: AuxiliaryRenderState) -> ControllerState {
    if s.lifecycle == Lifecycle::Closed {
        s
    } else {
        ControllerState { handler: HandlerState { render, ..s.handler }, ..s }
    }
}

impl BridgeController {
    /// The paint handler is well formed.
    pub open spec fn wf(&self) -> bool {
        handler_wf(self@.handler)
    }

    /// A controller that has not started, with a fresh paint handler.
    pub fn new() -> (r: Self)
        ensures
            r.wf(),
            r@.lifecycle == Lifecycle::Uninitialized,
            !r@.engine_ready,
            !r@.browser_created,
            r@.handler.geometry == (1024u32, 768u32),
            r@.handler.view_frame.generation == 0,
            r@.handler.popup_frame.generation == 0,
    {
        BridgeController {
            lifecycle: Lifecycle::Uninitialized,
            engine_ready: false,
            browser_created: false,
            handler: PaintEventHandler::new(),
        }
    }

    /// The current stage.
    pub fn lifecycle(&self) -> (r: Lifecycle)
        ensures
            r == self@.lifecycle,
    {
        self.lifecycle
    }

    /// The paint handler, for queries.
    pub fn handler(&self) -> (r: &PaintEventHandler)
        ensures
            r@ == self@.handler,
    {
        &self.handler
    }

    /// Starts the bridge once the engine context exists. `subprocess_exit`
    /// is the engine's answer to whether this process is one of its helper
    /// subprocesses, with the code to exit with; such a process must exit at
    /// once, and the bridge stays uninitialized.
    pub fn initialize(&mut self, subprocess_exit: Option<i32>) -> (r: StartupStep)
        requires
            old(self).wf(),
        ensures
            final(self).wf(),
            (final(self)@, r) == initialize_result(old(self)@, subprocess_exit),
    {
        if self.lifecycle != Lifecycle::Uninitialized {
            return StartupStep::Ignored;
        }
        match subprocess_exit {
            Some(code) => StartupStep::ExitProcess(code),
            None => {
                self.lifecycle = Lifecycle::Initializing;
                StartupStep::InitializeEngine
            },
        }
    }

    /// Takes whether the engine context initialized.
    pub fn engine_initialized(&mut self, ok: bool) -> (r: Result<(), BridgeError>)
        requires
            old(self).wf(),
        ensures
            final(self).wf(),
            (final(self)@, r) == engine_initialized_result(old(self)@, ok),
    {
        if self.lifecycle != Lifecycle::Initializing || self.engine_ready {
            return Err(BridgeError::InvalidState);
        }
        if !ok {
            return Err(BridgeError::EngineInitError);
        }
        self.engine_ready = true;
        Ok(())
    }

    /// Whether a browser may be created now: the engine is initialized, no
    /// browser exists yet, and the bridge is not running.
    pub fn may_create_browser(&self) -> (r: bool)
        ensures
            r == browser_allowed(self@),
    {
        self.lifecycle == Lifecycle::Initializing && self.engine_ready && !self.browser_created
    }

    /// Takes whether the engine created the browser.
    pub fn browser_created(&mut self, ok: bool) -> (r: Result<(), BridgeError>)
        requires
            old(self).wf(),
        ensures
            final(self).wf(),
            (final(self)@, r) == browser_created_result(old(self)@, ok),
    {
        if !self.may_create_browser() {
            return Err(BridgeError::InvalidState);
        }
        if !ok {
            return Err(BridgeError::BrowserCreationError);
        }
        self.browser_created = true;
        Ok(())
    }

    /// Answers the engine's view-rectangle query. The first one after the
    /// browser was created moves the bridge to the running stage.
    pub fn view_rect(&mut self) -> (r: Rect)
        requires
            old(self).wf(),
        ensures
            final(self).wf(),
            r == rect_of(old(self)@.handler.geometry),
            final(self)@ == (ControllerState { lifecycle: after_view_query(old(self)@), ..old(self)@ }),
    {
        if self.lifecycle == Lifecycle::Initializing && self.browser_created {
            self.lifecycle = Lifecycle::Running;
        }
        self.handler.view_rect()
    }

    /// Takes the size the UI now shows.
    pub fn resize(&mut self, width: u32, height: u32)
        requires
            old(self).wf(),
        ensures
            final(self).wf(),
            final(self)@ == (ControllerState {
                handler: HandlerState {
                    geometry: resized(old(self)@.handler.geometry, width, height),
                    ..old(self)@.handler
                },
                ..old(self)@
            }),
    {
        self.handler.resize(width, height);
    }

    /// A close requested by the user: a running bridge starts shutting down
    /// and the result says that the browser must be asked to close.
    pub fn request_close(&mut self) -> (r: bool)
        requires
            old(self).wf(),
        ensures
            final(self).wf(),
            (final(self)@.lifecycle, r) == close_step(old(self)@.lifecycle),
            final(self)@ == (ControllerState { lifecycle: final(self)@.lifecycle, ..old(self)@ }),
    {
        if self.lifecycle == Lifecycle::Running {
            self.lifecycle = Lifecycle::ShuttingDown;
            true
        } else {
            false
        }
    }

    /// Closes a running or shutting-down bridge. The result tells whether this
    /// call closed it; any later call does nothing.
    pub fn shutdown(&mut self) -> (r: bool)
        requires
            old(self).wf(),
        ensures
            final(self).wf(),
            (final(self)@.lifecycle, r) == shutdown_step(old(self)@.lifecycle),
            final(self)@ == (ControllerState { lifecycle: final(self)@.lifecycle, ..old(self)@ }),
    {
        if self.lifecycle == Lifecycle::Running || self.lifecycle == Lifecycle::ShuttingDown {
            self.lifecycle = Lifecycle::Closed;
            true
        } else {
            false
        }
    }

    /// The engine's notice that the browser is about to close: it closes the
    /// bridge, and the result tells whether the engine's message loop must
    /// now be stopped.
    pub fn on_before_close(&mut self) -> (r: bool)
        requires
            old(self).wf(),
        ensures
            final(self).wf(),
            (final(self)@.lifecycle, r) == shutdown_step(old(self)@.lifecycle),
            final(self)@ == (ControllerState { lifecycle: final(self)@.lifecycle, ..old(self)@ }),
    {
        self.shutdown()
    }

    /// Whether engine callbacks are still acted upon.
    pub fn accepts_callbacks(&self) -> (r: bool)
        ensures
            r == (self@.lifecycle != Lifecycle::Closed),
    {
        self.lifecycle != Lifecycle::Closed
    }

    /// Takes a paint, unless the bridge is closed: then the paint is ignored
    /// and the result is `None`.
    pub fn on_paint(&mut self, kind: PaintElementKind, buffer: &[u8], width: usize, height: usize) -> (r: Option<PaintOutcome>)
        requires
            old(self).wf(),
        ensures
            final(self).wf(),
            old(self)@.lifecycle == Lifecycle::Closed ==> r is None && final(self)@ == old(self)@,
            old(self)@.lifecycle != Lifecycle::Closed ==> ({
                let (h, o) = paint_result(old(self)@.handler, kind, buffer@, width, height);
                r == Some(o) && final(self)@ == (ControllerState { handler: h, ..old(self)@ })
            }),
    {
        if self.lifecycle == Lifecycle::Closed {
            return None;
        }
        Some(self.handler.on_paint(kind, buffer, width, height))
    }

    /// Records whether the popup overlay is shown, unless the bridge is closed.
    pub fn on_popup_show(&mut self, show: bool)
        requires
            old(self).wf(),
        ensures
            final(self).wf(),
            final(self)@ == gated(old(self)@, AuxiliaryRenderState { popup_visible: show, ..old(self)@.handler.render }),
    {
        if self.lifecycle != Lifecycle::Closed {
            self.handler.on_popup_show(show);
        }
    }

    /// Records where the popup overlay is drawn, unless the bridge is closed.
    pub fn on_popup_size(&mut self, rect: Rect)
        requires
            old(self).wf(),
        ensures
            final(self).wf(),
            final(self)@ == gated(old(self)@, AuxiliaryRenderState { popup_rect: rect, ..old(self)@.handler.render }),
    {
        if self.lifecycle != Lifecycle::Closed {
            self.handler.on_popup_size(rect);
        }
    }

    /// Declines a native drag; records the offered operations unless the
    /// bridge is closed.
    pub fn start_dragging(&mut self, allowed_ops: u32, at: Point) -> (r: bool)
        requires
            old(self).wf(),
        ensures
            final(self).wf(),
            !r,
            final(self)@ == gated(old(self)@, AuxiliaryRenderState { drag_allowed_ops: allowed_ops, ..old(self)@.handler.render }),
    {
        if self.lifecycle != Lifecycle::Closed {
            self.handler.start_dragging(allowed_ops, at)
        } else {
            false
        }
    }

    /// Records the drag operation the cursor should show, unless the bridge
    /// is closed.
    pub fn update_drag_cursor(&mut self, operation: u32)
        requires
            old(self).wf(),
        ensures
            final(self).wf(),
            final(self)@ == gated(old(self)@, AuxiliaryRenderState { drag_operation: operation, ..old(self)@.handler.render }),
    {
        if self.lifecycle != Lifecycle::Closed {
            self.handler.update_drag_cursor(operation);
        }
    }

    /// Records the selected text and its range, unless the bridge is closed.
    pub fn on_text_selection_changed(&mut self, selected_text: Option<String>, range: TextRange)
        requires
            old(self).wf(),
        ensures
            final(self).wf(),
            final(self)@ == gated(
                old(self)@,
                AuxiliaryRenderState { selected_text: selected_text, selection: range, ..old(self)@.handler.render },
            ),
    {
        if self.lifecycle != Lifecycle::Closed {
            self.handler.on_text_selection_changed(selected_text, range);
        }
    }

    /// Records the IME composition range and its character bounds, unless
    /// the bridge is closed.
    pub fn on_ime_composition_range_changed(&mut self, range: TextRange, character_bounds: &[Rect])
        requires
            old(self).wf(),
        ensures
            final(self).wf(),
            old(self)@.lifecycle != Lifecycle::Closed ==> final(self)@.handler.render.ime_character_bounds@
                == character_bounds@,
            final(self)@ == gated(
                old(self)@,
                AuxiliaryRenderState {
                    ime_range: range,
                    ime_character_bounds: final(self)@.handler.render.ime_character_bounds,
                    ..old(self)@.handler.render
                },
            ),
    {
        if self.lifecycle != Lifecycle::Closed {
            self.handler.on_ime_composition_range_changed(range, character_bounds);
        }
    }

    /// Records the state of a touch selection handle, unless the bridge is
    /// closed.
    pub fn on_touch_handle_state_changed(&mut self, handle: TouchHandle)
        requires
            old(self).wf(),
        ensures
            final(self).wf(),
            final(self)@ == gated(old(self)@, AuxiliaryRenderState { touch_handle: Some(handle), ..old(self)@.handler.render }),
    {
        if self.lifecycle != Lifecycle::Closed {
            self.handler.on_touch_handle_state_changed(handle);
        }
    }

    /// The frame of the main view.
    pub fn snapshot(&self) -> (r: FrameSnapshot<'_>)
        ensures
            r.pixels@ == self@.handler.view_frame.pixels,
            r.width == self@.handler.view_frame.width,
            r.height == self@.handler.view_frame.height,
            r.generation == self@.handler.view_frame.generation,
    {
        self.handler.snapshot()
    }

    /// The frame of the popup overlay.
    pub fn popup_snapshot(&self) -> (r: FrameSnapshot<'_>)
        ensures
            r.pixels@ == self@.handler.popup_frame.pixels,
            r.width == self@.handler.popup_frame.width,
            r.height == self@.handler.popup_frame.height,
            r.generation == self@.handler.popup_frame.generation,
    {
        self.handler.popup_snapshot()
    }
}

/// Once closed, further calls of `shutdown` close nothing.
proof fn lemma_closed_stays_closed(n: nat)
    ensures
        shutdown_times(Lifecycle::Closed, n) == (Lifecycle::Closed, 0nat),
    decreases n,
{
    if n > 0 {
        lemma_closed_stays_closed((n - 1) as nat);
    }
}

/// Calling `shutdown` any number of times, at least once, on a running or
/// shutting-down bridge closes it exactly once; every later call is a no-op.
pub proof fn lemma_shutdown_idempotent(s: Lifecycle, n: nat)
    requires
        s == Lifecycle::Running || s == Lifecycle::ShuttingDown,
        n >= 1,
    ensures
        shutdown_times(s, n) == (Lifecycle::Closed, 1nat),
{
    lemma_closed_stays_closed((n - 1) as nat);
}

/// A process that the engine marks as its subprocess is told to exit with
/// the engine's code, and no browser may be created afterwards.
pub proof fn lemma_subprocess_short_circuit(s: ControllerState, code: i32)
    requires
        s.lifecycle == Lifecycle::Uninitialized,
    ensures
        initialize_result(s, Some(code)).1 == StartupStep::ExitProcess(code),
        !browser_allowed(initialize_result(s, Some(code)).0),
        browser_created_result(initialize_result(s, Some(code)).0, true).1 == Err::<(), BridgeError>(
            BridgeError::InvalidState,
        ),
        browser_created_result(initialize_result(s, Some(code)).0, true).0 == s,
{
}

/// No step moves the bridge back to an earlier stage.
pub proof fn lemma_stages_never_go_back(
    s: ControllerState,
    subprocess_exit: Option<i32>,
    ok: bool,
    render: AuxiliaryRenderState,
)
    ensures
        rank(initialize_result(s, subprocess_exit).0.lifecycle) >= rank(s.lifecycle),
        rank(engine_initialized_result(s, ok).0.lifecycle) >= rank(s.lifecycle),
        rank(browser_created_result(s, ok).0.lifecycle) >= rank(s.lifecycle),
        rank(after_view_query(s)) >= rank(s.lifecycle),
        rank(close_step(s.lifecycle).0) >= rank(s.lifecycle),
        rank(shutdown_step(s.lifecycle).0) >= rank(s.lifecycle),
        rank(gated(s, render).lifecycle) == rank(s.lifecycle),
{
}

} // verus!
