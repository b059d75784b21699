use vstd::prelude::*;
use crate::frame::{FrameBuffer, FrameSnapshot, FrameState, PublishError, published, accepts, frame_len};
use crate::geometry::{Point, Rect, ScreenInfo, Size, ViewGeometry, rect_of, resized, screen_info_of};
use crate::render_state::{AuxiliaryRenderState, TextRange, TouchHandle, copy_rects};

verus! {

/// Which surface a paint delivers.
#[derive(Clone, Copy, Debug, PartialEq, Eq, Structural)]
pub enum PaintElementKind {
    /// The main view.
    View,
    /// A popup overlay, drawn by the UI over the view at the popup rectangle.
    Popup,
}

/// What became of a paint delivery.
#[derive(Clone, Copy, Debug, PartialEq, Eq, Structural)]
pub enum PaintOutcome {
    /// The frame is now the visible one of its surface. For the main view,
    /// `geometry_mismatch` tells whether its size differs from the current
    /// view geometry.
    Published { generation: u64, geometry_mismatch: bool },
    /// The frame was dropped; the previous one stays visible.
    Rejected(PublishError),
    /// A side of the frame does not fit the bridge's 32-bit sizes; the
    /// frame was dropped.
    Oversized,
}

/// What the paint handler holds, as the engine and the UI see it.
pub struct HandlerState {
    pub geometry: (u32, u32),
    pub view_frame: FrameState,
    pub popup_frame: FrameState,
    pub geometry_mismatch: bool,
    pub render: AuxiliaryRenderState,
}

/// The engine-facing callback surface: answers geometry queries, takes
/// paints into the frame buffers and records auxiliary renderer state.
pub struct PaintEventHandler {
    geometry: ViewGeometry,
    view_frame: FrameBuffer,
    popup_frame: FrameBuffer,
    geometry_mismatch: bool,
    render: AuxiliaryRenderState,
}

impl View for PaintEventHandler {
    type V = HandlerState;

    closed spec fn view(&self) -> HandlerState {
        HandlerState {
            geometry: self.geometry@,
            view_frame: self.view_frame@,
            popup_frame: self.popup_frame@,
            geometry_mismatch: self.geometry_mismatch,
            render: self.render,
        }
    }
}

/// The error `publish` gives when it refuses a frame.
pub open spec fn refusal(len: int, width: u32, height: u32) -> PublishError {
    if len != frame_len(width, height) {
        PublishError::LengthMismatch
    } else {
        PublishError::GenerationExhausted
    }
}

/// The handler's state and answer after a paint of `kind` with `pixels` of
/// size `width` by `height`.
pub open spec fn paint_result(
    prev: HandlerState,
    kind: PaintElementKind,
    pixels: Seq<u8>,
    width: usize,
    height: usize,
) -> (HandlerState, PaintOutcome) {
    if width > u32::MAX || height > u32::MAX {
        (prev, PaintOutcome::Oversized)
    } else {
        let w = width as u32;
        let h = height as u32;
        let frame = match kind {
            PaintElementKind::View => prev.view_frame,
            PaintElementKind::Popup => prev.popup_frame,
        };
        if !accepts(frame, pixels.len() as int, w, h) {
            (prev, PaintOutcome::Rejected(refusal(pixels.len() as int, w, h)))
        } else {
            let generation = (frame.generation + 1) as u64;
            match kind {
                PaintElementKind::View => {
                    let mismatch = (w, h) != prev.geometry;
                    (
                        HandlerState {
                            view_frame: published(frame, pixels, w, h),
                            geometry_mismatch: mismatch,
                            ..prev
                        },
                        PaintOutcome::Published { generation, geometry_mismatch: mismatch },
                    )
                },
                PaintElementKind::Popup => (
                    HandlerState { popup_frame: published(frame, pixels, w, h), ..prev },
                    PaintOutcome::Published { generation, geometry_mismatch: false },
                ),
            }
        }
    }
}

/// The geometry is valid and each frame agrees with its reported size.
pub open spec fn handler_wf(s: HandlerState) -> bool {
    &&& s.geometry.0 > 0
    &&& s.geometry.1 > 0
    &&& s.view_frame.pixels.len() == frame_len(s.view_frame.width, s.view_frame.height)
    &&& s.popup_frame.pixels.len() == frame_len(s.popup_frame.width, s.popup_frame.height)
}

impl PaintEventHandler {
    /// The geometry is valid and each frame agrees with its reported size.
    pub open spec fn wf(&self) -> bool {
        handler_wf(self@)
    }

    closed spec fn inner_wf(&self) -> bool {
        self.geometry.wf() && self.view_frame.wf() && self.popup_frame.wf()
    }

    proof fn lemma_wf(&self)
        ensures
            self.wf() <==> self.inner_wf(),
    {
    }

    /// A handler with the default view size, no frame yet and empty
    /// auxiliary state.
    pub fn new() -> (r: Self)
        ensures
            r.wf(),
            r@.geometry == (1024u32, 768u32),
            r@.view_frame.generation == 0,
            r@.view_frame.pixels.len() == 0,
            r@.popup_frame.generation == 0,
            r@.popup_frame.pixels.len() == 0,
            !r@.geometry_mismatch,
            !r@.render.popup_visible,
            r@.render.drag_operation == 0,
            r@.render.touch_handle is None,
    {
        PaintEventHandler {
            geometry: ViewGeometry::new(),
            view_frame: FrameBuffer::new(),
            popup_frame: FrameBuffer::new(),
            geometry_mismatch: false,
            render: AuxiliaryRenderState::new(),
        }
    }

    /// Takes the size the UI now shows; a degenerate size keeps the previous
    /// one. The frames are left as they are until the engine repaints.
    pub fn resize(&mut self, width: u32, height: u32)
        requires
            old(self).wf(),
        ensures
            final(self).wf(),
            final(self)@ == (HandlerState { geometry: resized(old(self)@.geometry, width, height), ..old(self)@ }),
    {
        self.geometry.resize(width, height);
    }

    /// The current view size, as `(width, height)`.
    pub fn current_size(&self) -> (r: (u32, u32))
        ensures
            r == self@.geometry,
    {
        self.geometry.current()
    }

    /// The view rectangle the engine renders into.
    pub fn view_rect(&self) -> (r: Rect)
        ensures
            r == rect_of(self@.geometry),
    {
        self.geometry.view_rect()
    }

    /// The rectangle of the root screen: without an OS window it is the view.
    pub fn root_screen_rect(&self) -> (r: Option<Rect>)
        ensures
            r == Some(rect_of(self@.geometry)),
    {
        Some(self.geometry.view_rect())
    }

    /// Maps a view point to the screen: the identity, as no window backs the
    /// view.
    pub fn screen_point(&self, view: Point) -> (r: Option<Point>)
        ensures
            r == Some(view),
    {
        Some(view)
    }

    /// The screen descriptor of the current view.
    pub fn screen_info(&self) -> (r: ScreenInfo)
        ensures
            r == screen_info_of(self@.geometry),
    {
        self.geometry.screen_info()
    }

    /// The size of a touch selection handle: none is drawn by the bridge.
    pub fn touch_handle_size(&self) -> (r: Size)
        ensures
            r == (Size { width: 0, height: 0 }),
    {
        Size { width: 0, height: 0 }
    }

    /// Takes a paint. A buffer whose length is not `width * height * 4` is
    /// dropped and the previous frame stays visible. A frame of the main view
    /// whose size differs from the current geometry is still stored, and the
    /// difference is flagged.
    pub fn on_paint(&mut self, kind: PaintElementKind, buffer: &[u8], width: usize, height: usize) -> (r: PaintOutcome)
        requires
            old(self).wf(),
        ensures
            final(self).wf(),
            (final(self)@, r) == paint_result(old(self)@, kind, buffer@, width, height),
    {
        proof { self.lemma_wf(); }
        if width > u32::MAX as usize || height > u32::MAX as usize {
            return PaintOutcome::Oversized;
        }
        let w = width as u32;
        let h = height as u32;
        match kind {
            PaintElementKind::View => {
                match self.view_frame.publish(buffer, w, h) {
                    Ok(generation) => {
                        let (cw, ch) = self.geometry.current();
                        let mismatch = cw != w || ch != h;
                        self.geometry_mismatch = mismatch;
                        proof { self.lemma_wf(); }
                        PaintOutcome::Published { generation, geometry_mismatch: mismatch }
                    },
                    Err(e) => PaintOutcome::Rejected(e),
                }
            },
            PaintElementKind::Popup => {
                match self.popup_frame.publish(buffer, w, h) {
                    Ok(generation) => {
                        proof { self.lemma_wf(); }
                        PaintOutcome::Published { generation, geometry_mismatch: false }
                    },
                    Err(e) => PaintOutcome::Rejected(e),
                }
            },
        }
    }

    /// Records whether the popup overlay is shown.
    pub fn on_popup_show(&mut self, show: bool)
        requires
            old(self).wf(),
        ensures
            final(self).wf(),
            final(self)@ == (HandlerState {
                render: AuxiliaryRenderState { popup_visible: show, ..old(self)@.render },
                ..old(self)@
            }),
    {
        self.render.popup_visible = show;
    }

    /// Records where the popup overlay is drawn.
    pub fn on_popup_size(&mut self, rect: Rect)
        requires
            old(self).wf(),
        ensures
            final(self).wf(),
            final(self)@ == (HandlerState {
                render: AuxiliaryRenderState { popup_rect: rect, ..old(self)@.render },
                ..old(self)@
            }),
    {
        self.render.popup_rect = rect;
    }

    /// Declines a native drag, so that the engine falls back to its own drag
    /// handling, and records the operations it offered.
    pub fn start_dragging(&mut self, allowed_ops: u32, at: Point) -> (r: bool)
        requires
            old(self).wf(),
        ensures
            final(self).wf(),
            !r,
            final(self)@ == (HandlerState {
                render: AuxiliaryRenderState { drag_allowed_ops: allowed_ops, ..old(self)@.render },
                ..old(self)@
            }),
    {
        self.render.drag_allowed_ops = allowed_ops;
        false
    }

    /// Records the drag operation the cursor should show.
    pub fn update_drag_cursor(&mut self, operation: u32)
        requires
            old(self).wf(),
        ensures
            final(self).wf(),
            final(self)@ == (HandlerState {
                render: AuxiliaryRenderState { drag_operation: operation, ..old(self)@.render },
                ..old(self)@
            }),
    {
        self.render.drag_operation = operation;
    }

    /// Records the selected text and its range.
    pub fn on_text_selection_changed(&mut self, selected_text: Option<String>, range: TextRange)
        requires
            old(self).wf(),
        ensures
            final(self).wf(),
            final(self)@ == (HandlerState {
                render: AuxiliaryRenderState {
                    selected_text: selected_text,
                    selection: range,
                    ..old(self)@.render
                },
                ..old(self)@
            }),
    {
        self.render.selected_text = selected_text;
        self.render.selection = range;
    }

    /// Records the range of the IME composition and its character bounds.
    pub fn on_ime_composition_range_changed(&mut self, range: TextRange, character_bounds: &[Rect])
        requires
            old(self).wf(),
        ensures
            final(self).wf(),
            final(self)@.render.ime_character_bounds@ == character_bounds@,
            final(self)@ == (HandlerState {
                render: AuxiliaryRenderState {
                    ime_range: range,
                    ime_character_bounds: final(self)@.render.ime_character_bounds,
                    ..old(self)@.render
                },
                ..old(self)@
            }),
    {
        self.render.ime_range = range;
        self.render.ime_character_bounds = copy_rects(character_bounds);
    }

    /// Records the state of a touch selection handle.
    pub fn on_touch_handle_state_changed(&mut self, handle: TouchHandle)
        requires
            old(self).wf(),
        ensures
            final(self).wf(),
            final(self)@ == (HandlerState {
                render: AuxiliaryRenderState { touch_handle: Some(handle), ..old(self)@.render },
                ..old(self)@
            }),
    {
        self.render.touch_handle = Some(handle);
    }

    /// The frame of the main view.
    pub fn snapshot(&self) -> (r: FrameSnapshot<'_>)
        ensures
            r.pixels@ == self@.view_frame.pixels,
            r.width == self@.view_frame.width,
            r.height == self@.view_frame.height,
            r.generation == self@.view_frame.generation,
    {
        self.view_frame.snapshot()
    }

    /// The frame of the popup overlay.
    pub fn popup_snapshot(&self) -> (r: FrameSnapshot<'_>)
        ensures
            r.pixels@ == self@.popup_frame.pixels,
            r.width == self@.popup_frame.width,
            r.height == self@.popup_frame.height,
            r.generation == self@.popup_frame.generation,
    {
        self.popup_frame.snapshot()
    }

    /// Whether the last published view frame differs in size from the view
    /// geometry that was current when it arrived.
    pub fn geometry_mismatch(&self) -> (r: bool)
        ensures
            r == self@.geometry_mismatch,
    {
        self.geometry_mismatch
    }

    /// The auxiliary renderer state.
    pub fn render_state(&self) -> (r: &AuxiliaryRenderState)
        ensures
            *r == self@.render,
    {
        &self.render
    }
}

} // verus!
