use vstd::prelude::*;
use crate::geometry::{Point, Rect};

verus! {

/// A range of character offsets, `from` inclusive and `to` exclusive.
#[derive(Clone, Copy, Debug, PartialEq, Eq, Structural)]
pub struct TextRange {
    pub from: u32,
    pub to: u32,
}

/// Where a touch selection handle is drawn.
#[derive(Clone, Copy, Debug, PartialEq, Eq, Structural)]
pub struct TouchHandle {
    pub id: i32,
    pub enabled: bool,
    pub origin: Point,
}

/// Renderer-driven state beside the frame: each field is its own cell, the
/// last write wins, and no field depends on another.
#[derive(Debug)]
pub struct AuxiliaryRenderState {
    /// Whether the engine shows a popup overlay.
    pub popup_visible: bool,
    /// Where the popup overlay is drawn over the view.
    pub popup_rect: Rect,
    /// The operations the engine last offered for a native drag.
    pub drag_allowed_ops: u32,
    /// The drag operation the cursor currently shows; zero when none.
    pub drag_operation: u32,
    /// The selected text, when the engine reported it.
    pub selected_text: Option<String>,
    /// The selected character range.
    pub selection: TextRange,
    /// The range of the IME composition.
    pub ime_range: TextRange,
    /// The bounds of each character of the IME composition.
    pub ime_character_bounds: Vec<Rect>,
    /// The touch selection handle last reported.
    pub touch_handle: Option<TouchHandle>,
}

impl AuxiliaryRenderState {
    /// No popup, no drag, no selection, no composition, no touch handle.
    pub fn new() -> (r: Self)
        ensures
            !r.popup_visible,
            r.popup_rect == (Rect { x: 0, y: 0, width: 0, height: 0 }),
            r.drag_allowed_ops == 0,
            r.drag_operation == 0,
            r.selected_text is None,
            r.selection == (TextRange { from: 0, to: 0 }),
            r.ime_range == (TextRange { from: 0, to: 0 }),
            r.ime_character_bounds@ == Seq::<Rect>::empty(),
            r.touch_handle is None,
    {
        AuxiliaryRenderState {
            popup_visible: false,
            popup_rect: Rect { x: 0, y: 0, width: 0, height: 0 },
            drag_allowed_ops: 0,
            drag_operation: 0,
            selected_text: None,
            selection: TextRange { from: 0, to: 0 },
            ime_range: TextRange { from: 0, to: 0 },
            ime_character_bounds: Vec::new(),
            touch_handle: None,
        }
    }

    /// Whether a drag operation is in progress.
    pub fn drag_active(&self) -> (r: bool)
        ensures
            r == (self.drag_operation != 0),
    {
        self.drag_operation != 0
    }
}

/// A copy of a list of rectangles.
pub(crate) fn copy_rects(src: &[Rect]) -> (r: Vec<Rect>)
    ensures
        r@ == src@,
{
    let mut out: Vec<Rect> = Vec::with_capacity(src.len());
    let mut i: usize = 0;
    while i < src.len()
        invariant
            i <= src@.len(),
            out@ == src@.subrange(0, i as int),
        decreases src@.len() - i,
    {
        out.push(src[i]);
        i = i + 1;
        assert(out@ =~= src@.subrange(0, i as int));
    }
    assert(out@ =~= src@);
    out
}

} // verus!
