use vstd::prelude::*;

verus! {

/// Width used for the view before the UI reports its own size.
pub const DEFAULT_VIEW_WIDTH: u32 = 1024;

/// Height used for the view before the UI reports its own size.
pub const DEFAULT_VIEW_HEIGHT: u32 = 768;

/// Colour depth reported to the engine, in bits per pixel.
pub const SCREEN_DEPTH: u32 = 32;

/// Bits per colour component reported to the engine.
pub const SCREEN_DEPTH_PER_COMPONENT: u32 = 8;

/// A point in view coordinates.
#[derive(Clone, Copy, Debug, PartialEq, Eq, Structural)]
pub struct Point {
    pub x: i32,
    pub y: i32,
}

/// A width and height, as the engine exchanges them.
#[derive(Clone, Copy, Debug, PartialEq, Eq, Structural)]
pub struct Size {
    pub width: i32,
    pub height: i32,
}

/// An axis-aligned rectangle in view coordinates.
#[derive(Clone, Copy, Debug, PartialEq, Eq, Structural)]
pub struct Rect {
    pub x: i32,
    pub y: i32,
    pub width: i32,
    pub height: i32,
}

/// What the engine learns of the screen that backs the view. The device
/// scale factor is always one and is left to whoever hands the value on.
#[derive(Clone, Copy, Debug, PartialEq, Eq, Structural)]
pub struct ScreenInfo {
    pub depth: u32,
    pub depth_per_component: u32,
    pub is_monochrome: bool,
    pub rect: Rect,
    pub available_rect: Rect,
}

/// The logical size of the rendering surface. Both sides stay positive.
#[derive(Clone, Copy, Debug)]
pub struct ViewGeometry {
    width: u32,
    height: u32,
}

impl View for ViewGeometry {
    type V = (u32, u32);

    closed spec fn view(&self) -> (u32, u32) {
        (self.width, self.height)
    }
}

/// The rectangle of a view of the given size, anchored at the origin. A side
/// that does not fit an `i32` is reported as `i32::MAX`.
pub open spec fn rect_of(size: (u32, u32)) -> Rect {
    Rect {
        x: 0,
        y: 0,
        width: side_of(size.0),
        height: side_of(size.1),
    }
}

/// A side length as the engine's signed coordinates hold it.
pub open spec fn side_of(v: u32) -> i32 {
    if v <= i32::MAX as u32 {
        v as i32
    } else {
        i32::MAX
    }
}

/// The screen descriptor of a view of the given size.
pub open spec fn screen_info_of(size: (u32, u32)) -> ScreenInfo {
    ScreenInfo {
        depth: SCREEN_DEPTH,
        depth_per_component: SCREEN_DEPTH_PER_COMPONENT,
        is_monochrome: false,
        rect: rect_of(size),
        available_rect: rect_of(size),
    }
}

/// What `resize` makes of a geometry: the new size when both sides are
/// positive, the previous one otherwise.
pub open spec fn resized(prev: (u32, u32), width: u32, height: u32) -> (u32, u32) {
    if width > 0 && height > 0 {
        (width, height)
    } else {
        prev
    }
}

fn side(v: u32) -> (r: i32)
    ensures
        r == side_of(v),
{
    if v <= i32::MAX as u32 {
        v as i32
    } else {
        i32::MAX
    }
}

impl ViewGeometry {
    /// Both sides are positive.
    pub open spec fn wf(&self) -> bool {
        self@.0 > 0 && self@.1 > 0
    }

    /// The geometry a view starts with.
    pub fn new() -> (r: Self)
        ensures
            r.wf(),
            r@ == (DEFAULT_VIEW_WIDTH, DEFAULT_VIEW_HEIGHT),
    {
        ViewGeometry { width: DEFAULT_VIEW_WIDTH, height: DEFAULT_VIEW_HEIGHT }
    }

    /// A geometry of the given size, or `None` when a side is zero.
    pub fn with_size(width: u32, height: u32) -> (r: Option<Self>)
        ensures
            r is Some <==> (width > 0 && height > 0),
            r matches Some(g) ==> g.wf() && g@ == (width, height),
    {
        if width > 0 && height > 0 {
            Some(ViewGeometry { width, height })
        } else {
            None
        }
    }

    /// Takes the size that the UI now shows. A degenerate size is not passed
    /// on: the previous size is kept instead.
    pub fn resize(&mut self, width: u32, height: u32)
        requires
            old(self).wf(),
        ensures
            final(self).wf(),
            final(self)@ == resized(old(self)@, width, height),
    {
        if width > 0 && height > 0 {
            self.width = width;
            self.height = height;
        }
    }

    /// The current size, as `(width, height)`.
    pub fn current(&self) -> (r: (u32, u32))
        ensures
            r == self@,
    {
        (self.width, self.height)
    }

    /// The authoritative view rectangle that the engine asks for.
    pub fn view_rect(&self) -> (r: Rect)
        ensures
            r == rect_of(self@),
    {
        Rect { x: 0, y: 0, width: side(self.width), height: side(self.height) }
    }

    /// The screen descriptor derived from the current view rectangle.
    pub fn screen_info(&self) -> (r: ScreenInfo)
        ensures
            r == screen_info_of(self@),
    {
        let rect = self.view_rect();
        ScreenInfo {
            depth: SCREEN_DEPTH,
            depth_per_component: SCREEN_DEPTH_PER_COMPONENT,
            is_monochrome: false,
            rect,
            available_rect: rect,
        }
    }
}

/// Resizing to a positive size and then asking for the current size gives
/// back exactly that size.
pub proof fn lemma_resize_then_current(g: ViewGeometry, width: u32, height: u32)
    requires
        g.wf(),
        width > 0,
        height > 0,
    ensures
        resized(g@, width, height) == (width, height),
{
}

} // verus!
