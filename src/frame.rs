use vstd::prelude::*;

verus! {

/// Bytes per pixel of every frame (BGRA, tightly packed).
pub const BYTES_PER_PIXEL: usize = 4;

/// The byte length of a tightly packed frame of the given size.
pub open spec fn frame_len(width: u32, height: u32) -> int {
    width as int * height as int * BYTES_PER_PIXEL as int
}

/// Why a frame was not published.
#[derive(Clone, Copy, Debug, PartialEq, Eq, Structural)]
pub enum PublishError {
    /// The buffer's length is not `width * height * 4`.
    LengthMismatch,
    /// The generation counter cannot grow any further.
    GenerationExhausted,
}

/// What a reader of a frame buffer sees.
pub struct FrameState {
    pub pixels: Seq<u8>,
    pub width: u32,
    pub height: u32,
    pub generation: u64,
}

/// The latest complete frame, with its size and a generation counter that
/// grows by one with each published frame. Generation zero is the empty frame
/// that precedes the first paint.
pub struct FrameBuffer {
    pixels: Vec<u8>,
    width: u32,
    height: u32,
    generation: u64,
}

/// A read-only view of the published frame.
pub struct FrameSnapshot<'a> {
    pub pixels: &'a [u8],
    pub width: u32,
    pub height: u32,
    pub generation: u64,
}

impl View for FrameBuffer {
    type V = FrameState;

    closed spec fn view(&self) -> FrameState {
        FrameState {
            pixels: self.pixels@,
            width: self.width,
            height: self.height,
            generation: self.generation,
        }
    }
}

/// Whether `publish` accepts a buffer of `len` bytes for a frame of the given
/// size on top of `prev`.
pub open spec fn accepts(prev: FrameState, len: int, width: u32, height: u32) -> bool {
    len == frame_len(width, height) && prev.generation < u64::MAX
}

/// The outcome of `publish` as a function of the state before and its inputs.
pub open spec fn published(prev: FrameState, pixels: Seq<u8>, width: u32, height: u32) -> FrameState {
    if accepts(prev, pixels.len() as int, width, height) {
        FrameState { pixels, width, height, generation: (prev.generation + 1) as u64 }
    } else {
        prev
    }
}

fn copy_bytes(src: &[u8]) -> (r: Vec<u8>)
    ensures
        r@ == src@,
{
    let mut out: Vec<u8> = Vec::with_capacity(src.len());
    let mut i: usize = 0;
    while i < src.len()
        invariant
            i <= src@.len(),
            out@ == src@.subrange(0, i as int),
        decreases src@.len() - i,
    {
        out.push(src[i]);
        i = i + 1;
        assert(out@ =~= src@.subrange(0, i as int));
    }
    assert(out@ =~= src@);
    out
}

fn matches_size(len: usize, width: u32, height: u32) -> (r: bool)
    ensures
        r == (len as int == frame_len(width, height)),
{
    let w = width as u128;
    let h = height as u128;
    assert(w * h * 4 <= 0xffff_ffffu128 * 0xffff_ffffu128 * 4) by (nonlinear_arith)
        requires
            w <= 0xffff_ffff,
            h <= 0xffff_ffff,
    ;
    len as u128 == w * h * (BYTES_PER_PIXEL as u128)
}

impl FrameBuffer {
    /// The pixel count agrees with the reported size.
    pub open spec fn wf(&self) -> bool {
        self@.pixels.len() == frame_len(self@.width, self@.height)
    }

    /// An empty buffer: no pixels, size zero, generation zero.
    pub fn new() -> (r: Self)
        ensures
            r.wf(),
            r@.pixels == Seq::<u8>::empty(),
            r@.width == 0,
            r@.height == 0,
            r@.generation == 0,
    {
        FrameBuffer { pixels: Vec::new(), width: 0, height: 0, generation: 0 }
    }

    /// Replaces the visible frame with a copy of `pixels` and returns the new
    /// generation. A buffer whose length is not `width * height * 4` is refused
    /// and leaves the previous frame and generation as they were.
    pub fn publish(&mut self, pixels: &[u8], width: u32, height: u32) -> (r: Result<u64, PublishError>)
        requires
            old(self).wf(),
        ensures
            final(self).wf(),
            final(self)@ == published(old(self)@, pixels@, width, height),
            r is Ok <==> accepts(old(self)@, pixels@.len() as int, width, height),
            r matches Ok(g) ==> g == old(self)@.generation + 1,
            r matches Err(e) ==> (e == PublishError::LengthMismatch <==> pixels@.len()
                != frame_len(width, height)),
    {
        if !matches_size(pixels.len(), width, height) {
            return Err(PublishError::LengthMismatch);
        }
        if self.generation == u64::MAX {
            return Err(PublishError::GenerationExhausted);
        }
        let copy = copy_bytes(pixels);
        self.pixels = copy;
        self.width = width;
        self.height = height;
        self.generation = self.generation + 1;
        Ok(self.generation)
    }

    /// The published frame, borrowed until the buffer is next changed.
    pub fn snapshot(&self) -> (r: FrameSnapshot<'_>)
        ensures
            r.pixels@ == self@.pixels,
            r.width == self@.width,
            r.height == self@.height,
            r.generation == self@.generation,
    {
        FrameSnapshot {
            pixels: self.pixels.as_slice(),
            width: self.width,
            height: self.height,
            generation: self.generation,
        }
    }

    /// The generation of the published frame.
    pub fn generation(&self) -> (r: u64)
        ensures
            r == self@.generation,
    {
        self.generation
    }

    /// Whether a frame has been published yet.
    pub fn has_frame(&self) -> (r: bool)
        ensures
            r == (self@.generation > 0),
    {
        self.generation > 0
    }
}

/// The frame state after a sequence of `publish` calls, each given as its
/// pixels, width and height.
pub open spec fn publish_all(s: FrameState, calls: Seq<(Seq<u8>, u32, u32)>) -> FrameState
    decreases calls.len(),
{
    if calls.len() == 0 {
        s
    } else {
        let c = calls.last();
        published(publish_all(s, calls.drop_last()), c.0, c.1, c.2)
    }
}

/// A buffer of exactly `width * height * 4` bytes, published on a frame
/// whose generation can still grow, becomes the visible frame with exactly
/// that length and size.
pub proof fn lemma_publish_exact(prev: FrameState, pixels: Seq<u8>, width: u32, height: u32)
    requires
        pixels.len() == frame_len(width, height),
        prev.generation < u64::MAX,
    ensures
        published(prev, pixels, width, height).pixels == pixels,
        published(prev, pixels, width, height).pixels.len() == frame_len(width, height),
        published(prev, pixels, width, height).width == width,
        published(prev, pixels, width, height).height == height,
{
}

/// A buffer whose length is not `width * height * 4` leaves the previous
/// frame and its generation unchanged.
pub proof fn lemma_malformed_keeps_frame(prev: FrameState, pixels: Seq<u8>, width: u32, height: u32)
    requires
        pixels.len() != frame_len(width, height),
    ensures
        published(prev, pixels, width, height) == prev,
        published(prev, pixels, width, height).generation == prev.generation,
{
}

/// Over any sequence of `publish` calls the generation never decreases, and
/// each call that completes raises it by exactly one.
pub proof fn lemma_generation_monotonic(s: FrameState, calls: Seq<(Seq<u8>, u32, u32)>, i: int, j: int)
    requires
        0 <= i <= j <= calls.len(),
    ensures
        publish_all(s, calls.take(i)).generation <= publish_all(s, calls.take(j)).generation,
        j < calls.len() && accepts(
            publish_all(s, calls.take(j)),
            calls[j].0.len() as int,
            calls[j].1,
            calls[j].2,
        ) ==> publish_all(s, calls.take(j + 1)).generation == publish_all(s, calls.take(j)).generation + 1,
    decreases j - i,
{
    if j < calls.len() {
        assert(calls.take(j + 1).drop_last() =~= calls.take(j));
        assert(calls.take(j + 1).last() == calls[j]);
    }
    if i < j {
        lemma_generation_monotonic(s, calls, i, j - 1);
        assert(calls.take(j).drop_last() =~= calls.take(j - 1));
        assert(calls.take(j).last() == calls[j - 1]);
    }
}

} // verus!
