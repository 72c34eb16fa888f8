//! The single slot through which decoded frames reach the renderer. The
//! latest frame wins: a frame that is not fetched before the next one
//! arrives is dropped, by design. Nothing is queued.

use vstd::prelude::*;

verus! {

/// A frame buffer as plain values.
pub struct FrameBufferView {
    /// The raw pixel bytes of the latest frame.
    pub bytes: Seq<u8>,
    /// Whether that frame has not been fetched yet.
    pub dirty: bool,
}

impl FrameBufferView {
    /// The buffer after the decoder has offered `frame`: a frame of the
    /// buffer's size takes the place of the bytes and is marked as new; any
    /// other is turned away.
    pub open spec fn written(self, frame: Seq<u8>) -> FrameBufferView {
        if frame.len() == self.bytes.len() {
            FrameBufferView { bytes: frame, dirty: true }
        } else {
            self
        }
    }

    /// What the renderer gets at its next tick: the frame, where one has
    /// arrived since it last fetched.
    pub open spec fn fetched(self) -> Option<Seq<u8>> {
        if self.dirty {
            Some(self.bytes)
        } else {
            None
        }
    }

    /// The buffer after the renderer's tick.
    pub open spec fn after_fetch(self) -> FrameBufferView {
        FrameBufferView { bytes: self.bytes, dirty: false }
    }
}

/// The number of bytes of an RGB frame of `width` by `height` pixels.
pub open spec fn frame_len(width: u32, height: u32) -> nat {
    (width * height * 3) as nat
}

/// The renderer gets each frame whole: after a write it fetches exactly the
/// bytes that were written, whatever the buffer held before.
pub proof fn lemma_fetch_after_write(buffer: FrameBufferView, frame: Seq<u8>)
    requires
        frame.len() == buffer.bytes.len(),
    ensures
        buffer.written(frame).fetched() == Some(frame),
{
}

/// The latest frame wins: of two frames written between two ticks the
/// renderer gets the second, and no byte of the first.
pub proof fn lemma_latest_frame_wins(buffer: FrameBufferView, first: Seq<u8>, second: Seq<u8>)
    requires
        first.len() == buffer.bytes.len(),
        second.len() == buffer.bytes.len(),
    ensures
        buffer.written(first).written(second).fetched() == Some(second),
{
}

/// A frame is fetched at most once: after a tick the next tick gets
/// nothing until the decoder writes again.
pub proof fn lemma_frame_fetched_once(buffer: FrameBufferView)
    ensures
        buffer.after_fetch().fetched() is None,
        buffer.after_fetch().after_fetch() == buffer.after_fetch(),
{
}

/// The size of the frames never changes, whatever is written or fetched.
pub proof fn lemma_frame_size_is_fixed(buffer: FrameBufferView, frame: Seq<u8>)
    ensures
        buffer.written(frame).bytes.len() == buffer.bytes.len(),
        buffer.after_fetch().bytes.len() == buffer.bytes.len(),
{
}

/// The number of bytes of an RGB frame, where a buffer can hold that many.
pub fn frame_size(width: u32, height: u32) -> (size: Option<usize>)
    ensures
        match size {
            Some(n) => n == frame_len(width, height),
            None => frame_len(width, height) > usize::MAX,
        },
{
    assert(width * height <= 0xffff_ffff * 0xffff_ffff) by (nonlinear_arith)
        requires
            width <= 0xffff_ffff,
            height <= 0xffff_ffff,
    ;
    let pixels: u128 = width as u128 * height as u128;
    let bytes: u128 = pixels * 3;
    if bytes > usize::MAX as u128 {
        None
    } else {
        Some(bytes as usize)
    }
}

/// The slot that holds the most recently decoded frame.
#[derive(Debug)]
pub struct FrameBuffer {
    bytes: Vec<u8>,
    dirty: bool,
}

impl View for FrameBuffer {
    type V = FrameBufferView;

    closed spec fn view(&self) -> FrameBufferView {
        FrameBufferView { bytes: self.bytes@, dirty: self.dirty }
    }
}

impl FrameBuffer {
    /// A buffer for frames of `len` bytes. It holds a black frame, which is
    /// not marked as new.
    pub fn new(len: usize) -> (buffer: FrameBuffer)
        ensures
            buffer@.bytes == Seq::new(len as nat, |i: int| 0u8),
            !buffer@.dirty,
    {
        let bytes = vec![0u8; len];
        assert(bytes@ =~= Seq::new(len as nat, |i: int| 0u8));
        FrameBuffer { bytes, dirty: false }
    }

    /// The size of the frames in bytes.
    pub fn len(&self) -> (n: usize)
        ensures
            n == self@.bytes.len(),
    {
        self.bytes.len()
    }

    /// Whether a frame has arrived that the renderer has not fetched.
    pub fn is_dirty(&self) -> (dirty: bool)
        ensures
            dirty == self@.dirty,
    {
        self.dirty
    }

    /// The decoder's side: copies `frame` into the slot and then marks it as
    /// new. A frame of another size is turned away and the slot stays as it
    /// is. Says whether the frame was taken.
    pub fn write(&mut self, frame: &[u8]) -> (taken: bool)
        ensures
            taken == (frame@.len() == old(self)@.bytes.len()),
            final(self)@ == old(self)@.written(frame@),
    {
        let n = self.bytes.len();
        if frame.len() != n {
            return false;
        }
        let mut i: usize = 0;
        while i < n
            invariant
                n == frame@.len(),
                self.bytes@.len() == n,
                self.dirty == old(self).dirty,
                i <= n,
                forall|k: int| 0 <= k < i ==> self.bytes@[k] == frame@[k],
            decreases n - i,
        {
            self.bytes.set(i, frame[i]);
            i = i + 1;
        }
        assert(self.bytes@ =~= frame@);
        self.dirty = true;
        true
    }

    /// The renderer's side, once per tick: where a frame has arrived since
    /// the last fetch, clears the mark and copies the frame into `surface`.
    /// Otherwise nothing changes. Says whether `surface` got a frame.
    pub fn fetch(&mut self, surface: &mut Vec<u8>) -> (fresh: bool)
        ensures
            fresh == old(self)@.dirty,
            match old(self)@.fetched() {
                Some(frame) => final(surface)@ == frame,
                None => final(surface)@ == old(surface)@,
            },
            final(self)@ == old(self)@.after_fetch(),
    {
        if !self.dirty {
            return false;
        }
        self.dirty = false;
        surface.clear();
        surface.extend_from_slice(self.bytes.as_slice());
        assert(surface@ =~= self.bytes@);
        true
    }
}

} // verus!
