//! Decoded frames and the slot through which the newest one reaches the window.

use vstd::prelude::*;

verus! {

/// A decoded picture: `width` by `height` pixels, row by row, each `0x00RRGGBB`.
#[derive(Debug, PartialEq, Eq)]
pub struct DecodedFrame {
    pub width: usize,
    pub height: usize,
    pub buf: Vec<u32>,
}

impl DecodedFrame {
    /// The picture has at least one pixel and the buffer holds all of them.
    pub open spec fn wf(self) -> bool {
        &&& self.width > 0
        &&& self.height > 0
        &&& self.width * self.height <= self.buf@.len()
    }

    /// The pixel in column `x` of row `y`.
    pub open spec fn pixel(self, x: int, y: int) -> u32 {
        self.buf@[y * self.width + x]
    }

    /// The shape of the picture: width, then height.
    pub open spec fn dims(self) -> (usize, usize) {
        (self.width, self.height)
    }
}

/// Where the network side drops the most recent decoded frame. It holds one frame
/// at most, so a backlog collapses to the newest one.
#[derive(Debug, PartialEq, Eq)]
pub struct FrameSlot {
    latest: Option<DecodedFrame>,
}

impl View for FrameSlot {
    type V = Option<DecodedFrame>;

    closed spec fn view(&self) -> Option<DecodedFrame> {
        self.latest
    }
}

/// A slot with no frame in it.
pub fn new_frame_slot() -> (slot: FrameSlot)
    ensures
        slot@ is None,
{
    FrameSlot { latest: None }
}

impl FrameSlot {
    /// Drop a frame into the slot. A frame that was still waiting there is lost.
    pub fn put(&mut self, frame: DecodedFrame)
        ensures
            final(self)@ == Some(frame),
    {
        self.latest = Some(frame);
    }

    /// Take the waiting frame, if there is one, and leave the slot empty.
    pub fn take(&mut self) -> (frame: Option<DecodedFrame>)
        ensures
            frame == old(self)@,
            final(self)@ is None,
    {
        self.latest.take()
    }
}

/// A frame is stored row by row, `width` pixels to a row, and is whole if it has a pixel
/// and its buffer holds them all.
pub proof fn law_frames_are_row_by_row(frame: DecodedFrame, x: int, y: int)
    ensures
        frame.pixel(x, y) == frame.buf@[y * frame.width + x],
        frame.dims() == (frame.width, frame.height),
        frame.wf() <==> 0 < frame.width && 0 < frame.height && frame.width * frame.height
            <= frame.buf@.len(),
{
}

} // verus!
