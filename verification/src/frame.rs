//! A decoded, display-ready video frame: tightly packed pixel bytes in a
//! fixed four-byte-per-pixel format, the stream timestamp the decoder gave
//! it, and, once the synchronization anchor is known, the wall instant at
//! which it is due on screen.

use vstd::prelude::*;

verus! {

/// Bytes per pixel of the fixed display format.
pub const BYTES_PER_PIXEL: u64 = 4;

/// One converted picture, owned by whichever queue currently holds it.
pub struct VideoFrame {
    pub width: u32,
    pub height: u32,
    pub pixels: Vec<u8>,
    /// Stream timestamp in decoder time-base units, if the decoder knew it.
    pub pts: Option<i64>,
    /// Wall instant (microseconds) this frame is due, if computable when it
    /// was converted.
    pub present: Option<i64>,
}

impl VideoFrame {
    /// A frame's pixel buffer holds exactly its width times height pixels.
    pub open spec fn wf(self) -> bool {
        self.pixels@.len() == (BYTES_PER_PIXEL as int) * (self.width as int) * (self.height as int)
    }

    /// Wraps a converted pixel buffer. The buffer must be exactly the packed
    /// size of the picture.
    pub fn new(
        width: u32,
        height: u32,
        pixels: Vec<u8>,
        pts: Option<i64>,
        present: Option<i64>,
    ) -> (r: VideoFrame)
        requires
            pixels@.len() == (BYTES_PER_PIXEL as int) * (width as int) * (height as int),
        ensures
            r.wf(),
            r == (VideoFrame { width, height, pixels, pts, present }),
    {
        VideoFrame { width, height, pixels, pts, present }
    }

    pub fn width(&self) -> (r: u32)
        ensures
            r == self.width,
    {
        self.width
    }

    pub fn height(&self) -> (r: u32)
        ensures
            r == self.height,
    {
        self.height
    }

    /// Zero-copy view of the packed pixel bytes, for the display layer.
    pub fn as_bytes(&self) -> (r: &[u8])
        ensures
            r@ == self.pixels@,
    {
        self.pixels.as_slice()
    }
}

} // verus!
