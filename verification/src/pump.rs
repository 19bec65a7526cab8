//! The frame pump's per-tick work, minus the native colorspace call: check
//! the stop signal first (so a fired signal is observed within one cycle),
//! resize the working buffers when the source dimensions changed, and copy
//! the source pixels into the framebuffer handed to the encoder.

use vstd::prelude::*;

use crate::frame::RgbaFrame;
use crate::frame::rgba_wf;

verus! {

/// Default width of the outgoing video, in pixels.
pub const FB_WIDTH: u32 = 512;

/// Default height of the outgoing video, in pixels.
pub const FB_HEIGHT: u32 = 256;

/// Milliseconds between frames at the fixed cadence of 15 frames a second.
pub const FRAME_INTERVAL_MS: u64 = 1000 / 15;

/// The pump's working state: current dimensions and the RGBA framebuffer
/// that each tick fills for the encoder.
pub struct FrameBuffers {
    pub width: u32,
    pub height: u32,
    pub framebuffer: Vec<u8>,
}

/// The framebuffer always holds exactly width * height * 4 bytes.
pub open spec fn buffers_wf(b: FrameBuffers) -> bool {
    b.framebuffer@.len() == b.width as int * b.height as int * 4
}

/// What one tick of the pump did.
#[derive(Clone, Copy, PartialEq, Eq, Structural, Debug)]
pub enum PumpTick {
    /// The stop signal was observed; the loop exits.
    Stopped,
    /// A frame of the given dimensions was produced in the framebuffer.
    Produced { width: u32, height: u32 },
}

impl FrameBuffers {
    /// Fresh working buffers at the default resolution, zero-filled.
    pub fn at_default_resolution() -> (b: FrameBuffers)
        ensures
            buffers_wf(b),
            b.width == FB_WIDTH,
            b.height == FB_HEIGHT,
    {
        let w: usize = FB_WIDTH as usize;
        let h: usize = FB_HEIGHT as usize;
        let n: usize = w * h * 4;
        let framebuffer: Vec<u8> = vec![0u8; n];
        FrameBuffers { width: FB_WIDTH, height: FB_HEIGHT, framebuffer }
    }

    /// Match the buffers to the source dimensions, reallocating only when
    /// they changed (the source image may be swapped at run time).
    pub fn ensure_dims(&mut self, width: u32, height: u32)
        requires
            buffers_wf(*old(self)),
            width as int * height as int * 4 <= usize::MAX,
        ensures
            buffers_wf(*final(self)),
            final(self).width == width,
            final(self).height == height,
            old(self).width == width && old(self).height == height ==> *final(self) == *old(
                self,
            ),
    {
        if self.width != width || self.height != height {
            let w: usize = width as usize;
            let h: usize = height as usize;
            let n: usize = w * h * 4;
            self.framebuffer.resize(n, 0u8);
            self.width = width;
            self.height = height;
        }
    }

    /// Copy the source pixels into the framebuffer, byte for byte.
    pub fn fill_from(&mut self, img: &RgbaFrame)
        requires
            buffers_wf(*old(self)),
            rgba_wf(*img),
            old(self).width == img.width,
            old(self).height == img.height,
        ensures
            buffers_wf(*final(self)),
            final(self).width == old(self).width,
            final(self).height == old(self).height,
            final(self).framebuffer@ == img.data@,
    {
        let n: usize = self.framebuffer.len();
        let mut i: usize = 0;
        while i < n
            invariant
                buffers_wf(*self),
                rgba_wf(*img),
                self.width == img.width,
                self.height == img.height,
                self.framebuffer@.len() == n,
                i <= n,
                forall|k: int| 0 <= k < i ==> self.framebuffer@[k] == img.data@[k],
            decreases n - i,
        {
            let b: u8 = img.data[i];
            self.framebuffer[i] = b;
            i = i + 1;
        }
        assert(self.framebuffer@ =~= img.data@);
    }
}

/// What one pump cycle decides, as a function of the stop signal and the
/// source image alone: a fired signal stops the pump on this very cycle;
/// otherwise a frame at the source's dimensions is produced.
pub open spec fn tick_outcome(stop_fired: bool, img: RgbaFrame) -> PumpTick {
    if stop_fired {
        PumpTick::Stopped
    } else {
        PumpTick::Produced { width: img.width, height: img.height }
    }
}

/// One cycle of the frame pump: the stop signal is checked before any work,
/// so a fired signal makes this very tick the last one; otherwise the
/// buffers are resized to the source dimensions if needed and filled with
/// the source pixels, and a frame descriptor is produced for the encoder.
pub fn pump_tick(stop_fired: bool, bufs: &mut FrameBuffers, img: &RgbaFrame) -> (t: PumpTick)
    requires
        buffers_wf(*old(bufs)),
        rgba_wf(*img),
    ensures
        buffers_wf(*final(bufs)),
        t == tick_outcome(stop_fired, *img),
        stop_fired ==> t is Stopped && *final(bufs) == *old(bufs),
        !stop_fired ==> {
            &&& t == (PumpTick::Produced { width: img.width, height: img.height })
            &&& final(bufs).width == img.width
            &&& final(bufs).height == img.height
            &&& final(bufs).framebuffer@ == img.data@
        },
{
    if stop_fired {
        return PumpTick::Stopped;
    }
    bufs.ensure_dims(img.width, img.height);
    bufs.fill_from(img);
    PumpTick::Produced { width: img.width, height: img.height }
}

} // verus!
