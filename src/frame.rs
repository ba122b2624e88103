//! The values that flow down a frame handler chain, and the chain's protocol.

use vstd::prelude::*;

verus! {

/// Bytes per RGBA8 pixel.
pub const BYTES_PER_PIXEL: usize = 4;

/// Declared once per render, before any frame.
#[derive(Debug, Clone, Copy, PartialEq, Eq)]
pub struct RenderMetadata {
    pub frame_count: u32,
    /// Seconds between frames, in microseconds.
    pub frame_delay_us: u64,
    pub frame_width: usize,
    pub frame_height: usize,
}

/// One rendered image: RGBA8, row-major.
#[derive(Debug, Clone)]
pub struct Frame {
    pub frame_number: u32,
    pub pixel_data: Vec<u8>,
    pub width: u32,
    pub height: u32,
    /// Time elapsed since the start of the render, in microseconds.
    pub timestamp_us: u64,
}

/// A frame whose pixel buffer holds exactly `width * height` RGBA8 pixels.
pub open spec fn frame_wf(f: Frame) -> bool {
    f.pixel_data@.len() == f.width as int * f.height as int * 4
}

impl Frame {
    /// Whether the pixel buffer's length matches the frame's dimensions.
    pub fn is_well_formed(&self) -> (r: bool)
        ensures
            r == frame_wf(*self),
    {
        let w = self.width as u64;
        let h = self.height as u64;
        proof {
            assert(w * h <= u32::MAX as u64 * u32::MAX as u64) by (nonlinear_arith)
                requires w <= u32::MAX, h <= u32::MAX;
        }
        let area = w * h;
        let len = self.pixel_data.len();
        if area > (usize::MAX / 4) as u64 {
            assert(area as int * 4 > usize::MAX);
            false
        } else {
            len == (area as usize) * BYTES_PER_PIXEL
        }
    }
}

/// How a frame handler reports that a frame was not delivered.
#[derive(Debug, Clone, Copy, PartialEq, Eq)]
pub enum HandleFrameError {
    /// This frame was lost; later frames may still get through.
    TemporaryError,
    /// The chain is unusable; the producer must stop.
    PermanentError,
}

/// How a per-frame callback reports failure: the same two outcomes as a
/// frame handler's.
pub type FrameCallbackError = HandleFrameError;

/// Why a render produced no frames at all.
#[derive(Debug, Clone, PartialEq, Eq)]
pub enum RenderError {
    SkinNotFound(String),
    AnimationNotFound(String),
    NothingRendered,
    TextureFailed,
}

/// Why an actor could not be loaded.
#[derive(Debug, Clone, PartialEq, Eq)]
pub enum LoadError {
    SkeletonLoadError(String),
    AtlasLoadError(String),
}

/// One stage of the frame handler chain.
///
/// `set_metadata` is called exactly once, before any `handle_frame`;
/// `handle_frame` is called once per frame, in increasing `frame_number`
/// order; `finish` is called once, after the last frame, and tears the stage
/// down (buffering stages replay what they hold at that point).
pub trait FrameHandler {
    fn set_metadata(&mut self, metadata: RenderMetadata);

    fn handle_frame(&mut self, frame: Frame) -> Result<(), HandleFrameError>;

    fn finish(&mut self);
}

} // verus!
