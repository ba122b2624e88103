//! The resize stage: rescales every frame to a fixed size with a Lanczos3
//! filter, resampling alpha-premultiplied pixels so that transparent edges
//! do not bleed colour.

use vstd::prelude::*;
use crate::frame::{frame_wf, Frame, FrameHandler, HandleFrameError, RenderMetadata};

verus! {

/// The pixels of a `width` x `height` RGBA8 image with each colour channel
/// multiplied by the pixel's alpha.
pub uninterp spec fn alpha_multiplied(width: nat, height: nat, pixels: Seq<u8>) -> Seq<u8>;

/// A `width` x `height` RGBA8 image resampled to `to_width` x `to_height`
/// with a Lanczos3 convolution.
pub uninterp spec fn lanczos3_resized(
    width: nat,
    height: nat,
    pixels: Seq<u8>,
    to_width: nat,
    to_height: nat,
) -> Seq<u8>;

/// The pixels of a premultiplied `width` x `height` RGBA8 image with each
/// colour channel divided by the pixel's alpha again.
pub uninterp spec fn alpha_divided(width: nat, height: nat, pixels: Seq<u8>) -> Seq<u8>;

/// Relies on fast_image_resize's `Image::from_vec_u8`, which takes the buffer
/// as it is or refuses one shorter than `width * height` pixels (or not
/// aligned to whole pixels), and `MulDiv::multiply_alpha_inplace`, which
/// premultiplies a U8x4 image in place.
#[verifier::external_body]
fn multiply_alpha(width: u32, height: u32, pixels: Vec<u8>) -> (r: Option<Vec<u8>>)
    requires
        width > 0,
        height > 0,
        width * height <= u32::MAX,
    ensures
        pixels@.len() < width * height * 4 ==> r is None,
        r is Some ==> r->0@ == alpha_multiplied(width as nat, height as nat, pixels@),
        r is Some ==> r->0@.len() == pixels@.len(),
{
    let w = std::num::NonZeroU32::new(width)?;
    let h = std::num::NonZeroU32::new(height)?;
    let mut img = fast_image_resize::Image::from_vec_u8(w, h, pixels, fast_image_resize::PixelType::U8x4).ok()?;
    fast_image_resize::MulDiv::default().multiply_alpha_inplace(&mut img.view_mut()).ok()?;
    Some(img.into_vec())
}

/// Relies on fast_image_resize's `MulDiv::divide_alpha_inplace`, which
/// un-premultiplies a U8x4 image in place (the buffer goes in and out
/// through `Image::from_vec_u8` and `Image::into_vec`).
#[verifier::external_body]
fn divide_alpha(width: u32, height: u32, pixels: Vec<u8>) -> (r: Option<Vec<u8>>)
    requires
        width > 0,
        height > 0,
        width * height <= u32::MAX,
    ensures
        pixels@.len() < width * height * 4 ==> r is None,
        r is Some ==> r->0@ == alpha_divided(width as nat, height as nat, pixels@),
        r is Some ==> r->0@.len() == pixels@.len(),
{
    let w = std::num::NonZeroU32::new(width)?;
    let h = std::num::NonZeroU32::new(height)?;
    let mut img = fast_image_resize::Image::from_vec_u8(w, h, pixels, fast_image_resize::PixelType::U8x4).ok()?;
    fast_image_resize::MulDiv::default().divide_alpha_inplace(&mut img.view_mut()).ok()?;
    Some(img.into_vec())
}

/// Relies on fast_image_resize's `Resizer::resize` with
/// `ResizeAlg::Convolution(FilterType::Lanczos3)`, writing into an
/// `Image::new(to_width, to_height, U8x4)`, whose buffer holds exactly
/// `to_width * to_height` pixels. On the way it keeps an image `to_width`
/// wide and at most `height` high, whose pixel count it computes as a `u32`.
#[verifier::external_body]
fn resample_lanczos3(width: u32, height: u32, pixels: Vec<u8>, to_width: u32, to_height: u32) -> (r: Option<Vec<u8>>)
    requires
        width > 0,
        height > 0,
        width * height <= u32::MAX,
        to_width > 0,
        to_height > 0,
        to_width * to_height <= u32::MAX,
        to_width * height <= u32::MAX,
    ensures
        pixels@.len() < width * height * 4 ==> r is None,
        r is Some ==> r->0@ == lanczos3_resized(width as nat, height as nat, pixels@, to_width as nat, to_height as nat),
        r is Some ==> r->0@.len() == to_width * to_height * 4,
{
    let w = std::num::NonZeroU32::new(width)?;
    let h = std::num::NonZeroU32::new(height)?;
    let src = fast_image_resize::Image::from_vec_u8(w, h, pixels, fast_image_resize::PixelType::U8x4).ok()?;
    let tw = std::num::NonZeroU32::new(to_width)?;
    let th = std::num::NonZeroU32::new(to_height)?;
    let mut dst = fast_image_resize::Image::new(tw, th, fast_image_resize::PixelType::U8x4);
    let alg = fast_image_resize::ResizeAlg::Convolution(fast_image_resize::FilterType::Lanczos3);
    fast_image_resize::Resizer::new(alg).resize(&src.view(), &mut dst.view_mut()).ok()?;
    Some(dst.into_vec())
}

/// What a successful resize of `pixels` gives: premultiplied, resampled,
/// then un-premultiplied.
pub open spec fn spec_resized(w: nat, h: nat, pixels: Seq<u8>, tw: nat, th: nat) -> Seq<u8> {
    alpha_divided(tw, th, lanczos3_resized(w, h, alpha_multiplied(w, h, pixels), tw, th))
}

/// Rescales a `width` x `height` RGBA8 image to `to_width` x `to_height`.
/// `None` where the buffer is too short for the image, or where the image
/// library refuses it.
pub fn resize_rgba(width: u32, height: u32, pixels: Vec<u8>, to_width: u32, to_height: u32) -> (r: Option<Vec<u8>>)
    requires
        width > 0,
        height > 0,
        width * height <= u32::MAX,
        to_width > 0,
        to_height > 0,
        to_width * to_height <= u32::MAX,
        to_width * height <= u32::MAX,
    ensures
        pixels@.len() < width * height * 4 ==> r is None,
        r is Some ==> r->0@ == spec_resized(width as nat, height as nat, pixels@, to_width as nat, to_height as nat),
        r is Some ==> r->0@.len() == to_width * to_height * 4,
{
    let pre = multiply_alpha(width, height, pixels)?;
    let scaled = resample_lanczos3(width, height, pre, to_width, to_height)?;
    let out = divide_alpha(to_width, to_height, scaled)?;
    Some(out)
}

/// Whether `w * h` fits in a `u32`, as the image library needs.
fn area_fits_u32(w: u32, h: u32) -> (r: bool)
    ensures
        r == (w * h <= u32::MAX),
{
    proof {
        assert(w as u64 * h as u64 <= u32::MAX as u64 * u32::MAX as u64) by (nonlinear_arith)
            requires w <= u32::MAX, h <= u32::MAX;
    }
    w as u64 * h as u64 <= u32::MAX as u64
}

#[derive(Debug, Clone, Copy, PartialEq, Eq)]
pub enum ResizerError {
    ZeroDimension,
}

/// The fixed output size declared downstream in place of the upstream one.
pub open spec fn spec_resized_metadata(md: RenderMetadata, tw: u32, th: u32) -> RenderMetadata {
    RenderMetadata { frame_width: tw as usize, frame_height: th as usize, ..md }
}

/// Whether the image library can take a frame's size on its way to
/// `to_width` pixels wide.
pub open spec fn resizable(f: Frame, to_width: u32) -> bool {
    f.width > 0 && f.height > 0 && f.width * f.height <= u32::MAX && to_width * f.height <= u32::MAX
}

/// `out` is `f` rescaled to `tw` x `th`, with its number and time stamp.
pub open spec fn is_resize_of(out: Frame, f: Frame, tw: u32, th: u32) -> bool {
    &&& out.frame_number == f.frame_number
    &&& out.timestamp_us == f.timestamp_us
    &&& out.width == tw
    &&& out.height == th
    &&& out.pixel_data@ == spec_resized(f.width as nat, f.height as nat, f.pixel_data@, tw as nat, th as nat)
    &&& frame_wf(out)
}

pub struct ResizeWrapper<FH: FrameHandler> {
    target_width: u32,
    target_height: u32,
    frame_handler: FH,
    declared: Ghost<Seq<RenderMetadata>>,
    forwarded: Ghost<Seq<Frame>>,
    answers: Ghost<Seq<Result<(), HandleFrameError>>>,
}

impl<FH: FrameHandler> ResizeWrapper<FH> {
    pub closed spec fn target(&self) -> (u32, u32) {
        (self.target_width, self.target_height)
    }

    /// The metadata declared to the next stage so far.
    pub closed spec fn declared(&self) -> Seq<RenderMetadata> {
        self.declared@
    }

    /// The frames handed to the next stage so far, in order.
    pub closed spec fn forwarded(&self) -> Seq<Frame> {
        self.forwarded@
    }

    /// The next stage's answer to each forwarded frame.
    pub closed spec fn answers(&self) -> Seq<Result<(), HandleFrameError>> {
        self.answers@
    }

    pub closed spec fn wf(&self) -> bool {
        self.target_width > 0 && self.target_height > 0 && self.target_width * self.target_height <= u32::MAX
    }

    /// A stage that rescales to `target_width` x `target_height`;
    /// `ZeroDimension` where either is zero. A size whose area the image
    /// library cannot take gives a stage that refuses every frame.
    pub fn new(target_width: usize, target_height: usize, next_handler: FH) -> (r: Result<ResizeWrapper<FH>, ResizerError>)
        requires
            target_width <= u32::MAX,
            target_height <= u32::MAX,
        ensures
            (target_width == 0 || target_height == 0) <==> r is Err,
            r is Err ==> r == Err::<ResizeWrapper<FH>, ResizerError>(ResizerError::ZeroDimension),
            r is Ok ==> r->Ok_0.target() == (target_width as u32, target_height as u32),
            r is Ok ==> (r->Ok_0.wf() <==> target_width * target_height <= u32::MAX),
            r is Ok ==> r->Ok_0.declared().len() == 0 && r->Ok_0.forwarded().len() == 0
                && r->Ok_0.answers().len() == 0,
    {
        if target_width == 0 || target_height == 0 {
            return Err(ResizerError::ZeroDimension);
        }
        Ok(ResizeWrapper {
            target_width: target_width as u32,
            target_height: target_height as u32,
            frame_handler: next_handler,
            declared: Ghost(Seq::empty()),
            forwarded: Ghost(Seq::empty()),
            answers: Ghost(Seq::empty()),
        })
    }

    pub fn resized_metadata(&self, metadata: RenderMetadata) -> (r: RenderMetadata)
        ensures
            r == spec_resized_metadata(metadata, self.target().0, self.target().1),
    {
        RenderMetadata {
            frame_count: metadata.frame_count,
            frame_delay_us: metadata.frame_delay_us,
            frame_width: self.target_width as usize,
            frame_height: self.target_height as usize,
        }
    }

    /// The frame rescaled to the target size, with its number and time stamp
    /// kept; `PermanentError` where the image library cannot take it.
    pub fn resize_frame(&self, frame: Frame) -> (r: Result<Frame, HandleFrameError>)
        requires
            self.wf(),
        ensures
            !resizable(frame, self.target().0) ==> r == Err::<Frame, HandleFrameError>(HandleFrameError::PermanentError),
            resizable(frame, self.target().0) && frame.pixel_data@.len() < frame.width * frame.height * 4
                ==> r == Err::<Frame, HandleFrameError>(HandleFrameError::PermanentError),
            r is Err ==> r == Err::<Frame, HandleFrameError>(HandleFrameError::PermanentError),
            r is Ok ==> is_resize_of(r->Ok_0, frame, self.target().0, self.target().1),
    {
        rescale_frame(frame, self.target_width, self.target_height)
    }
}

/// A frame rescaled to `to_width` x `to_height`, with its number and time
/// stamp kept; `PermanentError` where the image library cannot take it.
pub fn rescale_frame(frame: Frame, to_width: u32, to_height: u32) -> (r: Result<Frame, HandleFrameError>)
    ensures
        !(to_width > 0 && to_height > 0 && to_width * to_height <= u32::MAX) || !resizable(frame, to_width)
            ==> r == Err::<Frame, HandleFrameError>(HandleFrameError::PermanentError),
        resizable(frame, to_width) && frame.pixel_data@.len() < frame.width * frame.height * 4
            ==> r == Err::<Frame, HandleFrameError>(HandleFrameError::PermanentError),
        r is Err ==> r == Err::<Frame, HandleFrameError>(HandleFrameError::PermanentError),
        r is Ok ==> is_resize_of(r->Ok_0, frame, to_width, to_height),
{
    if to_width == 0 || to_height == 0 || !area_fits_u32(to_width, to_height) {
        return Err(HandleFrameError::PermanentError);
    }
    if frame.width == 0 || frame.height == 0 {
        return Err(HandleFrameError::PermanentError);
    }
    if !area_fits_u32(frame.width, frame.height) || !area_fits_u32(to_width, frame.height) {
        return Err(HandleFrameError::PermanentError);
    }
    let number = frame.frame_number;
    let timestamp = frame.timestamp_us;
    match resize_rgba(frame.width, frame.height, frame.pixel_data, to_width, to_height) {
        None => Err(HandleFrameError::PermanentError),
        Some(pixel_data) => Ok(Frame {
            frame_number: number,
            pixel_data,
            width: to_width,
            height: to_height,
            timestamp_us: timestamp,
        }),
    }
}

impl<FH: FrameHandler> FrameHandler for ResizeWrapper<FH> {
    /// Declares the target size downstream in place of the upstream one.
    fn set_metadata(&mut self, metadata: RenderMetadata)
        ensures
            final(self).target() == old(self).target(),
            final(self).declared() == old(self).declared().push(
                spec_resized_metadata(metadata, old(self).target().0, old(self).target().1),
            ),
            final(self).forwarded() == old(self).forwarded(),
            final(self).answers() == old(self).answers(),
    {
        let md = self.resized_metadata(metadata);
        self.frame_handler.set_metadata(md);
        self.declared = Ghost(self.declared@.push(md));
    }

    /// Hands the rescaled frame on and passes back the next stage's answer;
    /// a frame the image library cannot take goes nowhere and fails
    /// permanently.
    fn handle_frame(&mut self, frame: Frame) -> (r: Result<(), HandleFrameError>)
        ensures
            final(self).target() == old(self).target(),
            final(self).declared() == old(self).declared(),
            !old(self).wf() || !resizable(frame, old(self).target().0) || frame.pixel_data@.len() < frame.width
                * frame.height * 4 ==> r == Err::<(), HandleFrameError>(HandleFrameError::PermanentError)
                && final(self).forwarded() == old(self).forwarded(),
            final(self).forwarded() == old(self).forwarded() ==> r == Err::<(), HandleFrameError>(
                HandleFrameError::PermanentError,
            ) && final(self).answers() == old(self).answers(),
            final(self).forwarded() != old(self).forwarded() ==> {
                &&& final(self).forwarded().len() == old(self).forwarded().len() + 1
                &&& final(self).forwarded().drop_last() == old(self).forwarded()
                &&& is_resize_of(final(self).forwarded().last(), frame, old(self).target().0, old(self).target().1)
                &&& final(self).answers() == old(self).answers().push(r)
            },
    {
        if !(self.target_width > 0 && self.target_height > 0
            && area_fits_u32(self.target_width, self.target_height)) {
            return Err(HandleFrameError::PermanentError);
        }
        match self.resize_frame(frame) {
            Ok(f) => {
                let ghost g = f;
                let r = self.frame_handler.handle_frame(f);
                self.forwarded = Ghost(self.forwarded@.push(g));
                self.answers = Ghost(self.answers@.push(r));
                proof {
                    assert(self.forwarded@.len() != old(self).forwarded@.len());
                    assert(self.forwarded@.drop_last() =~= old(self).forwarded@);
                }
                r
            },
            Err(e) => Err(e),
        }
    }

    fn finish(&mut self) {
        self.frame_handler.finish();
    }
}

} // verus!
