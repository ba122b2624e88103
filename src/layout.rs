//! Where everything goes on the canvas: the pose inside its bounding box,
//! the square padding of fixed-square renders, and the text overlays, which
//! widen the canvas where they do not fit and stay centred on it.

use vstd::prelude::*;
use crate::bounds::BoundingBox;
use crate::geometry::{ceil_div, max_int, SUBPIXELS};
use crate::options::CustomSize;

verus! {

/// The size of a laid-out line of text, in sub-pixels, and the font size it
/// was laid out at.
#[derive(Debug, Clone, Copy, PartialEq, Eq)]
pub struct TextExtent {
    pub width: i64,
    pub height: i64,
    pub font_size: u32,
}

/// Largest text extent taken, in sub-pixels.
pub const MAX_TEXT_EXTENT: i64 = 0x7fff_ffff;

pub open spec fn text_ok(t: Option<TextExtent>) -> bool {
    t is Some ==> 0 <= t->0.width <= MAX_TEXT_EXTENT && 0 <= t->0.height <= MAX_TEXT_EXTENT
}

/// A bounding box as the finder gives it: at least a pixel each way, and
/// within the range of its 32-bit vertices.
pub open spec fn box_ok(b: BoundingBox) -> bool {
    &&& SUBPIXELS <= b.width <= u32::MAX
    &&& SUBPIXELS <= b.height <= u32::MAX
    &&& i32::MIN <= b.left <= i32::MAX
    &&& i32::MIN <= b.top <= i32::MAX
}

/// Placement of the pose and the text overlays; all in sub-pixels but the
/// target size, which is in whole pixels. Text positions are given in the
/// y-flipped space the text is drawn in.
#[derive(Debug, Clone, Copy, PartialEq, Eq)]
pub struct CanvasLayout {
    pub x_offset: i64,
    pub y_offset: i64,
    pub canvas_width: i64,
    pub canvas_height: i64,
    pub target_width: u32,
    pub target_height: u32,
    pub top_text_position: Option<(i64, i64)>,
    pub bottom_text_position: Option<(i64, i64)>,
}

/// The content's size before text: the box, or for a fixed-square render a
/// square on its longer side.
pub open spec fn content_size(b: BoundingBox, custom_size: CustomSize) -> (int, int) {
    match custom_size {
        CustomSize::DefaultSize => (b.width as int, b.height as int),
        CustomSize::Discord128x128 => {
            let side = max_int(b.width as int, b.height as int);
            (side, side)
        },
    }
}

pub open spec fn text_width(t: Option<TextExtent>) -> int {
    match t {
        Some(t) => t.width as int,
        None => 0,
    }
}

/// The layout: the canvas is as wide as the widest of the content and the
/// two lines of text; the extra width is split evenly around the content,
/// and every line of text is centred on the final width. The top line sits
/// at the top edge; the bottom line sits above the bottom edge by a margin
/// that grows with the canvas height and the font size.
pub open spec fn spec_layout(
    b: BoundingBox,
    custom_size: CustomSize,
    top: Option<TextExtent>,
    bottom: Option<TextExtent>,
) -> CanvasLayout {
    let (cw, ch) = content_size(b, custom_size);
    let width = max_int(cw, max_int(text_width(top), text_width(bottom)));
    CanvasLayout {
        x_offset: (-b.left + (cw - b.width) / 2 + (width - cw) / 2) as i64,
        y_offset: (-b.top + (ch - b.height) / 2) as i64,
        canvas_width: width as i64,
        canvas_height: ch as i64,
        target_width: ceil_div(width, SUBPIXELS as int) as u32,
        target_height: ceil_div(ch, SUBPIXELS as int) as u32,
        top_text_position: match top {
            Some(t) => Some((((width - t.width) / 2) as i64, (-ch) as i64)),
            None => None,
        },
        bottom_text_position: match bottom {
            Some(t) => Some(
                (
                    ((width - t.width) / 2) as i64,
                    (-(t.height + ch * 35 * t.font_size / 36000)) as i64,
                ),
            ),
            None => None,
        },
    }
}

fn text_width_of(t: Option<TextExtent>) -> (r: i64)
    requires
        text_ok(t),
    ensures
        r == text_width(t),
{
    match t {
        Some(t) => t.width,
        None => 0,
    }
}

fn max_i64(a: i64, b: i64) -> (r: i64)
    ensures
        r == max_int(a as int, b as int),
{
    if a >= b { a } else { b }
}

fn bottom_margin(canvas_height: i64, t: TextExtent) -> (r: i64)
    requires
        0 <= canvas_height <= u32::MAX,
        0 <= t.height <= MAX_TEXT_EXTENT,
    ensures
        r == -(t.height + canvas_height * 35 * t.font_size / 36000),
{
    proof {
        assert(canvas_height * 35 * t.font_size <= u32::MAX as int * 35 * u32::MAX as int) by (nonlinear_arith)
            requires 0 <= canvas_height <= u32::MAX, t.font_size <= u32::MAX;
        assert(0 <= canvas_height * 35 * t.font_size) by (nonlinear_arith)
            requires 0 <= canvas_height, t.font_size >= 0;
        assert(canvas_height * 35 * t.font_size / 36000 <= u32::MAX as int * 35 * u32::MAX as int / 36000) by (nonlinear_arith)
            requires canvas_height * 35 * t.font_size <= u32::MAX as int * 35 * u32::MAX as int;
    }
    let m = (canvas_height as u128 * 35 * t.font_size as u128 / 36000) as i64;
    -(t.height + m)
}

/// Lays out the canvas for a bounding box, a size mode and the optional text
/// lines.
pub fn layout(
    b: BoundingBox,
    custom_size: CustomSize,
    top: Option<TextExtent>,
    bottom: Option<TextExtent>,
) -> (r: CanvasLayout)
    requires
        box_ok(b),
        text_ok(top),
        text_ok(bottom),
    ensures
        r == spec_layout(b, custom_size, top, bottom),
{
    let (cw, ch) = match custom_size {
        CustomSize::DefaultSize => (b.width, b.height),
        CustomSize::Discord128x128 => {
            let side = max_i64(b.width, b.height);
            (side, side)
        },
    };
    let width = max_i64(cw, max_i64(text_width_of(top), text_width_of(bottom)));
    let top_text_position = match top {
        Some(t) => Some(((width - t.width) / 2, -ch)),
        None => None,
    };
    let bottom_text_position = match bottom {
        Some(t) => Some(((width - t.width) / 2, bottom_margin(ch, t))),
        None => None,
    };
    CanvasLayout {
        x_offset: -b.left + (cw - b.width) / 2 + (width - cw) / 2,
        y_offset: -b.top + (ch - b.height) / 2,
        canvas_width: width,
        canvas_height: ch,
        target_width: ((width + SUBPIXELS - 1) / SUBPIXELS) as u32,
        target_height: ((ch + SUBPIXELS - 1) / SUBPIXELS) as u32,
        top_text_position,
        bottom_text_position,
    }
}

} // verus!
