//! The "petpet" overlay: a hand that pats the figure. Its current attachment
//! names one of five squish states, each a fixed change to the figure's
//! scale and position.

use vstd::prelude::*;
use crate::geometry::SUBPIXELS;
use crate::options::matches_exactly;

verus! {

pub open spec fn spec_petpet_frame(name: Seq<char>) -> Option<i32> {
    if name == "petpet0"@ {
        Some(0)
    } else if name == "petpet1"@ {
        Some(1)
    } else if name == "petpet2"@ {
        Some(2)
    } else if name == "petpet3"@ {
        Some(3)
    } else if name == "petpet4"@ {
        Some(4)
    } else {
        None
    }
}

/// The squish state named by the overlay's attachment, if it names one.
pub fn get_petpet_frame(attachment_name: &str) -> (r: Option<i32>)
    ensures
        r == spec_petpet_frame(attachment_name@),
{
    if matches_exactly(attachment_name, "petpet0") {
        Some(0)
    } else if matches_exactly(attachment_name, "petpet1") {
        Some(1)
    } else if matches_exactly(attachment_name, "petpet2") {
        Some(2)
    } else if matches_exactly(attachment_name, "petpet3") {
        Some(3)
    } else if matches_exactly(attachment_name, "petpet4") {
        Some(4)
    } else {
        None
    }
}

/// Each squish state: the change of scale on each axis, in thousandths,
/// and the shift of position, in pixels.
pub open spec fn squish_table(state: int) -> ((int, int), (int, int)) {
    if state == 0 {
        ((0, 0), (0, 0))
    } else if state == 1 {
        ((300, -200), (4, 0))
    } else if state == 2 {
        ((500, -300), (12, 0))
    } else if state == 3 {
        ((400, -200), (4, 0))
    } else {
        ((200, 0), (0, 0))
    }
}

/// How strongly the table's scale changes apply, in tenths.
pub const SQUISH_TENTHS: i64 = 7;

/// A pose transform: scale in thousandths on each axis, position in
/// sub-pixels.
#[derive(Debug, Clone, Copy, PartialEq, Eq)]
pub struct PoseTransform {
    pub scale: (i64, i64),
    pub position: (i64, i64),
}

/// Largest magnitude of a scale or offset taken, so the result stays in range.
pub const MAX_POSE_VALUE: i64 = 0x0000_ffff_ffff_ffff;

/// Division rounding toward zero, as integer division does at run time.
pub open spec fn trunc_div(a: int, b: int) -> int {
    if a >= 0 { a / b } else { -((-a) / b) }
}

pub open spec fn spec_squish(state: int, offset: (i64, i64), scale: (i64, i64)) -> PoseTransform {
    let ((sx, sy), (px, py)) = squish_table(state);
    PoseTransform {
        scale: (
            trunc_div((1000 + sx * SQUISH_TENTHS / 10) * scale.0, 1000) as i64,
            trunc_div((1000 + sy * SQUISH_TENTHS / 10) * scale.1, 1000) as i64,
        ),
        position: ((offset.0 + px * SUBPIXELS) as i64, (offset.1 + py * SUBPIXELS) as i64),
    }
}

/// The scale factors (thousandths) and position shift (pixels) of a state.
fn squish_entry(state: i32) -> (r: ((i64, i64), (i64, i64)))
    requires
        0 <= state <= 4,
    ensures
        r.0.0 == 1000 + squish_table(state as int).0.0 * SQUISH_TENTHS / 10,
        r.0.1 == 1000 + squish_table(state as int).0.1 * SQUISH_TENTHS / 10,
        r.1.0 == squish_table(state as int).1.0,
        r.1.1 == squish_table(state as int).1.1,
{
    if state == 0 {
        ((1000, 1000), (0, 0))
    } else if state == 1 {
        ((1210, 860), (4, 0))
    } else if state == 2 {
        ((1350, 790), (12, 0))
    } else if state == 3 {
        ((1280, 860), (4, 0))
    } else {
        ((1140, 1000), (0, 0))
    }
}

fn scaled(f: i64, base: i64) -> (r: i64)
    requires
        0 <= f <= 2000,
        -MAX_POSE_VALUE <= base <= MAX_POSE_VALUE,
    ensures
        r == trunc_div(f * base, 1000),
{
    proof {
        assert(-MAX_POSE_VALUE * 2000 <= f * base <= MAX_POSE_VALUE * 2000) by (nonlinear_arith)
            requires 0 <= f <= 2000, -MAX_POSE_VALUE <= base <= MAX_POSE_VALUE;
    }
    f * base / 1000
}

/// The figure's transform in squish state `petpet_frame`, from its resting
/// offset and scale.
pub fn apply_petpet_squish(petpet_frame: i32, rest_offset: (i64, i64), rest_scale: (i64, i64)) -> (r: PoseTransform)
    requires
        0 <= petpet_frame <= 4,
        -MAX_POSE_VALUE <= rest_offset.0 <= MAX_POSE_VALUE,
        -MAX_POSE_VALUE <= rest_offset.1 <= MAX_POSE_VALUE,
        -MAX_POSE_VALUE <= rest_scale.0 <= MAX_POSE_VALUE,
        -MAX_POSE_VALUE <= rest_scale.1 <= MAX_POSE_VALUE,
    ensures
        r == spec_squish(petpet_frame as int, rest_offset, rest_scale),
{
    let ((sx, sy), (px, py)) = squish_entry(petpet_frame);
    PoseTransform {
        scale: (scaled(sx, rest_scale.0), scaled(sy, rest_scale.1)),
        position: (rest_offset.0 + px * SUBPIXELS, rest_offset.1 + py * SUBPIXELS),
    }
}

/// Scale (thousandths) and height (sub-pixels) of the overlay for a box of
/// the given size: nine thousandths of a pixel per sub-pixel of the shorter
/// side, standing 35 units of its own scale above the bottom edge.
pub open spec fn spec_petpet_placement(w: int, h: int) -> (i64, i64) {
    let s = 9 * (if w > h { h } else { w }) / 1000;
    (s as i64, (h - 35 * s) as i64)
}

pub fn petpet_placement(target_width: i64, target_height: i64) -> (r: (i64, i64))
    requires
        0 <= target_width <= MAX_POSE_VALUE,
        0 <= target_height <= MAX_POSE_VALUE,
    ensures
        r == spec_petpet_placement(target_width as int, target_height as int),
{
    let shorter = if target_width > target_height { target_height } else { target_width };
    let s = 9 * shorter / 1000;
    (s, target_height - 35 * s)
}

} // verus!
