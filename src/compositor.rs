//! The frame compositor's decisions, in the order it takes them: the pose
//! (skin stack, then animation), then, once the bounding-box finder has
//! replayed the animation, the canvas and the metadata announced downstream.

use vstd::prelude::*;
use crate::bounds::{spec_bounding_box, BoundingBox, BoundsFinder};
use crate::frame::{RenderError, RenderMetadata};
use crate::layout::{layout, spec_layout, text_ok, CanvasLayout, TextExtent};
use crate::petpet::{petpet_placement, spec_petpet_placement};
use crate::request::{names, resolve_animation, resolve_skins, skin_error, spec_aa_factor, RenderRequest};
use crate::schedule::{spec_frame_count, spec_frame_delay_us};

verus! {

/// The skins to stack (positions among the actor's skins, base first) and
/// the animation to play (position among its animations).
#[derive(Debug, Clone)]
pub struct PosePlan {
    pub skins: Vec<usize>,
    pub animation: usize,
}

/// Resolves the request's pose: `SkinNotFound` for the first missing skin,
/// else `AnimationNotFound`, else the plan.
pub fn plan_pose(request: &RenderRequest, skins: &Vec<String>, animations: &Vec<String>) -> (r: Result<PosePlan, RenderError>)
    ensures
        skin_error(names(request.skins@), names(skins@)) is Some ==> r is Err && r->Err_0 is SkinNotFound
            && r->Err_0->SkinNotFound_0@ == skin_error(names(request.skins@), names(skins@))->0,
        skin_error(names(request.skins@), names(skins@)) is None && !names(animations@).contains(
            request.animation@,
        ) ==> r is Err && r->Err_0 is AnimationNotFound && r->Err_0->AnimationNotFound_0@ == request.animation@,
        r is Ok <==> skin_error(names(request.skins@), names(skins@)) is None && names(animations@).contains(
            request.animation@,
        ),
        r is Ok ==> {
            let p = r->Ok_0;
            &&& p.skins@.len() == request.skins@.len()
            &&& forall|i: int|
                0 <= i < p.skins@.len() ==> #[trigger] p.skins@[i] < skins@.len() && skins@[p.skins@[i] as int]@
                    == request.skins@[i]@
            &&& p.animation < animations@.len()
            &&& animations@[p.animation as int]@ == request.animation@
        },
{
    let stack = resolve_skins(&request.skins, skins)?;
    let animation = resolve_animation(&request.animation, animations)?;
    Ok(PosePlan { skins: stack, animation })
}

/// Everything fixed before the first frame.
#[derive(Debug, Clone, Copy, PartialEq, Eq)]
pub struct CanvasPlan {
    pub bounding_box: BoundingBox,
    pub layout: CanvasLayout,
    pub metadata: RenderMetadata,
    /// Scale (thousandths) and height (sub-pixels) of the overlay, where
    /// one is asked for.
    pub overlay: Option<(i64, i64)>,
    /// The delivered frame size: the rendered one divided by the
    /// antialiasing factor. Rendered frames are scaled down to it before they
    /// leave the compositor.
    pub final_size: (u32, u32),
}

/// The rendered size `(w, h)` scaled down by the antialiasing factor.
pub open spec fn spec_final_size(w: u32, h: u32, antialiasing: u32) -> (u32, u32) {
    ((w as int / spec_aa_factor(antialiasing)) as u32, (h as int / spec_aa_factor(antialiasing)) as u32)
}

/// Lays out the canvas from what the finder measured: `NothingRendered`
/// where it measured nothing of at least a pixel each way, or where the
/// canvas scaled down by the antialiasing factor has no pixel left; otherwise
/// the layout, the delivered size, the metadata (frame count, delay,
/// delivered size) and, for a petpet request, the
/// overlay's placement against the bounding box.
pub fn plan_canvas(
    request: &RenderRequest,
    finder: &BoundsFinder,
    top: Option<TextExtent>,
    bottom: Option<TextExtent>,
) -> (r: Result<CanvasPlan, RenderError>)
    requires
        request.fps > 0,
        finder.wf(),
        text_ok(top),
        text_ok(bottom),
    ensures
        spec_bounding_box(finder.current()) is Err ==> r == Err::<CanvasPlan, RenderError>(RenderError::NothingRendered),
        r is Err ==> r == Err::<CanvasPlan, RenderError>(RenderError::NothingRendered),
        spec_bounding_box(finder.current()) is Ok ==> {
            let b = spec_bounding_box(finder.current())->Ok_0;
            let l = spec_layout(b, request.custom_size, top, bottom);
            let fs = spec_final_size(l.target_width, l.target_height, request.antialiasing);
            r is Ok <==> fs.0 > 0 && fs.1 > 0
        },
        r is Ok ==> {
            let b = spec_bounding_box(finder.current())->Ok_0;
            let p = r->Ok_0;
            let l = spec_layout(b, request.custom_size, top, bottom);
            &&& spec_bounding_box(finder.current()) is Ok
            &&& p.final_size == spec_final_size(l.target_width, l.target_height, request.antialiasing)
            &&& p.bounding_box == b
            &&& p.layout == l
            &&& p.metadata == RenderMetadata {
                frame_count: spec_frame_count(request.start_time_ms as int, request.end_time_ms as int, request.fps as int) as u32,
                frame_delay_us: spec_frame_delay_us(request.fps as int) as u64,
                frame_width: p.final_size.0 as usize,
                frame_height: p.final_size.1 as usize,
            }
            &&& p.overlay == (if request.petpet {
                Some(spec_petpet_placement(b.width as int, b.height as int))
            } else {
                None
            })
        },
{
    let b = finder.bounding_box()?;
    let l = layout(b, request.custom_size, top, bottom);
    let factor = request.aa_factor();
    let final_size = (l.target_width / factor, l.target_height / factor);
    if final_size.0 == 0 || final_size.1 == 0 {
        return Err(RenderError::NothingRendered);
    }
    let metadata = RenderMetadata {
        frame_count: request.frame_count(),
        frame_delay_us: request.frame_delay(),
        frame_width: final_size.0 as usize,
        frame_height: final_size.1 as usize,
    };
    let overlay = if request.petpet {
        Some(petpet_placement(b.width, b.height))
    } else {
        None
    };
    Ok(CanvasPlan { bounding_box: b, layout: l, metadata, overlay, final_size })
}

} // verus!
