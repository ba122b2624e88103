use cotlgif::bounds::{BoundingBox, BoundsFinder, Extent, Renderable, Vertex};
use cotlgif::compositor::{plan_canvas, plan_pose};
use cotlgif::frame::{RenderError, RenderMetadata};
use cotlgif::geometry::{ALPHA_OPAQUE, VISIBLE_ALPHA};
use cotlgif::layout::{layout, TextExtent};
use cotlgif::options::{CustomSize, Flip};
use cotlgif::request::{CommonColour, RenderRequest};

fn batch(alpha: u32, pts: &[(i32, i32)]) -> Renderable {
    Renderable { alpha, vertices: pts.iter().map(|&(x, y)| Vertex { x, y }).collect() }
}

fn request(skins: &[&str], animation: &str) -> RenderRequest {
    RenderRequest {
        actor_slug: "follower".to_string(),
        skins: skins.iter().map(|s| s.to_string()).collect(),
        animation: animation.to_string(),
        scale_milli: 1000,
        antialiasing: 1,
        start_time_ms: 0,
        end_time_ms: 1000,
        fps: 10,
        background_colour: CommonColour::default(),
        slot_colours: vec![],
        only_head: false,
        petpet: false,
        flip: Flip::NoFlip,
        custom_size: CustomSize::DefaultSize,
        top_text: None,
        bottom_text: None,
    }
}

fn names(v: &[&str]) -> Vec<String> {
    v.iter().map(|s| s.to_string()).collect()
}

#[test]
fn transparent_only_content_is_nothing_rendered() {
    let mut finder = BoundsFinder::new();
    for _ in 0..5 {
        finder.add_step(&vec![batch(0, &[(0, 0), (90_000, 70_000)]), batch(VISIBLE_ALPHA - 1, &[(-5000, 5000)])]);
    }
    assert_eq!(finder.extent(), None);
    assert_eq!(finder.bounding_box(), Err(RenderError::NothingRendered));
    let plan = plan_canvas(&request(&["a"], "idle"), &finder, None, None);
    assert_eq!(plan.err(), Some(RenderError::NothingRendered));
}

#[test]
fn bounding_box_spans_every_visible_vertex_of_every_step() {
    let mut finder = BoundsFinder::new();
    finder.add_step(&vec![batch(ALPHA_OPAQUE, &[(1000, 2000), (3000, -500)]), batch(0, &[(-99_000, 99_000)])]);
    finder.add_step(&vec![]);
    finder.add_step(&vec![batch(VISIBLE_ALPHA, &[(-4000, 2500)])]);
    assert_eq!(finder.extent(), Some(Extent { min_x: -4000, min_y: -500, max_x: 3000, max_y: 2500 }));
    assert_eq!(finder.bounding_box(), Ok(BoundingBox { left: -4000, top: -500, width: 7000, height: 3000 }));
}

#[test]
fn box_under_one_pixel_is_nothing_rendered() {
    let mut finder = BoundsFinder::new();
    finder.add_step(&vec![batch(ALPHA_OPAQUE, &[(0, 0), (999, 50_000)])]);
    assert_eq!(finder.bounding_box(), Err(RenderError::NothingRendered));
}

#[test]
fn layout_default_size_is_the_box() {
    let b = BoundingBox { left: -2500, top: 400, width: 10_500, height: 20_000 };
    let l = layout(b, CustomSize::DefaultSize, None, None);
    assert_eq!((l.x_offset, l.y_offset), (2500, -400));
    assert_eq!((l.canvas_width, l.canvas_height), (10_500, 20_000));
    assert_eq!((l.target_width, l.target_height), (11, 20));
    assert_eq!(l.top_text_position, None);
}

#[test]
fn layout_square_pads_the_shorter_axis() {
    let b = BoundingBox { left: 0, top: 0, width: 10_000, height: 30_000 };
    let l = layout(b, CustomSize::Discord128x128, None, None);
    assert_eq!((l.target_width, l.target_height), (30, 30));
    assert_eq!((l.x_offset, l.y_offset), (10_000, 0));
    let b = BoundingBox { left: 0, top: 0, width: 30_000, height: 10_000 };
    let l = layout(b, CustomSize::Discord128x128, None, None);
    assert_eq!((l.x_offset, l.y_offset), (0, 10_000));
}

#[test]
fn wide_text_widens_the_canvas_and_recentres_everything() {
    let b = BoundingBox { left: 0, top: 0, width: 20_000, height: 10_000 };
    let top = TextExtent { width: 30_000, height: 4000, font_size: 36 };
    let bottom = TextExtent { width: 50_000, height: 4000, font_size: 36 };
    let l = layout(b, CustomSize::DefaultSize, Some(top), Some(bottom));
    assert_eq!(l.canvas_width, 50_000);
    assert_eq!(l.target_width, 50);
    assert_eq!(l.x_offset, 15_000);
    assert_eq!(l.top_text_position, Some((10_000, -10_000)));
    assert_eq!(l.bottom_text_position, Some((0, -(4000 + 350))));
    let narrow = TextExtent { width: 8000, height: 4000, font_size: 72 };
    let l = layout(b, CustomSize::DefaultSize, Some(narrow), None);
    assert_eq!(l.canvas_width, 20_000);
    assert_eq!(l.top_text_position, Some((6000, -10_000)));
}

#[test]
fn missing_second_skin_is_reported_even_when_the_first_exists() {
    let plan = plan_pose(&request(&["A", "B"], "idle"), &names(&["A", "C"]), &names(&["idle"]));
    assert_eq!(plan.err(), Some(RenderError::SkinNotFound("B".to_string())));
}

#[test]
fn skins_are_checked_before_the_animation() {
    let plan = plan_pose(&request(&["X"], "run"), &names(&["A"]), &names(&["idle"]));
    assert_eq!(plan.err(), Some(RenderError::SkinNotFound("X".to_string())));
    let plan = plan_pose(&request(&["A"], "run"), &names(&["A"]), &names(&["idle"]));
    assert_eq!(plan.err(), Some(RenderError::AnimationNotFound("run".to_string())));
}

#[test]
fn pose_plan_stacks_skins_in_request_order() {
    let plan = plan_pose(&request(&["C", "A"], "run"), &names(&["A", "B", "C"]), &names(&["idle", "run"])).ok().unwrap();
    assert_eq!(plan.skins, vec![2, 0]);
    assert_eq!(plan.animation, 1);
}

#[test]
fn canvas_plan_declares_the_metadata() {
    let mut finder = BoundsFinder::new();
    finder.add_step(&vec![batch(ALPHA_OPAQUE, &[(0, 0), (64_500, 32_000)])]);
    let mut req = request(&["a"], "idle");
    req.petpet = true;
    let plan = plan_canvas(&req, &finder, None, None).ok().unwrap();
    assert_eq!(plan.metadata, RenderMetadata { frame_count: 10, frame_delay_us: 100_000, frame_width: 65, frame_height: 32 });
    assert_eq!(plan.overlay, Some((288, 32_000 - 35 * 288)));
}

#[test]
fn antialiasing_scales_the_delivered_size_down() {
    let mut finder = BoundsFinder::new();
    finder.add_step(&vec![batch(ALPHA_OPAQUE, &[(0, 0), (64_500, 32_000)])]);
    let mut req = request(&["a"], "idle");
    req.antialiasing = 2;
    let plan = plan_canvas(&req, &finder, None, None).ok().unwrap();
    assert_eq!((plan.layout.target_width, plan.layout.target_height), (65, 32));
    assert_eq!(plan.final_size, (32, 16));
    assert_eq!((plan.metadata.frame_width, plan.metadata.frame_height), (32, 16));
    req.antialiasing = 40;
    assert_eq!(plan_canvas(&req, &finder, None, None).err(), Some(RenderError::NothingRendered));
}
