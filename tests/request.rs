use cotlgif::config::{ActorCategory, FollowerSkins, SkinColours};
use cotlgif::encode::{delay_ms, ApngTiming};
use cotlgif::options::{parse_u32, CustomSize, Flip, Font, InvalidFont, OutputType, SomeIfValid, TextParameters};
use cotlgif::overlay_text::{ParameterError, TextParameters as OverlayText};
use cotlgif::petpet::{apply_petpet_squish, get_petpet_frame, petpet_placement, PoseTransform};
use cotlgif::request::{resolve_animation, resolve_skins, CommonColour, RenderRequest, SlotColour, SlotStyle};
use cotlgif::frame::RenderError;
use cotlgif::slug::{slugify_string, Skin};
use cotlgif::buffer::RenderBufferer;

fn request() -> RenderRequest {
    RenderRequest {
        actor_slug: "follower".to_string(),
        skins: vec!["Cat".to_string()],
        animation: "idle".to_string(),
        scale_milli: 1500,
        antialiasing: 1,
        start_time_ms: 0,
        end_time_ms: 2000,
        fps: 50,
        background_colour: CommonColour::default(),
        slot_colours: vec![
            SlotColour { slot: "HEAD_SKIN_TOP".to_string(), colour: CommonColour { r: 255, g: 0, b: 0, a: 255 } },
            SlotColour { slot: "ARM_LEFT_SKIN".to_string(), colour: CommonColour { r: 0, g: 0, b: 255, a: 255 } },
        ],
        only_head: false,
        petpet: false,
        flip: Flip::NoFlip,
        custom_size: CustomSize::DefaultSize,
        top_text: None,
        bottom_text: None,
    }
}

fn strings(v: &[&str]) -> Vec<String> {
    v.iter().map(|s| s.to_string()).collect()
}

#[test]
fn request_timing() {
    let r = request();
    assert_eq!(r.frame_count(), 100);
    assert_eq!(r.frame_delay(), 20_000);
}

#[test]
fn stacked_skins_fail_on_the_missing_one() {
    let available = strings(&["A", "C"]);
    assert_eq!(resolve_skins(&strings(&["A", "B"]), &available), Err(RenderError::SkinNotFound("B".to_string())));
    assert_eq!(resolve_skins(&strings(&["B", "D"]), &available), Err(RenderError::SkinNotFound("B".to_string())));
    assert_eq!(resolve_skins(&strings(&["C", "A", "C"]), &available), Ok(vec![1, 0, 1]));
    assert_eq!(resolve_skins(&strings(&[]), &available), Ok(vec![]));
}

#[test]
fn animation_must_exist() {
    let available = strings(&["idle", "run"]);
    assert_eq!(resolve_animation(&"run".to_string(), &available), Ok(1));
    assert_eq!(resolve_animation(&"Run".to_string(), &available), Err(RenderError::AnimationNotFound("Run".to_string())));
}

#[test]
fn only_head_keeps_head_slots() {
    let mut r = request();
    assert!(r.should_draw_slot("ARM_LEFT_SKIN"));
    r.only_head = true;
    assert!(r.should_draw_slot("HEAD_SKIN_TOP"));
    assert!(r.should_draw_slot("EYE_LEFT"));
    assert!(r.should_draw_slot("Tear2"));
    assert!(r.should_draw_slot("Face Colouring"));
    assert!(!r.should_draw_slot("ARM_LEFT_SKIN"));
    assert!(!r.should_draw_slot("XHAT"));
}

#[test]
fn hidden_wins_over_a_colour_override() {
    let mut r = request();
    assert_eq!(r.slot_style(&"ARM_LEFT_SKIN".to_string()), SlotStyle::Tinted(CommonColour { r: 0, g: 0, b: 255, a: 255 }));
    assert_eq!(r.slot_style(&"LEG_LEFT_SKIN".to_string()), SlotStyle::Normal);
    r.only_head = true;
    assert_eq!(r.slot_style(&"ARM_LEFT_SKIN".to_string()), SlotStyle::Hidden);
    assert_eq!(r.slot_style(&"HEAD_SKIN_TOP".to_string()), SlotStyle::Tinted(CommonColour { r: 255, g: 0, b: 0, a: 255 }));
    assert_eq!(r.slot_style(&"MOUTH".to_string()), SlotStyle::Normal);
}

#[test]
fn horizontal_flip_mirrors_x() {
    let mut r = request();
    assert_eq!(r.get_scale(1000), (1500, 1500));
    assert_eq!(r.get_scale(2000), (3000, 3000));
    r.flip = Flip::Horizontal;
    assert_eq!(r.get_scale(1000), (-1500, 1500));
}

#[test]
fn fonts_by_name() {
    assert_eq!(Font::parse("impact"), Ok(Font::Impact));
    assert_eq!(Font::parse("IMPACT"), Ok(Font::Impact));
    assert_eq!(Font::parse("Impac"), Err(InvalidFont));
    assert_eq!(Font::Impact.filename(), "assets/impact.ttf");
}

#[test]
fn output_types() {
    assert_eq!(OutputType::Gif.mime_type(), "image/gif");
    assert_eq!(OutputType::Apng.mime_type(), "image/png");
    assert_eq!(OutputType::Png.mime_type(), "image/png");
    assert_eq!(OutputType::Gif.extension(), "gif");
    assert_eq!(OutputType::Apng.extension(), "png");
    assert_eq!(OutputType::from_name("GIF"), Some(OutputType::Gif));
    assert_eq!(OutputType::from_name("apng"), Some(OutputType::Apng));
    assert_eq!(OutputType::from_name("Png"), Some(OutputType::Png));
    assert_eq!(OutputType::from_name("mp4"), None);
    assert_eq!(OutputType::default(), OutputType::Apng);
}

#[test]
fn defaults() {
    assert_eq!(Flip::default(), Flip::NoFlip);
    assert_eq!(CustomSize::default(), CustomSize::DefaultSize);
    assert_eq!(ActorCategory::default(), ActorCategory::NoCategory);
    let t = TextParameters::default();
    assert_eq!((t.text.as_str(), t.font, t.size), ("", Font::Impact, 32));
}

#[test]
fn empty_text_is_dropped() {
    let empty = Some(TextParameters::default());
    assert!(empty.some_if_valid().is_none());
    let hello = Some(TextParameters { text: "hello".to_string(), ..TextParameters::default() });
    assert_eq!(hello.some_if_valid().map(|t| t.text), Some("hello".to_string()));
    let none: Option<TextParameters> = None;
    assert!(none.some_if_valid().is_none());
}

#[test]
fn petpet_states_by_attachment_name() {
    assert_eq!(get_petpet_frame("petpet0"), Some(0));
    assert_eq!(get_petpet_frame("petpet4"), Some(4));
    assert_eq!(get_petpet_frame("petpet5"), None);
    assert_eq!(get_petpet_frame("Petpet1"), None);
}

#[test]
fn petpet_squish_table() {
    assert_eq!(
        apply_petpet_squish(0, (5000, 7000), (1000, 1000)),
        PoseTransform { scale: (1000, 1000), position: (5000, 7000) }
    );
    assert_eq!(
        apply_petpet_squish(2, (5000, 7000), (2000, 2000)),
        PoseTransform { scale: (2700, 1580), position: (17_000, 7000) }
    );
    assert_eq!(
        apply_petpet_squish(1, (0, 0), (-1000, 1000)),
        PoseTransform { scale: (-1210, 860), position: (4000, 0) }
    );
    assert_eq!(petpet_placement(100_000, 50_000), (450, 50_000 - 35 * 450));
    assert_eq!(petpet_placement(50_000, 100_000), (450, 100_000 - 35 * 450));
}

#[test]
fn apng_delays() {
    assert_eq!(delay_ms(20_000), 20);
    assert_eq!(delay_ms(33_333), 33);
    assert_eq!(delay_ms(33_500), 34);
    assert_eq!(delay_ms(u64::MAX), u16::MAX);
    let mut t = ApngTiming::new();
    assert_eq!(t.delay_before(0, 0), None);
    t.written(0);
    assert_eq!(t.delay_before(1, 33_333), Some(33));
    t.written(33_333);
    assert_eq!(t.delay_before(2, 66_666), Some(33));
    assert_eq!(t.delay_before(3, 10), Some(0));
}

fn set(slot: &str, r: u8) -> Vec<SlotColour> {
    vec![SlotColour { slot: slot.to_string(), colour: CommonColour { r, g: 0, b: 0, a: 255 } }]
}

#[test]
fn colour_sets_by_index() {
    let sc = SkinColours {
        global: vec![set("HEAD_SKIN_TOP", 1), set("HEAD_SKIN_TOP", 2)],
        skins: vec![
            FollowerSkins { name: "cats".to_string(), skins: strings(&["Cat", "Cat2"]), sets: vec![set("MARKINGS", 10)] },
            FollowerSkins { name: "more cats".to_string(), skins: strings(&["Cat"]), sets: vec![set("MARKINGS", 20)] },
        ],
    };
    let get = |name: &str, i: usize| sc.colour_set_from_index(&name.to_string(), i).map(|s| s[0].colour.r);
    assert_eq!(get("Cat", 0), Some(10));
    assert_eq!(get("Cat", 1), Some(1));
    assert_eq!(get("Cat", 2), Some(2));
    assert_eq!(get("Cat", 3), None);
    assert_eq!(get("Dog", 0), Some(1));
    assert_eq!(get("Dog", 2), None);
}

#[test]
fn fonts_parse_through_from_str() {
    assert_eq!("Impact".parse::<Font>(), Ok(Font::Impact));
    assert_eq!("comic".parse::<Font>(), Err(InvalidFont));
}

#[test]
fn later_colour_override_wins() {
    let mut r = request();
    r.slot_colours.push(SlotColour { slot: "ARM_LEFT_SKIN".to_string(), colour: CommonColour { r: 1, g: 2, b: 3, a: 255 } });
    assert_eq!(r.slot_style(&"ARM_LEFT_SKIN".to_string()), SlotStyle::Tinted(CommonColour { r: 1, g: 2, b: 3, a: 255 }));
}

#[test]
fn antialiasing_scales_the_render() {
    let mut r = request();
    assert_eq!(r.aa_factor(), 1);
    r.antialiasing = 0;
    assert_eq!(r.aa_factor(), 1);
    assert_eq!(r.render_scale(), (1500, 1500));
    r.antialiasing = 3;
    r.flip = Flip::Horizontal;
    assert_eq!(r.render_scale(), (-4500, 4500));
}

#[test]
fn decimal_sizes() {
    assert_eq!(parse_u32("0"), Some(0));
    assert_eq!(parse_u32("36"), Some(36));
    assert_eq!(parse_u32("+7"), Some(7));
    assert_eq!(parse_u32("4294967295"), Some(u32::MAX));
    assert_eq!(parse_u32("4294967296"), None);
    assert_eq!(parse_u32(""), None);
    assert_eq!(parse_u32("+"), None);
    assert_eq!(parse_u32("-1"), None);
    assert_eq!(parse_u32("12a"), None);
    for s in ["0", "36", "+7", "4294967295", "4294967296", "", "+", "-1", "12a", "007"] {
        assert_eq!(parse_u32(s), s.parse::<u32>().ok());
    }
}

#[test]
fn text_parameters_from_params() {
    let mut t = OverlayText::default();
    assert_eq!((t.top_text.clone(), t.bottom_text.clone(), t.font, t.font_size), (None, None, Font::Impact, 32));
    assert_eq!(t.set_from_params("top_text".to_string(), "hello".to_string()), Ok(()));
    assert_eq!(t.set_from_params("bottom_text".to_string(), "world".to_string()), Ok(()));
    assert_eq!(t.set_from_params("font".to_string(), "impact".to_string()), Ok(()));
    assert_eq!(t.set_from_params("font_size".to_string(), "48".to_string()), Ok(()));
    assert_eq!(t.top_text.as_deref(), Some("hello"));
    assert_eq!(t.bottom_text.as_deref(), Some("world"));
    assert_eq!(t.font_size, 48);
    assert_eq!(
        t.set_from_params("font".to_string(), "IMPACT".to_string()),
        Err(ParameterError::UnknownFont("IMPACT".to_string()))
    );
    assert_eq!(
        t.set_from_params("font_size".to_string(), "big".to_string()),
        Err(ParameterError::InvalidFontSize("big".to_string()))
    );
    assert_eq!(
        t.set_from_params("size".to_string(), "12".to_string()),
        Err(ParameterError::InvalidParameter("size".to_string()))
    );
    assert_eq!(
        t.set_from_params("text".to_string(), "x".to_string()),
        Err(ParameterError::InvalidParameter("text".to_string()))
    );
    assert_eq!(t.font_size, 48);
    assert_eq!(t.top_text.as_deref(), Some("hello"));
}

#[test]
fn slugs_of_names() {
    assert_eq!(slugify_string("Hello World"), "hello-world");
    assert_eq!(slugify_string("plain"), "plain");
    assert_eq!(slugify_string("HeadAccessory"), "heaa-dccessory");
    assert_eq!(slugify_string("A B C"), "a-b c");
    assert_eq!(Skin { name: "Cat Face".to_string() }.slug(), "cat-face");
}

#[test]
fn buffer_closed_stage_is_empty() {
    let (mut buffer, _drain) = RenderBufferer::new(2);
    buffer.close();
    assert_eq!(buffer.pending(), 0);
    assert!(!buffer.is_full());
}
