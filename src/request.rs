//! A render request, and the decisions taken on it before any frame: which
//! skins stack up, which animation plays, and how each slot is drawn.

use vstd::prelude::*;
use crate::frame::RenderError;
use crate::options::{CustomSize, Flip, TextParameters};
use crate::schedule::{frame_count, frame_delay_us, spec_frame_count, spec_frame_delay_us};

verus! {

/// An RGBA colour, eight bits a channel.
#[derive(Debug, Clone, Copy, PartialEq, Eq, Default)]
pub struct CommonColour {
    pub r: u8,
    pub g: u8,
    pub b: u8,
    pub a: u8,
}

/// The colour a slot is tinted with.
#[derive(Debug, Clone)]
pub struct SlotColour {
    pub slot: String,
    pub colour: CommonColour,
}

/// The slots that make up a head, as a regular expression over slot names.
pub const HEAD_SLOTS: &'static str = "^(HEAD_SKIN_.*|MARKINGS|EXTRA_(TOP|BTM)|Face Colouring|MOUTH|HOOD|EYE_.*|HeadAccessory|HAT|MASK|Tear\\d|Crown_Particle\\d)$";

/// Whether `text` holds a match of the regular expression `pattern`.
pub uninterp spec fn regex_matches(pattern: Seq<char>, text: Seq<char>) -> bool;

/// Relies on regex::Regex::new and Regex::is_match: whether `text` holds a
/// match of `pattern`; `false` where the pattern does not compile.
#[verifier::external_body]
fn regex_is_match(pattern: &str, text: &str) -> (r: bool)
    ensures
        r == regex_matches(pattern@, text@),
{
    regex::Regex::new(pattern).map(|re| re.is_match(text)).unwrap_or(false)
}

/// How one slot of the pose is drawn.
#[derive(Debug, Clone, Copy, PartialEq, Eq)]
pub enum SlotStyle {
    /// Made fully transparent.
    Hidden,
    /// Its colour replaced.
    Tinted(CommonColour),
    /// Left as the skin has it.
    Normal,
}

/// The colour of the last override for slot `name`, if any: a later
/// override replaces an earlier one, as entering them into a map in order
/// would.
pub open spec fn colour_for(list: Seq<SlotColour>, name: Seq<char>) -> Option<CommonColour>
    decreases list.len(),
{
    if list.len() == 0 {
        None
    } else if list.last().slot@ == name {
        Some(list.last().colour)
    } else {
        colour_for(list.drop_last(), name)
    }
}

/// The names of a list of strings.
pub open spec fn names(v: Seq<String>) -> Seq<Seq<char>> {
    v.map_values(|s: String| s@)
}

/// `i` is the first requested skin that is not available.
pub open spec fn is_first_missing(req: Seq<Seq<char>>, av: Seq<Seq<char>>, i: int) -> bool {
    &&& 0 <= i < req.len()
    &&& !av.contains(req[i])
    &&& forall|k: int| 0 <= k < i ==> av.contains(#[trigger] req[k])
}

/// The first requested skin that is not available, if any.
pub open spec fn skin_error(req: Seq<Seq<char>>, av: Seq<Seq<char>>) -> Option<Seq<char>> {
    if exists|i: int| is_first_missing(req, av, i) {
        Some(req[choose|i: int| is_first_missing(req, av, i)])
    } else {
        None
    }
}

/// Whether two strings hold the same characters.
fn same_name(a: &String, b: &String) -> (r: bool)
    ensures
        r == (a@ == b@),
{
    a.eq(b)
}

/// The position of `name` in `available`, if it is there.
fn find_name(name: &String, available: &Vec<String>) -> (r: Option<usize>)
    ensures
        r is Some ==> r->0 < available@.len() && available@[r->0 as int]@ == name@,
        r is None ==> !names(available@).contains(name@),
{
    let mut j: usize = 0;
    while j < available.len()
        invariant
            0 <= j <= available@.len(),
            forall|k: int| 0 <= k < j ==> (#[trigger] available@[k])@ != name@,
        decreases available.len() - j,
    {
        if same_name(&available[j], name) {
            return Some(j);
        }
        j = j + 1;
    }
    proof {
        if names(available@).contains(name@) {
            let k = choose|k: int| 0 <= k < names(available@).len() && names(available@)[k] == name@;
            assert(available@[k]@ == name@);
        }
    }
    None
}

/// Stacks the requested skins, first the base one: the position in
/// `available` of each, in request order, or `SkinNotFound` naming the first
/// requested skin that is missing. No missing skin is ever passed over.
pub fn resolve_skins(requested: &Vec<String>, available: &Vec<String>) -> (r: Result<Vec<usize>, RenderError>)
    ensures
        r is Err <==> skin_error(names(requested@), names(available@)) is Some,
        r is Err ==> r->Err_0 is SkinNotFound && r->Err_0->SkinNotFound_0@ == skin_error(
            names(requested@),
            names(available@),
        )->0,
        r is Ok ==> {
            let idx = r->Ok_0@;
            &&& idx.len() == requested@.len()
            &&& forall|i: int|
                0 <= i < idx.len() ==> #[trigger] idx[i] < available@.len() && available@[idx[i] as int]@
                    == requested@[i]@
        },
{
    let ghost req = names(requested@);
    let ghost av = names(available@);
    let mut out: Vec<usize> = Vec::new();
    let mut i: usize = 0;
    while i < requested.len()
        invariant
            req == names(requested@),
            av == names(available@),
            0 <= i <= requested@.len(),
            out@.len() == i,
            forall|k: int|
                0 <= k < i ==> #[trigger] out@[k] < available@.len() && available@[out@[k] as int]@
                    == requested@[k]@,
        decreases requested.len() - i,
    {
        match find_name(&requested[i], available) {
            Some(j) => {
                out.push(j);
            },
            None => {
                proof {
                    assert forall|k: int| 0 <= k < i implies av.contains(#[trigger] req[k]) by {
                        assert(av[out@[k] as int] == req[k]);
                    }
                    assert(is_first_missing(req, av, i as int));
                    let c = choose|c: int| is_first_missing(req, av, c);
                    if c < i {
                        assert(av.contains(req[c]));
                    }
                    if c > i {
                        assert(av.contains(req[i as int]));
                    }
                }
                return Err(RenderError::SkinNotFound(requested[i].clone()));
            },
        }
        i = i + 1;
    }
    proof {
        if exists|c: int| is_first_missing(req, av, c) {
            let c = choose|c: int| is_first_missing(req, av, c);
            assert(av[out@[c] as int] == req[c]);
        }
    }
    Ok(out)
}

/// Stacking two skins fails on a missing second skin, and names it, even
/// where the first one exists.
pub proof fn lemma_missing_second_skin(req: Seq<Seq<char>>, av: Seq<Seq<char>>)
    requires
        req.len() == 2,
        av.contains(req[0]),
        !av.contains(req[1]),
    ensures
        skin_error(req, av) == Some(req[1]),
{
    assert(is_first_missing(req, av, 1));
    let c = choose|c: int| is_first_missing(req, av, c);
    assert(c == 1);
}

/// The position of the requested animation among the available ones, or
/// `AnimationNotFound` naming it.
pub fn resolve_animation(animation: &String, available: &Vec<String>) -> (r: Result<usize, RenderError>)
    ensures
        r is Err <==> !names(available@).contains(animation@),
        r is Err ==> r->Err_0 is AnimationNotFound && r->Err_0->AnimationNotFound_0@ == animation@,
        r is Ok ==> r->Ok_0 < available@.len() && available@[r->Ok_0 as int]@ == animation@,
{
    match find_name(animation, available) {
        Some(j) => {
            proof {
                assert(names(available@)[j as int] == animation@);
            }
            Ok(j)
        },
        None => Err(RenderError::AnimationNotFound(animation.clone())),
    }
}

/// What one render is asked to produce. Times are whole milliseconds, the
/// scale is in thousandths.
#[derive(Debug)]
pub struct RenderRequest {
    pub actor_slug: String,
    /// Skins to stack, the base one first.
    pub skins: Vec<String>,
    pub animation: String,
    pub scale_milli: u32,
    pub antialiasing: u32,
    pub start_time_ms: u32,
    pub end_time_ms: u32,
    pub fps: u32,
    pub background_colour: CommonColour,
    pub slot_colours: Vec<SlotColour>,
    pub only_head: bool,
    pub petpet: bool,
    pub flip: Flip,
    pub custom_size: CustomSize,
    pub top_text: Option<TextParameters>,
    pub bottom_text: Option<TextParameters>,
}

/// Whether slot `name` is drawn at all.
pub open spec fn spec_should_draw_slot(only_head: bool, name: Seq<char>) -> bool {
    !only_head || regex_matches(HEAD_SLOTS@, name)
}

/// How slot `name` is drawn: hidden where it is not drawn at all, which wins
/// over a colour override; tinted where one is given; otherwise as it is.
pub open spec fn spec_slot_style(only_head: bool, list: Seq<SlotColour>, name: Seq<char>) -> SlotStyle {
    if !spec_should_draw_slot(only_head, name) {
        SlotStyle::Hidden
    } else {
        match colour_for(list, name) {
            Some(c) => SlotStyle::Tinted(c),
            None => SlotStyle::Normal,
        }
    }
}

/// The antialiasing factor: the requested one, or 1 where none is given.
pub open spec fn spec_aa_factor(antialiasing: u32) -> int {
    if antialiasing == 0 { 1 } else { antialiasing as int }
}

/// The rescale, in thousandths, that antialiasing asks for: the factor
/// times a thousand, at most `u32::MAX`.
pub open spec fn spec_aa_rescale(antialiasing: u32) -> int {
    let r = spec_aa_factor(antialiasing) * 1000;
    if r > u32::MAX as int { u32::MAX as int } else { r }
}

impl RenderRequest {
    pub fn aa_factor(&self) -> (r: u32)
        ensures
            r == spec_aa_factor(self.antialiasing),
    {
        if self.antialiasing == 0 { 1 } else { self.antialiasing }
    }

    /// The pose's scale on each axis (thousandths) for the internal render,
    /// which is the antialiasing factor times the requested size.
    pub fn render_scale(&self) -> (r: (i64, i64))
        ensures
            r.1 == self.scale_milli as int * spec_aa_rescale(self.antialiasing) / 1000,
            r.0 == (match self.flip {
                Flip::NoFlip => r.1 as int,
                Flip::Horizontal => -r.1,
            }),
    {
        let f = self.aa_factor() as u64 * 1000;
        let rescale = if f > u32::MAX as u64 { u32::MAX } else { f as u32 };
        self.get_scale(rescale)
    }

    /// Microseconds between frames.
    pub fn frame_delay(&self) -> (r: u64)
        requires
            self.fps > 0,
        ensures
            r == spec_frame_delay_us(self.fps as int),
    {
        frame_delay_us(self.fps)
    }

    pub fn frame_count(&self) -> (r: u32)
        requires
            self.fps > 0,
        ensures
            r == spec_frame_count(self.start_time_ms as int, self.end_time_ms as int, self.fps as int),
    {
        frame_count(self.start_time_ms, self.end_time_ms, self.fps)
    }

    pub fn should_draw_slot(&self, slot_name: &str) -> (r: bool)
        ensures
            r == spec_should_draw_slot(self.only_head, slot_name@),
    {
        !self.only_head || regex_is_match(HEAD_SLOTS, slot_name)
    }

    fn slot_colour(&self, slot_name: &String) -> (r: Option<CommonColour>)
        ensures
            r == colour_for(self.slot_colours@, slot_name@),
    {
        let ghost list = self.slot_colours@;
        let mut i: usize = self.slot_colours.len();
        assert(list.subrange(0, list.len() as int) =~= list);
        while i > 0
            invariant
                list == self.slot_colours@,
                0 <= i <= list.len(),
                colour_for(list, slot_name@) == colour_for(list.subrange(0, i as int), slot_name@),
            decreases i,
        {
            let ghost prefix = list.subrange(0, i as int);
            assert(prefix.last() == list[i - 1]);
            assert(prefix.drop_last() =~= list.subrange(0, i - 1));
            if same_name(&self.slot_colours[i - 1].slot, slot_name) {
                return Some(self.slot_colours[i - 1].colour);
            }
            i = i - 1;
        }
        None
    }

    pub fn slot_style(&self, slot_name: &String) -> (r: SlotStyle)
        ensures
            r == spec_slot_style(self.only_head, self.slot_colours@, slot_name@),
    {
        if !self.should_draw_slot(slot_name.as_str()) {
            SlotStyle::Hidden
        } else {
            match self.slot_colour(slot_name) {
                Some(c) => SlotStyle::Tinted(c),
                None => SlotStyle::Normal,
            }
        }
    }

    /// The pose's scale on each axis, in thousandths, for a render at
    /// `rescale_milli` thousandths of the requested size; a horizontal flip
    /// mirrors the x axis.
    pub fn get_scale(&self, rescale_milli: u32) -> (r: (i64, i64))
        ensures
            r.1 == self.scale_milli as int * rescale_milli as int / 1000,
            r.0 == (match self.flip {
                Flip::NoFlip => r.1 as int,
                Flip::Horizontal => -r.1,
            }),
    {
        proof {
            assert(self.scale_milli as int * rescale_milli as int <= u32::MAX as int * u32::MAX as int) by (nonlinear_arith)
                requires self.scale_milli <= u32::MAX, rescale_milli <= u32::MAX, self.scale_milli >= 0, rescale_milli >= 0;
            assert(0 <= self.scale_milli as int * rescale_milli as int) by (nonlinear_arith)
                requires self.scale_milli >= 0, rescale_milli >= 0;
        }
        let s = (self.scale_milli as u64 * rescale_milli as u64 / 1000) as i64;
        match self.flip {
            Flip::NoFlip => (s, s),
            Flip::Horizontal => (-s, s),
        }
    }
}

} // verus!
