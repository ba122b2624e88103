//! The recrop stage: buffers the whole sequence, finds the smallest rectangle
//! that holds every pixel with non-zero alpha in any frame, and on teardown
//! replays every frame cropped to it.

use vstd::prelude::*;
use crate::frame::{frame_wf, Frame, FrameHandler, HandleFrameError, RenderMetadata};
use crate::geometry::{lemma_tight_insert, lemma_tight_single, max_int, min_int, tight_bounds};

verus! {

/// Whether pixel `(x, y)` of a `w`-pixel-wide RGBA8 buffer has non-zero alpha.
pub open spec fn opaque_at(data: Seq<u8>, w: int, x: int, y: int) -> bool {
    data[(y * w + x) * 4 + 3] != 0
}

/// The pixels of a `w` x `h` frame whose alpha is not zero.
pub open spec fn frame_points(f: Frame, w: int, h: int) -> Set<(int, int)> {
    Set::new(|p: (int, int)| 0 <= p.0 < w && 0 <= p.1 < h && opaque_at(f.pixel_data@, w, p.0, p.1))
}

/// The pixels with non-zero alpha in any frame of a sequence.
pub open spec fn sequence_points(frames: Seq<Frame>, w: int, h: int) -> Set<(int, int)> {
    Set::new(
        |p: (int, int)|
            exists|i: int| 0 <= i < frames.len() && #[trigger] frame_points(frames[i], w, h).contains(p),
    )
}

/// The pixels of `f` with non-zero alpha that a row-major scan reaches
/// before pixel `(x, y)`.
pub open spec fn scanned_points(f: Frame, w: int, h: int, y: int, x: int) -> Set<(int, int)> {
    Set::new(
        |p: (int, int)|
            0 <= p.0 < w && 0 <= p.1 < h && opaque_at(f.pixel_data@, w, p.0, p.1) && (p.1 < y || (
            p.1 == y && p.0 < x)),
    )
}

/// An inclusive rectangle of pixels: columns `left..=right`, rows `top..=bottom`.
#[derive(Debug, Clone, Copy, PartialEq, Eq)]
pub struct CropRect {
    pub left: usize,
    pub top: usize,
    pub right: usize,
    pub bottom: usize,
}

pub open spec fn crop_tight(c: Option<CropRect>, pts: Set<(int, int)>) -> bool {
    match c {
        None => pts == Set::<(int, int)>::empty(),
        Some(c) => tight_bounds(c.left as int, c.top as int, c.right as int, c.bottom as int, pts),
    }
}

pub open spec fn rect_width(c: CropRect) -> int {
    c.right - c.left + 1
}

pub open spec fn rect_height(c: CropRect) -> int {
    c.bottom - c.top + 1
}

/// A rectangle that lies inside a `w` x `h` frame.
pub open spec fn rect_within(c: CropRect, w: int, h: int) -> bool {
    c.left <= c.right < w && c.top <= c.bottom < h
}

/// The bytes of the first `rows` rows of `c`, cut out of a `w`-pixel-wide
/// RGBA8 buffer, row after row.
pub open spec fn spec_crop(data: Seq<u8>, w: int, c: CropRect, rows: int) -> Seq<u8>
    decreases rows,
{
    if rows <= 0 {
        Seq::empty()
    } else {
        let y = c.top + rows - 1;
        spec_crop(data, w, c, rows - 1) + data.subrange((y * w + c.left) * 4, (y * w + c.right + 1) * 4)
    }
}

proof fn lemma_pixel_index(x: int, y: int, w: int, h: int)
    requires
        0 <= x < w,
        0 <= y < h,
    ensures
        0 <= (y * w + x) * 4 + 3 < w * h * 4,
        (y * w + x + 1) * 4 <= w * h * 4,
        0 <= y * w,
{
    assert(y * w + x + 1 <= (y + 1) * w) by (nonlinear_arith)
        requires x < w;
    assert((y + 1) * w <= h * w) by (nonlinear_arith)
        requires y + 1 <= h, 0 <= w;
    assert(0 <= y * w) by (nonlinear_arith)
        requires 0 <= y, 0 <= w;
    assert(h * w == w * h) by (nonlinear_arith);
}

/// Grows a rectangle to take in pixel `(x, y)`.
fn extend_crop(c: Option<CropRect>, x: usize, y: usize, Ghost(pts): Ghost<Set<(int, int)>>) -> (r: Option<CropRect>)
    ensures
        crop_tight(c, pts) ==> crop_tight(r, pts.insert((x as int, y as int))),
        r is Some,
{
    match c {
        None => {
            proof {
                lemma_tight_single(x as int, y as int);
            }
            proof {
                if crop_tight(c, pts) {
                    assert(pts.insert((x as int, y as int)) =~= Set::empty().insert((x as int, y as int)));
                }
            }
            Some(CropRect { left: x, top: y, right: x, bottom: y })
        },
        Some(c) => {
            proof {
                if crop_tight(Some(c), pts) {
                    lemma_tight_insert(c.left as int, c.top as int, c.right as int, c.bottom as int, pts, x as int, y as int);
                }
            }
            let n = CropRect {
                left: if x < c.left { x } else { c.left },
                top: if y < c.top { y } else { c.top },
                right: if x > c.right { x } else { c.right },
                bottom: if y > c.bottom { y } else { c.bottom },
            };
            assert(n.left as int == min_int(c.left as int, x as int));
            assert(n.right as int == max_int(c.right as int, x as int));
            Some(n)
        },
    }
}

/// The rectangle of a tight set of in-frame points lies in the frame.
proof fn lemma_tight_within(c: CropRect, pts: Set<(int, int)>, w: int, h: int)
    requires
        crop_tight(Some(c), pts),
        forall|p: (int, int)| #[trigger] pts.contains(p) ==> 0 <= p.0 < w && 0 <= p.1 < h,
    ensures
        rect_within(c, w, h),
{
    let a = choose|p: (int, int)| #[trigger] pts.contains(p) && p.0 == c.left as int;
    let b = choose|p: (int, int)| #[trigger] pts.contains(p) && p.1 == c.top as int;
    let d = choose|p: (int, int)| #[trigger] pts.contains(p) && p.0 == c.right as int;
    let e = choose|p: (int, int)| #[trigger] pts.contains(p) && p.1 == c.bottom as int;
}

/// Cuts rectangle `c` out of a frame `width` pixels wide. The frame number
/// and time stamp are kept.
pub fn crop_frame(frame: &Frame, width: usize, height: usize, c: CropRect) -> (r: Frame)
    requires
        frame.pixel_data@.len() == width * height * 4,
        rect_within(c, width as int, height as int),
        width <= u32::MAX,
        height <= u32::MAX,
    ensures
        r.frame_number == frame.frame_number,
        r.timestamp_us == frame.timestamp_us,
        r.width == rect_width(c),
        r.height == rect_height(c),
        r.pixel_data@ == spec_crop(frame.pixel_data@, width as int, c, rect_height(c)),
        frame_wf(r),
{
    let ghost data = frame.pixel_data@;
    let len = frame.pixel_data.len();
    let mut out: Vec<u8> = Vec::new();
    let mut y: usize = c.top;
    while y <= c.bottom
        invariant
            data == frame.pixel_data@,
            data.len() == width * height * 4,
            len == data.len(),
            rect_within(c, width as int, height as int),
            width <= u32::MAX,
            height <= u32::MAX,
            c.top <= y <= c.bottom + 1,
            out@ == spec_crop(data, width as int, c, y - c.top),
            out@.len() == (y - c.top) * rect_width(c) * 4,
        decreases c.bottom + 1 - y,
    {
        proof {
            lemma_pixel_index(c.left as int, y as int, width as int, height as int);
            lemma_pixel_index(c.right as int, y as int, width as int, height as int);
        }
        let start = (y * width + c.left) * 4;
        let end = (y * width + c.right + 1) * 4;
        let ghost before = out@;
        let mut i: usize = start;
        while i < end
            invariant
                data == frame.pixel_data@,
                data.len() == width * height * 4,
                start <= i <= end,
                end <= data.len(),
                out@ == before + data.subrange(start as int, i as int),
            decreases end - i,
        {
            out.push(frame.pixel_data[i]);
            assert(data.subrange(start as int, i + 1) =~= data.subrange(start as int, i as int).push(data[i as int]));
            i = i + 1;
        }
        proof {
            assert(end - start == rect_width(c) * 4);
            assert((y + 1 - c.top) * rect_width(c) * 4 == (y - c.top) * rect_width(c) * 4 + rect_width(c) * 4) by (nonlinear_arith);
        }
        y = y + 1;
    }
    proof {
        assert(rect_width(c) <= width && rect_height(c) <= height);
        assert(rect_height(c) * rect_width(c) * 4 == rect_width(c) * rect_height(c) * 4) by (nonlinear_arith);
    }
    Frame {
        frame_number: frame.frame_number,
        pixel_data: out,
        width: (c.right - c.left + 1) as u32,
        height: (c.bottom - c.top + 1) as u32,
        timestamp_us: frame.timestamp_us,
    }
}

/// `c` is the whole of a `w` x `h` frame.
pub open spec fn is_full_rect(c: CropRect, w: int, h: int) -> bool {
    c.left == 0 && c.top == 0 && c.right + 1 == w && c.bottom + 1 == h
}

proof fn lemma_full_rows(data: Seq<u8>, w: int, h: int, c: CropRect, k: int)
    requires
        is_full_rect(c, w, h),
        data.len() == w * h * 4,
        0 <= k <= h,
    ensures
        spec_crop(data, w, c, k) == data.subrange(0, k * w * 4),
    decreases k,
{
    if k == 0 {
        assert(k * w * 4 == 0) by (nonlinear_arith)
            requires k == 0;
        assert(data.subrange(0, 0) =~= Seq::<u8>::empty());
    } else {
        lemma_full_rows(data, w, h, c, k - 1);
        assert((k - 1) * w * 4 + w * 4 == k * w * 4) by (nonlinear_arith);
        assert(k * w * 4 <= h * w * 4) by (nonlinear_arith)
            requires k <= h, w >= 1;
        assert(((k - 1) * w + 0) * 4 == (k - 1) * w * 4) by (nonlinear_arith);
        assert(((k - 1) * w + (w - 1) + 1) * 4 == k * w * 4) by (nonlinear_arith);
        assert(0 <= (k - 1) * w * 4) by (nonlinear_arith)
            requires k >= 1, w >= 1;
        assert(h * w * 4 == w * h * 4) by (nonlinear_arith);
        let y = c.top + k - 1;
        assert(y == k - 1);
        assert((y * w + c.left) * 4 == (k - 1) * w * 4);
        assert((y * w + c.right + 1) * 4 == k * w * 4);
        assert(spec_crop(data, w, c, k) == spec_crop(data, w, c, k - 1) + data.subrange(
            (y * w + c.left) * 4,
            (y * w + c.right + 1) * 4,
        ));
        assert(data.subrange(0, (k - 1) * w * 4) + data.subrange((k - 1) * w * 4, k * w * 4)
            =~= data.subrange(0, k * w * 4));
    }
}

/// Cropping to the whole frame changes nothing: a sequence whose opaque
/// pixels already touch all four borders comes out of the recrop stage as it
/// went in.
pub proof fn lemma_full_crop_is_identity(data: Seq<u8>, w: int, h: int, c: CropRect)
    requires
        is_full_rect(c, w, h),
        data.len() == w * h * 4,
    ensures
        spec_crop(data, w, c, rect_height(c)) == data,
{
    lemma_full_rows(data, w, h, c, h);
    assert(h * w * 4 == w * h * 4) by (nonlinear_arith);
    assert(data.subrange(0, h * w * 4) =~= data);
}

/// A frame that a stage declared `md` accepts: the declared size, and a pixel
/// buffer of that size.
pub open spec fn frame_fits(md: RenderMetadata, f: Frame) -> bool {
    f.width as int == md.frame_width as int && f.height as int == md.frame_height as int && frame_wf(f)
}

/// The metadata announced downstream once the sequence is cropped to `c`.
pub open spec fn spec_cropped_metadata(md: RenderMetadata, c: CropRect) -> RenderMetadata {
    RenderMetadata { frame_width: rect_width(c) as usize, frame_height: rect_height(c) as usize, ..md }
}

pub fn cropped_metadata(md: RenderMetadata, c: CropRect) -> (r: RenderMetadata)
    requires
        c.left <= c.right < md.frame_width,
        c.top <= c.bottom < md.frame_height,
    ensures
        r == spec_cropped_metadata(md, c),
{
    RenderMetadata {
        frame_count: md.frame_count,
        frame_delay_us: md.frame_delay_us,
        frame_width: c.right - c.left + 1,
        frame_height: c.bottom - c.top + 1,
    }
}

proof fn lemma_sequence_push(frames: Seq<Frame>, f: Frame, w: int, h: int)
    ensures
        sequence_points(frames.push(f), w, h) == sequence_points(frames, w, h).union(frame_points(f, w, h)),
{
    let a = sequence_points(frames.push(f), w, h);
    let b = sequence_points(frames, w, h).union(frame_points(f, w, h));
    assert forall|p: (int, int)| a.contains(p) implies #[trigger] b.contains(p) by {
        let i = choose|i: int| 0 <= i < frames.push(f).len() && #[trigger] frame_points(frames.push(f)[i], w, h).contains(p);
        if i < frames.len() {
            assert(frames.push(f)[i] == frames[i]);
            assert(sequence_points(frames, w, h).contains(p));
        }
    }
    assert forall|p: (int, int)| b.contains(p) implies #[trigger] a.contains(p) by {
        if frame_points(f, w, h).contains(p) {
            assert(frames.push(f)[frames.len() as int] == f);
            assert(frame_points(frames.push(f)[frames.len() as int], w, h).contains(p));
        } else {
            let i = choose|i: int| 0 <= i < frames.len() && #[trigger] frame_points(frames[i], w, h).contains(p);
            assert(frames.push(f)[i] == frames[i]);
            assert(frame_points(frames.push(f)[i], w, h).contains(p));
        }
    }
    assert(a =~= b);
}

/// Holds every frame until teardown, tracking the smallest rectangle that
/// contains every pixel with non-zero alpha in any of them.
pub struct Recropper<FH: FrameHandler> {
    frames: Vec<Frame>,
    metadata: Option<RenderMetadata>,
    crop: Option<CropRect>,
    frame_handler: FH,
    declared: Ghost<Seq<RenderMetadata>>,
    forwarded: Ghost<Seq<Frame>>,
    answers: Ghost<Seq<Result<(), HandleFrameError>>>,
}

/// `out` is `f` cut to `c` out of a frame `w` pixels wide, with its number
/// and time stamp.
pub open spec fn is_crop_of(out: Frame, f: Frame, w: int, c: CropRect) -> bool {
    &&& out.frame_number == f.frame_number
    &&& out.timestamp_us == f.timestamp_us
    &&& out.width as int == rect_width(c)
    &&& out.height as int == rect_height(c)
    &&& out.pixel_data@ == spec_crop(f.pixel_data@, w, c, rect_height(c))
}

impl<FH: FrameHandler> Recropper<FH> {
    /// The frames buffered so far, in arrival order.
    pub closed spec fn frames(&self) -> Seq<Frame> {
        self.frames@
    }

    pub closed spec fn metadata(&self) -> Option<RenderMetadata> {
        self.metadata
    }

    /// The crop rectangle tracked so far.
    pub closed spec fn crop(&self) -> Option<CropRect> {
        self.crop
    }

    /// The metadata declared to the next stage so far.
    pub closed spec fn declared(&self) -> Seq<RenderMetadata> {
        self.declared@
    }

    /// The frames handed to the next stage so far, in order.
    pub closed spec fn forwarded(&self) -> Seq<Frame> {
        self.forwarded@
    }

    /// The next stage's answer to each forwarded frame.
    pub closed spec fn answers(&self) -> Seq<Result<(), HandleFrameError>> {
        self.answers@
    }

    /// Whether nothing reached the next stage between `pre` and `post`.
    pub open spec fn quiet(pre: Self, post: Self) -> bool {
        &&& post.declared() == pre.declared()
        &&& post.forwarded() == pre.forwarded()
        &&& post.answers() == pre.answers()
    }

    /// What teardown did, from `pre` to `post`, having declared `announced`:
    /// it declared the crop rectangle's size (the declared size where no
    /// pixel was visible), then handed on the buffered frames in arrival
    /// order, each cut to the rectangle (whole where no pixel was visible),
    /// going on through any answer but a permanent failure.
    pub open spec fn replayed(pre: Self, post: Self, announced: Option<RenderMetadata>) -> bool {
        let n = pre.frames().len();
        let f0 = pre.forwarded().len();
        let a0 = pre.answers().len();
        let k = post.forwarded().len() - f0;
        &&& post.frames().len() == 0
        &&& post.forwarded().len() >= f0
        &&& post.forwarded().subrange(0, f0 as int) == pre.forwarded()
        &&& post.answers().len() == a0 + k
        &&& post.answers().subrange(0, a0 as int) == pre.answers()
        &&& announced is None ==> post.declared() == pre.declared()
        &&& announced is Some ==> post.declared() == pre.declared().push(announced->0)
        &&& pre.metadata() is None ==> announced is None && k == 0
        &&& pre.wf() && pre.metadata() is Some ==> {
            let md = pre.metadata()->0;
            let w = md.frame_width as int;
            let h = md.frame_height as int;
            &&& crop_tight(pre.crop(), sequence_points(pre.frames(), w, h))
            &&& announced == (match pre.crop() {
                Some(c) => Some(spec_cropped_metadata(md, c)),
                None => Some(md),
            })
            &&& k <= n
            &&& forall|i: int| 0 <= i < k ==> (match pre.crop() {
                Some(c) => is_crop_of(#[trigger] post.forwarded()[f0 + i], pre.frames()[i], w, c),
                None => post.forwarded()[f0 + i] == pre.frames()[i],
            })
            &&& forall|i: int| 0 <= i < k - 1 ==> #[trigger] post.answers()[a0 + i] != Err::<(), HandleFrameError>(HandleFrameError::PermanentError)
            &&& k < n ==> k > 0 && post.answers()[a0 + k - 1] == Err::<(), HandleFrameError>(HandleFrameError::PermanentError)
        }
    }

    pub closed spec fn wf(&self) -> bool {
        match self.metadata {
            None => self.frames@.len() == 0 && self.crop is None,
            Some(md) => {
                &&& forall|i: int| 0 <= i < self.frames@.len() ==> frame_fits(md, #[trigger] self.frames@[i])
                &&& crop_tight(self.crop, sequence_points(self.frames@, md.frame_width as int, md.frame_height as int))
            },
        }
    }

    /// The tracked rectangle lies inside the declared frame size.
    proof fn lemma_crop_within(&self)
        requires
            self.wf(),
        ensures
            self.metadata is Some && self.crop is Some ==> rect_within(
                self.crop->0,
                self.metadata->0.frame_width as int,
                self.metadata->0.frame_height as int,
            ),
            self.metadata is Some && self.crop is Some ==> self.metadata->0.frame_width <= u32::MAX
                && self.metadata->0.frame_height <= u32::MAX,
    {
        if let Some(md) = self.metadata {
            if let Some(c) = self.crop {
                let pts = sequence_points(self.frames@, md.frame_width as int, md.frame_height as int);
                assert forall|p: (int, int)| #[trigger] pts.contains(p) implies 0 <= p.0 < md.frame_width
                    && 0 <= p.1 < md.frame_height by {
                    let i = choose|i: int| 0 <= i < self.frames@.len()
                        && #[trigger] frame_points(self.frames@[i], md.frame_width as int, md.frame_height as int).contains(p);
                }
                lemma_tight_within(c, pts, md.frame_width as int, md.frame_height as int);
                let p = choose|p: (int, int)| #[trigger] pts.contains(p) && p.0 == c.left as int;
                let i = choose|i: int| 0 <= i < self.frames@.len()
                    && #[trigger] frame_points(self.frames@[i], md.frame_width as int, md.frame_height as int).contains(p);
                assert(frame_fits(md, self.frames@[i]));
            }
        }
    }

    pub fn new(frame_handler: FH) -> (r: Recropper<FH>)
        ensures
            r.wf(),
            r.frames().len() == 0,
            r.metadata() is None,
            r.declared().len() == 0 && r.forwarded().len() == 0 && r.answers().len() == 0,
    {
        Recropper {
            frames: Vec::new(),
            metadata: None,
            crop: None,
            frame_handler,
            declared: Ghost(Seq::empty()),
            forwarded: Ghost(Seq::empty()),
            answers: Ghost(Seq::empty()),
        }
    }

    /// Takes the declared metadata. Only the first declaration counts: the
    /// chain's protocol declares it once.
    pub fn accept_metadata(&mut self, metadata: RenderMetadata)
        ensures
            old(self).wf() ==> final(self).wf(),
            Self::quiet(*old(self), *final(self)),
            final(self).frames() == old(self).frames(),
            old(self).metadata() is None ==> final(self).metadata() == Some(metadata),
            old(self).metadata() is Some ==> final(self).metadata() == old(self).metadata(),
    {
        if self.metadata.is_none() {
            self.metadata = Some(metadata);
            proof {
                if old(self).wf() {
                    assert(sequence_points(self.frames@, metadata.frame_width as int, metadata.frame_height as int)
                        =~= Set::<(int, int)>::empty());
                }
            }
        }
    }

    /// Buffers a frame and takes its opaque pixels into the crop rectangle.
    /// Without declared metadata the stage cannot work (`PermanentError`); a
    /// frame of another size than declared is dropped (`TemporaryError`).
    pub fn buffer_frame(&mut self, frame: Frame) -> (r: Result<(), HandleFrameError>)
        ensures
            old(self).wf() ==> final(self).wf(),
            Self::quiet(*old(self), *final(self)),
            final(self).metadata() == old(self).metadata(),
            old(self).metadata() is None ==> r == Err::<(), HandleFrameError>(HandleFrameError::PermanentError)
                && final(self).frames() == old(self).frames(),
            old(self).metadata() is Some && !frame_fits(old(self).metadata()->0, frame)
                ==> r == Err::<(), HandleFrameError>(HandleFrameError::TemporaryError)
                && final(self).frames() == old(self).frames(),
            old(self).metadata() is Some && frame_fits(old(self).metadata()->0, frame)
                ==> r == Ok::<(), HandleFrameError>(()) && final(self).frames() == old(self).frames().push(frame),
    {
        let md = match self.metadata {
            None => return Err(HandleFrameError::PermanentError),
            Some(md) => md,
        };
        let w = md.frame_width;
        let h = md.frame_height;
        if !(frame.width as usize == w && frame.height as usize == h && frame.is_well_formed()) {
            return Err(HandleFrameError::TemporaryError);
        }
        let ghost start = sequence_points(self.frames@, w as int, h as int);
        let ghost data = frame.pixel_data@;
        let len = frame.pixel_data.len();
        let mut crop = self.crop;
        proof {
            assert(scanned_points(frame, w as int, h as int, 0, 0) =~= Set::<(int, int)>::empty());
            assert(start.union(scanned_points(frame, w as int, h as int, 0, 0)) =~= start);
        }
        let mut y: usize = 0;
        while y < h
            invariant
                data == frame.pixel_data@,
                data.len() == w * h * 4,
                len == data.len(),
                0 <= y <= h,
                crop_tight(self.crop, start) ==> crop_tight(crop, start.union(scanned_points(frame, w as int, h as int, y as int, 0))),
            decreases h - y,
        {
            let mut x: usize = 0;
            while x < w
                invariant
                    data == frame.pixel_data@,
                    data.len() == w * h * 4,
                    len == data.len(),
                    0 <= y < h,
                    0 <= x <= w,
                    crop_tight(self.crop, start) ==> crop_tight(crop, start.union(scanned_points(frame, w as int, h as int, y as int, x as int))),
                decreases w - x,
            {
                proof {
                    lemma_pixel_index(x as int, y as int, w as int, h as int);
                }
                let ghost before = start.union(scanned_points(frame, w as int, h as int, y as int, x as int));
                let ghost s0 = scanned_points(frame, w as int, h as int, y as int, x as int);
                let ghost s1 = scanned_points(frame, w as int, h as int, y as int, x + 1);
                if frame.pixel_data[(y * w + x) * 4 + 3] != 0 {
                    crop = extend_crop(crop, x, y, Ghost(before));
                    proof {
                        assert(s1 =~= s0.insert((x as int, y as int)));
                        assert(before.insert((x as int, y as int)) =~= start.union(s1));
                    }
                } else {
                    proof {
                        assert(s1 =~= s0);
                    }
                }
                x = x + 1;
            }
            proof {
                assert(scanned_points(frame, w as int, h as int, y as int, w as int)
                    =~= scanned_points(frame, w as int, h as int, y + 1, 0));
            }
            y = y + 1;
        }
        proof {
            assert(scanned_points(frame, w as int, h as int, h as int, 0) =~= frame_points(frame, w as int, h as int));
            lemma_sequence_push(self.frames@, frame, w as int, h as int);
        }
        self.frames.push(frame);
        self.crop = crop;
        Ok(())
    }

    /// The smallest rectangle holding every pixel with non-zero alpha in any
    /// buffered frame; `None` while there is no such pixel.
    pub fn crop_rect(&self) -> (r: Option<CropRect>)
        requires
            self.wf(),
        ensures
            r == self.crop(),
            self.metadata() is Some ==> crop_tight(
                r,
                sequence_points(
                    self.frames(),
                    self.metadata()->0.frame_width as int,
                    self.metadata()->0.frame_height as int,
                ),
            ),
            self.metadata() is Some && r is Some ==> rect_within(
                r->0,
                self.metadata()->0.frame_width as int,
                self.metadata()->0.frame_height as int,
            ),
    {
        proof {
            self.lemma_crop_within();
        }
        self.crop
    }

    /// Teardown: declares the cropped size downstream, then sends every
    /// buffered frame cut to the crop rectangle, in arrival order, until the
    /// next stage fails permanently; then tears the next stage down. Where no
    /// pixel was ever visible the frames go on whole. Returns the metadata
    /// declared downstream.
    pub fn replay(&mut self) -> (r: Option<RenderMetadata>)
        ensures
            final(self).wf(),
            Self::replayed(*old(self), *final(self), r),
    {
        let ghost pre_wf = old(self).wf();
        proof {
            if pre_wf {
                self.lemma_crop_within();
            }
        }
        let ghost f0 = self.forwarded@.len();
        let ghost a0 = self.answers@.len();
        let mut frames: Vec<Frame> = Vec::new();
        std::mem::swap(&mut frames, &mut self.frames);
        let ghost orig = frames@;
        let crop = self.crop;
        self.crop = None;
        let metadata = self.metadata;
        self.metadata = None;
        let mut announced: Option<RenderMetadata> = None;
        if let Some(md) = metadata {
            let w = md.frame_width;
            let h = md.frame_height;
            match crop {
                Some(c) => {
                    if c.left <= c.right && c.right < w && c.top <= c.bottom && c.bottom < h
                        && w <= u32::MAX as usize && h <= u32::MAX as usize {
                        let cropped = cropped_metadata(md, c);
                        announced = Some(cropped);
                        self.frame_handler.set_metadata(cropped);
                        self.declared = Ghost(self.declared@.push(cropped));
                        let mut i: usize = 0;
                        let mut stopped = false;
                        assert(self.forwarded@.subrange(0, f0 as int) =~= old(self).forwarded@);
                        assert(self.answers@.subrange(0, a0 as int) =~= old(self).answers@);
                        while i < frames.len() && !stopped
                            invariant
                                frames@ == orig,
                                orig == old(self).frames@,
                                pre_wf == old(self).wf(),
                                pre_wf ==> forall|j: int| 0 <= j < orig.len() ==> frame_fits(md, #[trigger] orig[j]),
                                old(self).metadata == Some(md),
                                w == md.frame_width,
                                h == md.frame_height,
                                old(self).crop == Some(c),
                                self.declared@ == old(self).declared@.push(cropped),
                                announced == Some(cropped),
                                cropped == spec_cropped_metadata(md, c),
                                self.frames@.len() == 0,
                                self.metadata is None,
                                self.crop is None,
                                c.left <= c.right < w,
                                c.top <= c.bottom < h,
                                w <= u32::MAX,
                                h <= u32::MAX,
                                0 <= i <= orig.len(),
                                f0 == old(self).forwarded@.len(),
                                a0 == old(self).answers@.len(),
                                self.forwarded@.len() == f0 + i,
                                self.answers@.len() == a0 + i,
                                self.forwarded@.subrange(0, f0 as int) == old(self).forwarded@,
                                self.answers@.subrange(0, a0 as int) == old(self).answers@,
                                forall|j: int| 0 <= j < i ==> is_crop_of(#[trigger] self.forwarded@[f0 + j], orig[j], w as int, c),
                                forall|j: int| 0 <= j < i - 1 ==> #[trigger] self.answers@[a0 + j] != Err::<(), HandleFrameError>(HandleFrameError::PermanentError),
                                !stopped && i > 0 ==> self.answers@[a0 + i - 1] != Err::<(), HandleFrameError>(HandleFrameError::PermanentError),
                                stopped && pre_wf ==> i > 0 && self.answers@[a0 + i - 1] == Err::<(), HandleFrameError>(HandleFrameError::PermanentError),
                            decreases orig.len() - i + (if stopped { 0int } else { 1int }),
                        {
                            let f = &frames[i];
                            let whole = f.is_well_formed();
                            if f.width == w as u32 && f.height == h as u32 && whole {
                                let out = crop_frame(f, w, h, c);
                                let ghost g = out;
                                let answer = self.frame_handler.handle_frame(out);
                                let ghost fw = self.forwarded@;
                                let ghost aw = self.answers@;
                                self.forwarded = Ghost(fw.push(g));
                                self.answers = Ghost(aw.push(answer));
                                proof {
                                    assert(self.forwarded@.subrange(0, f0 as int) =~= fw.subrange(0, f0 as int));
                                    assert(self.answers@.subrange(0, a0 as int) =~= aw.subrange(0, a0 as int));
                                    assert(self.forwarded@[f0 + i] == g);
                                }
                                match answer {
                                    Err(HandleFrameError::PermanentError) => {
                                        stopped = true;
                                    },
                                    _ => {},
                                }
                                i = i + 1;
                            } else {
                                assert(*f == orig[i as int]);
                                assert(pre_wf ==> frame_fits(md, orig[i as int]));
                                assert(!pre_wf);
                                stopped = true;
                            }
                        }
                    }
                },
                None => {
                    // Nothing visible to crop against: the frames go on whole.
                    announced = Some(md);
                    self.frame_handler.set_metadata(md);
                    self.declared = Ghost(self.declared@.push(md));
                    let mut stopped = false;
                    let ghost mut i: int = 0;
                    assert(self.forwarded@.subrange(0, f0 as int) =~= old(self).forwarded@);
                    assert(self.answers@.subrange(0, a0 as int) =~= old(self).answers@);
                    assert(frames@ =~= orig.subrange(0, orig.len() as int));
                    while frames.len() > 0 && !stopped
                        invariant
                            orig == old(self).frames@,
                            old(self).metadata == Some(md),
                            old(self).crop is None,
                            0 <= i <= orig.len(),
                            frames@ == orig.subrange(i, orig.len() as int),
                            self.declared@ == old(self).declared@.push(md),
                            announced == Some(md),
                            self.frames@.len() == 0,
                            self.metadata is None,
                            self.crop is None,
                            f0 == old(self).forwarded@.len(),
                            a0 == old(self).answers@.len(),
                            self.forwarded@.len() == f0 + i,
                            self.answers@.len() == a0 + i,
                            self.forwarded@.subrange(0, f0 as int) == old(self).forwarded@,
                            self.answers@.subrange(0, a0 as int) == old(self).answers@,
                            forall|j: int| 0 <= j < i ==> #[trigger] self.forwarded@[f0 + j] == orig[j],
                            forall|j: int| 0 <= j < i - 1 ==> #[trigger] self.answers@[a0 + j] != Err::<(), HandleFrameError>(HandleFrameError::PermanentError),
                            !stopped && i > 0 ==> self.answers@[a0 + i - 1] != Err::<(), HandleFrameError>(HandleFrameError::PermanentError),
                            stopped ==> i > 0 && self.answers@[a0 + i - 1] == Err::<(), HandleFrameError>(HandleFrameError::PermanentError),
                        decreases frames.len(),
                    {
                        let f = frames.remove(0);
                        assert(f == orig[i]);
                        let ghost g = f;
                        let answer = self.frame_handler.handle_frame(f);
                        let ghost fw = self.forwarded@;
                        let ghost aw = self.answers@;
                        self.forwarded = Ghost(fw.push(g));
                        self.answers = Ghost(aw.push(answer));
                        proof {
                            assert(self.forwarded@.subrange(0, f0 as int) =~= fw.subrange(0, f0 as int));
                            assert(self.answers@.subrange(0, a0 as int) =~= aw.subrange(0, a0 as int));
                            assert(frames@ =~= orig.subrange(i + 1, orig.len() as int));
                            i = i + 1;
                        }
                        match answer {
                            Err(HandleFrameError::PermanentError) => {
                                stopped = true;
                            },
                            _ => {},
                        }
                    }
                },
            }
        }
        self.frame_handler.finish();
        proof {
            assert(self.forwarded@.subrange(0, f0 as int) =~= old(self).forwarded@);
            assert(self.answers@.subrange(0, a0 as int) =~= old(self).answers@);
        }
        announced
    }
}

impl<FH: FrameHandler> FrameHandler for Recropper<FH> {
    fn set_metadata(&mut self, metadata: RenderMetadata)
        ensures
            old(self).wf() ==> final(self).wf(),
            Self::quiet(*old(self), *final(self)),
            final(self).frames() == old(self).frames(),
            old(self).metadata() is None ==> final(self).metadata() == Some(metadata),
            old(self).metadata() is Some ==> final(self).metadata() == old(self).metadata(),
    {
        self.accept_metadata(metadata);
    }

    /// Buffers the frame; nothing reaches the next stage before teardown.
    fn handle_frame(&mut self, frame: Frame) -> (r: Result<(), HandleFrameError>)
        ensures
            old(self).wf() ==> final(self).wf(),
            Self::quiet(*old(self), *final(self)),
            final(self).metadata() == old(self).metadata(),
            old(self).metadata() is None ==> r == Err::<(), HandleFrameError>(HandleFrameError::PermanentError)
                && final(self).frames() == old(self).frames(),
            old(self).metadata() is Some && !frame_fits(old(self).metadata()->0, frame)
                ==> r == Err::<(), HandleFrameError>(HandleFrameError::TemporaryError)
                && final(self).frames() == old(self).frames(),
            old(self).metadata() is Some && frame_fits(old(self).metadata()->0, frame)
                ==> r == Ok::<(), HandleFrameError>(()) && final(self).frames() == old(self).frames().push(frame),
    {
        self.buffer_frame(frame)
    }

    fn finish(&mut self)
        ensures
            final(self).wf(),
            exists|a: Option<RenderMetadata>| Self::replayed(*old(self), *final(self), a),
    {
        let a = self.replay();
        assert(Self::replayed(*old(self), *self, a));
    }
}

} // verus!
