//! How many frames a render has, when each one is stamped, and when the
//! frame loop stops.
//!
//! Request times are whole milliseconds; frame times are microseconds.

use vstd::prelude::*;
use crate::frame::HandleFrameError;
use crate::geometry::ceil_div;

verus! {

pub const MICROS_PER_SECOND: u64 = 1_000_000;

pub const MILLIS_PER_SECOND: u64 = 1_000;

/// Microseconds between two frames at `fps` frames per second (rounded down).
pub open spec fn spec_frame_delay_us(fps: int) -> int {
    MICROS_PER_SECOND as int / fps
}

/// Number of frames covering `[start_ms, end_ms]` at `fps`:
/// one for an empty window, `ceil(duration / (1 / fps))` otherwise, none for
/// a reversed window, and never more than `u32::MAX`.
pub open spec fn spec_frame_count(start_ms: int, end_ms: int, fps: int) -> int {
    if end_ms == start_ms {
        1
    } else if end_ms < start_ms {
        0
    } else {
        let n = ceil_div((end_ms - start_ms) * fps, MILLIS_PER_SECOND as int);
        if n > u32::MAX as int { u32::MAX as int } else { n }
    }
}

/// Time since the start of the render at which frame `n` is taken, in
/// microseconds (rounded down): `n / fps` seconds.
pub open spec fn spec_timestamp_us(n: int, fps: int) -> int {
    n * MICROS_PER_SECOND as int / fps
}

pub fn frame_delay_us(fps: u32) -> (r: u64)
    requires
        fps > 0,
    ensures
        r == spec_frame_delay_us(fps as int),
{
    MICROS_PER_SECOND / (fps as u64)
}

pub fn frame_count(start_ms: u32, end_ms: u32, fps: u32) -> (r: u32)
    requires
        fps > 0,
    ensures
        r == spec_frame_count(start_ms as int, end_ms as int, fps as int),
{
    if end_ms == start_ms {
        1
    } else if end_ms < start_ms {
        0
    } else {
        let d = (end_ms - start_ms) as u64;
        proof {
            assert(d * (fps as u64) <= u32::MAX as u64 * u32::MAX as u64) by (nonlinear_arith)
                requires d <= u32::MAX, fps <= u32::MAX;
        }
        let n = (d * (fps as u64) + (MILLIS_PER_SECOND - 1)) / MILLIS_PER_SECOND;
        if n > u32::MAX as u64 { u32::MAX } else { n as u32 }
    }
}

pub fn timestamp_us(n: u32, fps: u32) -> (r: u64)
    requires
        fps > 0,
    ensures
        r == spec_timestamp_us(n as int, fps as int),
{
    proof {
        assert((n as u64) * MICROS_PER_SECOND <= u32::MAX as u64 * MICROS_PER_SECOND) by (nonlinear_arith)
            requires n <= u32::MAX;
    }
    (n as u64) * MICROS_PER_SECOND / (fps as u64)
}

/// The number and time stamp of the next frame to render.
#[derive(Debug, Clone, Copy, PartialEq, Eq)]
pub struct FrameStamp {
    pub frame_number: u32,
    pub timestamp_us: u64,
}

/// The render loop's decisions: which frame comes next, and whether the
/// chain's answer for the last one ends the loop.
pub struct FrameSchedule {
    frame_count: u32,
    fps: u32,
    next: u32,
    stopped: bool,
    emitted: Ghost<Seq<u32>>,
}

impl FrameSchedule {
    pub closed spec fn count(&self) -> nat {
        self.frame_count as nat
    }

    pub closed spec fn rate(&self) -> int {
        self.fps as int
    }

    /// Number of frames handed out so far.
    pub closed spec fn position(&self) -> nat {
        self.next as nat
    }

    pub closed spec fn is_stopped(&self) -> bool {
        self.stopped
    }

    /// The frame numbers handed out so far, in order.
    pub closed spec fn emitted(&self) -> Seq<u32> {
        self.emitted@
    }

    pub closed spec fn wf(&self) -> bool {
        &&& self.fps > 0
        &&& self.next <= self.frame_count
        &&& self.emitted@ == Seq::new(self.next as nat, |i: int| i as u32)
    }

    pub fn new(frame_count: u32, fps: u32) -> (r: FrameSchedule)
        requires
            fps > 0,
        ensures
            r.wf(),
            r.count() == frame_count,
            r.rate() == fps,
            r.position() == 0,
            !r.is_stopped(),
            r.emitted() == Seq::<u32>::empty(),
    {
        let r = FrameSchedule {
            frame_count,
            fps,
            next: 0,
            stopped: false,
            emitted: Ghost(Seq::empty()),
        };
        assert(r.emitted@ =~= Seq::new(0, |i: int| i as u32));
        r
    }

    /// Hands out the next frame, or `None` once every frame was handed out or
    /// the chain failed permanently.
    pub fn next_frame(&mut self) -> (r: Option<FrameStamp>)
        requires
            old(self).wf(),
        ensures
            final(self).wf(),
            final(self).count() == old(self).count(),
            final(self).rate() == old(self).rate(),
            final(self).is_stopped() == old(self).is_stopped(),
            old(self).is_stopped() || old(self).position() == old(self).count() ==> {
                &&& r is None
                &&& final(self).position() == old(self).position()
                &&& final(self).emitted() == old(self).emitted()
            },
            !old(self).is_stopped() && old(self).position() < old(self).count() ==> {
                &&& r == Some(FrameStamp {
                    frame_number: old(self).position() as u32,
                    timestamp_us: spec_timestamp_us(old(self).position() as int, old(self).rate()) as u64,
                })
                &&& final(self).position() == old(self).position() + 1
                &&& final(self).emitted() == old(self).emitted().push(old(self).position() as u32)
            },
            // Without a permanent failure the frame numbers handed out are
            // exactly 0, 1, ..., frame_count - 1.
            r is None && !old(self).is_stopped() ==>
                final(self).emitted() == Seq::new(old(self).count(), |i: int| i as u32),
    {
        if self.stopped || self.next >= self.frame_count {
            return None;
        }
        let n = self.next;
        let ts = timestamp_us(n, self.fps);
        self.next = n + 1;
        self.emitted = Ghost(self.emitted@.push(n));
        assert(self.emitted@ =~= Seq::new(self.next as nat, |i: int| i as u32));
        Some(FrameStamp { frame_number: n, timestamp_us: ts })
    }

    /// Takes the chain's answer for the frame just handed out: a permanent
    /// failure stops the loop, anything else lets it go on.
    pub fn record(&mut self, result: &Result<(), HandleFrameError>)
        requires
            old(self).wf(),
        ensures
            final(self).wf(),
            final(self).count() == old(self).count(),
            final(self).rate() == old(self).rate(),
            final(self).position() == old(self).position(),
            final(self).emitted() == old(self).emitted(),
            final(self).is_stopped() == (old(self).is_stopped()
                || *result == Err::<(), HandleFrameError>(HandleFrameError::PermanentError)),
    {
        match result {
            Err(HandleFrameError::PermanentError) => {
                self.stopped = true;
            },
            _ => {},
        }
    }

    /// The frame count and position stay within `u32`.
    pub proof fn lemma_within_u32(&self)
        requires
            self.wf(),
        ensures
            self.position() <= self.count() <= u32::MAX,
            0 < self.rate() <= u32::MAX,
    {
    }

    pub fn is_stopped_now(&self) -> (r: bool)
        ensures
            r == self.is_stopped(),
    {
        self.stopped
    }
}

/// For a valid request (the window not reversed, the count within `u32`):
/// one frame for an empty window, otherwise `ceil(duration / (1 / fps))`.
pub proof fn lemma_frame_count_law(start_ms: int, end_ms: int, fps: int)
    requires
        fps > 0,
        start_ms <= end_ms,
        ceil_div((end_ms - start_ms) * fps, MILLIS_PER_SECOND as int) <= u32::MAX,
    ensures
        start_ms == end_ms ==> spec_frame_count(start_ms, end_ms, fps) == 1,
        start_ms < end_ms ==> spec_frame_count(start_ms, end_ms, fps) == ceil_div(
            (end_ms - start_ms) * fps,
            MILLIS_PER_SECOND as int,
        ),
{
}

} // verus!
