//! What the encoders decide for themselves: the delay written before each
//! animated-PNG frame.

use vstd::prelude::*;

verus! {

/// Why an encoder could not go on.
#[derive(Debug, Clone, PartialEq, Eq)]
pub enum RenderError {
    EncodeError(String),
}

/// `us` microseconds as whole milliseconds, rounded half up, at most
/// `u16::MAX`.
pub open spec fn spec_delay_ms(us: int) -> int {
    let ms = (us + 500) / 1000;
    if ms > u16::MAX as int { u16::MAX as int } else { ms }
}

pub fn delay_ms(us: u64) -> (r: u16)
    ensures
        r == spec_delay_ms(us as int),
{
    let ms = us / 1000 + if us % 1000 >= 500 { 1 } else { 0 };
    assert(ms == (us + 500) / 1000);
    if ms > u16::MAX as u64 { u16::MAX } else { ms as u16 }
}

/// The animated-PNG frame clock. The first frame's delay comes from the
/// declared frame delay; every later frame waits for the time since the
/// previous frame written.
pub struct ApngTiming {
    pub last_timestamp_us: u64,
}

impl ApngTiming {
    pub fn new() -> (r: ApngTiming)
        ensures
            r.last_timestamp_us == 0,
    {
        ApngTiming { last_timestamp_us: 0 }
    }

    /// The delay to declare before writing the frame `frame_number` taken at
    /// `timestamp_us`; `None` for the first frame, whose delay was declared
    /// with the header.
    pub fn delay_before(&self, frame_number: u32, timestamp_us: u64) -> (r: Option<u16>)
        ensures
            frame_number == 0 ==> r is None,
            frame_number != 0 ==> r == Some(spec_delay_ms(
                if timestamp_us >= self.last_timestamp_us { timestamp_us - self.last_timestamp_us } else { 0 },
            ) as u16),
    {
        if frame_number == 0 {
            None
        } else {
            let d = if timestamp_us >= self.last_timestamp_us { timestamp_us - self.last_timestamp_us } else { 0 };
            Some(delay_ms(d))
        }
    }

    /// Notes that the frame taken at `timestamp_us` was written.
    pub fn written(&mut self, timestamp_us: u64)
        ensures
            final(self).last_timestamp_us == timestamp_us,
    {
        self.last_timestamp_us = timestamp_us;
    }
}

} // verus!
