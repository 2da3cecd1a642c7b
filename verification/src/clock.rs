//! Time between successive frames.

use vstd::prelude::*;

verus! {

/// The monotonic instant of the last frame and the time that passed between
/// the last two, both in nanoseconds.
#[derive(Clone, Copy, Debug)]
pub struct FrameClock {
    pub last_timestamp: Option<u64>,
    pub delta: Option<i128>,
}

impl FrameClock {
    /// A delta is known only once a frame has been seen.
    pub open spec fn valid(self) -> bool {
        self.delta is Some ==> self.last_timestamp is Some
    }

    /// The clock after a frame at instant `now`.
    pub open spec fn ticked(self, now: u64) -> FrameClock {
        FrameClock {
            last_timestamp: Some(now),
            delta: match self.last_timestamp {
                Some(previous) => Some((now - previous) as i128),
                None => self.delta,
            },
        }
    }

    /// A clock that has seen no frame.
    pub fn new() -> (c: FrameClock)
        ensures
            c.last_timestamp is None,
            c.delta is None,
            c.valid(),
    {
        FrameClock { last_timestamp: None, delta: None }
    }

    /// Records a frame at instant `now`: the delta becomes the time since the
    /// previous frame, if there was one, and `now` becomes the last instant.
    pub fn tick_at(&mut self, now: u64)
        ensures
            *final(self) == old(self).ticked(now),
            final(self).valid(),
    {
        if let Some(previous) = self.last_timestamp {
            let elapsed: i128 = now as i128 - previous as i128;
            self.delta = Some(elapsed);
        }
        self.last_timestamp = Some(now);
    }

    /// Records a frame at the current reading of the monotonic clock.
    pub fn tick(&mut self) -> (now: u64)
        ensures
            *final(self) == old(self).ticked(now),
            final(self).valid(),
    {
        let now: u64 = monotonic_nanos();
        self.tick_at(now);
        now
    }

    /// Nanoseconds between the last two frames, or `None` before the second
    /// frame.
    pub fn delta_nanos(&self) -> (d: Option<i128>)
        ensures
            d == self.delta,
    {
        self.delta
    }
}

/// The delta is absent exactly on the first frame after a start: a clock that
/// has seen no frame has none after its first tick, and after the second it
/// has the time between the two.
pub proof fn lemma_delta_is_absent_exactly_on_first_frame(
    clock: FrameClock,
    first: u64,
    second: u64,
)
    requires
        clock.valid(),
    ensures
        clock.ticked(first).delta is None <==> clock.last_timestamp is None,
        clock.ticked(first).ticked(second).delta == Some((second - first) as i128),
        clock.ticked(first).valid(),
{
}

/// `time::precise_time_ns`: the monotonic clock of the machine, in nanoseconds
/// since an epoch that the `time` crate leaves open. Nothing is claimed of the
/// value read.
#[verifier::external_body]
pub(crate) fn monotonic_nanos() -> (now: u64) {
    time::precise_time_ns()
}

} // verus!
