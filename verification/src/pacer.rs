use vstd::prelude::*;

verus! {

/// Gates the render bridge to a fixed tick interval, independent of how
/// often the reactor wakes. Times are nanoseconds read from a monotone
/// clock by the embedding process and handed in as plain values.
pub struct FramePacer {
    /// Length of one frame interval, in nanoseconds.
    pub interval: u64,
    /// Clock reading at the most recent produced tick.
    pub last_tick: u64,
}

impl FramePacer {
    pub open spec fn interval(self) -> u64 {
        self.interval
    }

    pub open spec fn last_tick(self) -> u64 {
        self.last_tick
    }

    /// One pacing decision: the pacer after a poll at time `now`, and
    /// whether a tick is due. A tick is due when at least one interval has
    /// elapsed since the last tick; the clock then resets to `now` itself,
    /// never to `last_tick + interval`, so a long delay yields a single
    /// tick (frame skipping, not batching).
    pub open spec fn spec_poll(self, now: u64) -> (FramePacer, bool) {
        if now - self.last_tick >= self.interval {
            (FramePacer { interval: self.interval, last_tick: now }, true)
        } else {
            (self, false)
        }
    }

    pub fn new(interval: u64) -> (p: FramePacer)
        ensures
            p.interval() == interval,
            p.last_tick() == 0,
    {
        FramePacer { interval, last_tick: 0 }
    }

    /// Decide whether a frame tick is due at time `now`. At most one tick
    /// is produced per call, regardless of how much time has elapsed.
    pub fn poll(&mut self, now: u64) -> (tick: bool)
        requires
            old(self).last_tick() <= now,
        ensures
            (*final(self), tick) == old(self).spec_poll(now),
            tick == (now - old(self).last_tick() >= old(self).interval()),
            tick ==> final(self).last_tick() == now,
            !tick ==> *final(self) == *old(self),
            final(self).interval() == old(self).interval(),
    {
        if now - self.last_tick >= self.interval {
            self.last_tick = now;
            true
        } else {
            false
        }
    }
}

/// A tick at time `n1` suppresses every further tick until a full interval
/// has elapsed beyond `n1`: there is no batched catch-up after a delay,
/// however long, only one tick per poll that observes one.
pub proof fn lemma_no_catch_up_tick(p: FramePacer, n1: u64, n2: u64)
    requires
        p.last_tick() <= n1 <= n2,
        p.spec_poll(n1).1,
        n2 - n1 < p.interval(),
    ensures
        !p.spec_poll(n1).0.spec_poll(n2).1,
{
}

} // verus!
