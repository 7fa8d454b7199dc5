use vstd::prelude::*;

verus! {

/// Wall-clock interval between `last` and `now`; 0 on the first frame or when time runs back.
pub open spec fn delta_spec(last: Option<u64>, now: u64) -> u64 {
    match last {
        None => 0,
        Some(t) => if now >= t {
            (now - t) as u64
        } else {
            0
        },
    }
}

/// Turns the caller's wall-clock readings (milliseconds) into per-frame deltas.
#[derive(Debug)]
pub struct FrameClock {
    last: Option<u64>,
}

impl FrameClock {
    pub closed spec fn last_tick(&self) -> Option<u64> {
        self.last
    }

    pub fn new() -> (r: FrameClock)
        ensures
            r.last_tick() == None::<u64>,
    {
        FrameClock { last: None }
    }

    /// Milliseconds since the previous tick; the first tick returns 0.
    pub fn tick(&mut self, now_ms: u64) -> (delta: u64)
        ensures
            delta == delta_spec(old(self).last_tick(), now_ms),
            final(self).last_tick() == Some(now_ms),
    {
        let delta: u64 = match self.last {
            None => 0,
            Some(t) => if now_ms >= t {
                now_ms - t
            } else {
                0
            },
        };
        self.last = Some(now_ms);
        delta
    }
}

} // verus!
