//! A timer that fires at a frequency of its own while it is running.
use vstd::prelude::*;

verus! {

/// A timer that accumulates the time it is given and fires once per period.
#[derive(Debug, Clone, Copy)]
pub struct Timer {
    /// The period, in microseconds.
    pub tick: u32,
    /// The microseconds accumulated since the timer last fired.
    pub acc: u32,
}

impl Timer {
    /// The period in microseconds of a frequency of `hz`, where it is at
    /// least one microsecond long: for `0 < hz < 1_000_000`.
    pub open spec fn spec_hertz_to_us(hz: u32) -> Option<u32> {
        if 0 < hz < 1000000 {
            Some((1000000int / hz as int) as u32)
        } else {
            None
        }
    }

    /// A timer that fires `hz` times per second, or `None` where
    /// `hertz_to_us` gives no period.
    pub fn new(hz: u32) -> (timer: Option<Self>)
        ensures
            match Self::spec_hertz_to_us(hz) {
                Some(tick) => timer == Some(Timer { tick, acc: 0 }),
                None => timer is None,
            },
    {
        match Self::hertz_to_us(hz) {
            Some(tick) => Some(Timer { tick, acc: 0 }),
            None => None,
        }
    }

    /// While `state` holds, adds `add` microseconds and says whether a period
    /// is complete; what exceeds the period is kept. While it does not, the
    /// timer is reset.
    pub fn update(&mut self, state: bool, add: u32) -> (fired: bool)
        requires
            state ==> old(self).acc + add <= u32::MAX,
        ensures
            final(self).tick == old(self).tick,
            fired == (state && old(self).acc + add >= old(self).tick),
            final(self).acc == if !state {
                0
            } else if fired {
                old(self).acc + add - old(self).tick
            } else {
                old(self).acc + add
            },
    {
        if state {
            self.acc += add;
            if self.acc >= self.tick {
                self.acc -= self.tick;
                true
            } else {
                false
            }
        } else {
            self.acc = 0;
            false
        }
    }

    #[verifier::when_used_as_spec(spec_hertz_to_us)]
    pub fn hertz_to_us(hz: u32) -> (us: Option<u32>)
        ensures
            us == Self::spec_hertz_to_us(hz),
    {
        if hz > 0 && hz < 1000000 {
            Some(1000000 / hz)
        } else {
            None
        }
    }
}

} // verus!
