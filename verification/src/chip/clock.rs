//! The clock: the delay after each step, and the 60 Hz tick that the timers
//! count down by.
use super::error::Error;
use vstd::prelude::*;

verus! {

/// The time between two ticks of the timers, in microseconds.
pub const MACRO_TICK: u32 = 16666;

/// The delay after each step, in microseconds, of a machine that executes
/// `hertz` instructions per second.
pub open spec fn step_delay(hertz: u32) -> u32 {
    (1000000int / hertz as int) as u32
}

/// Whether a machine can execute `hertz` instructions per second: at least
/// as many as the timers tick, and at most one per microsecond.
pub open spec fn valid_speed(hertz: u32) -> bool {
    60 <= hertz <= 1000000
}

/// A clock that turns the delays after the steps into ticks of the timers.
/// It keeps what is left of the delays after each tick, so that the timers
/// do not drift.
#[derive(Debug, Clone, Copy)]
pub struct Clock {
    delay: u32,
    acc: u32,
}

impl Clock {
    /// The delay is at most one tick of the timers, and less than one tick
    /// has accumulated. This holds of every clock that runs through
    /// executable code.
    #[verifier::type_invariant]
    pub closed spec fn wf(&self) -> bool {
        1 <= self.delay <= MACRO_TICK && self.acc < MACRO_TICK
    }

    /// The delay after each step, in microseconds.
    pub closed spec fn period(&self) -> u32 {
        self.delay
    }

    /// The microseconds that have accumulated since the last tick of the
    /// timers.
    pub closed spec fn elapsed(&self) -> u32 {
        self.acc
    }

    /// Whether the timers tick when the delay of the next step has passed.
    pub open spec fn fires(&self) -> bool {
        self.elapsed() + self.period() >= MACRO_TICK
    }

    /// Whether `after` is this clock when the delay of one more step has
    /// passed: the delay is accumulated, less one tick of the timers where
    /// they tick.
    pub open spec fn ticks_to(&self, after: Clock) -> bool {
        &&& after.period() == self.period()
        &&& after.elapsed() == (self.elapsed() + self.period()) % (MACRO_TICK as int)
    }

    /// The bounds that `wf` sets.
    pub proof fn lemma_wf(&self)
        requires
            self.wf(),
        ensures
            1 <= self.period() <= MACRO_TICK,
            self.elapsed() < MACRO_TICK,
    {
    }

    /// A clock for `hertz` steps per second, or `InvalidClockSpeed` where the
    /// speed is out of range.
    pub fn new(hertz: u32) -> (clock: Result<Self, Error>)
        ensures
            match clock {
                Ok(clock) => valid_speed(hertz) && clock.period() == step_delay(hertz)
                    && clock.elapsed() == 0,
                Err(error) => !valid_speed(hertz) && error == Error::InvalidClockSpeed(hertz),
            },
    {
        if hertz >= 60 && hertz <= 1000000 {
            assert(1 <= 1000000int / hertz as int <= 16666) by (nonlinear_arith)
                requires
                    60 <= hertz <= 1000000,
            ;
            Ok(Clock { delay: 1000000 / hertz, acc: 0 })
        } else {
            Err(Error::InvalidClockSpeed(hertz))
        }
    }

    /// The delay after each step, in microseconds.
    pub fn delay(&mut self) -> (delay: u32)
        ensures
            delay == old(self).period(),
            1 <= delay <= MACRO_TICK,
            *final(self) == *old(self),
    {
        proof {
            use_type_invariant(&*self);
        }
        self.delay
    }

    /// Lets the delay of one step pass, and says whether the timers tick.
    pub fn tick(&mut self) -> (fired: bool)
        ensures
            fired == old(self).fires(),
            old(self).ticks_to(*final(self)),
    {
        proof {
            use_type_invariant(&*self);
        }
        let acc = self.acc + self.delay;
        if acc >= MACRO_TICK {
            self.acc = acc - MACRO_TICK;
            true
        } else {
            self.acc = acc;
            false
        }
    }
}

impl Default for Clock {
    /// A clock for 2000 steps per second.
    fn default() -> (clock: Self)
        ensures
            clock.period() == 500,
            clock.elapsed() == 0,
    {
        Clock { delay: 500, acc: 0 }
    }
}

} // verus!
