//! The capabilities. Each has an error type of its own. Of what an
//! implementation returns only this is asked: that a key is a number from
//! `0x0` to `0xF`. The engine is verified for every answer that a peripheral
//! can give.
//!
//! Beside each operation stands a relation of the same meaning, which an
//! implementation may define: what a call may do to the peripheral, and what
//! it may return. An implementation that defines none allows everything. The
//! relation asks nothing of an implementation, and lets code that hands a
//! call on say that it does.
use vstd::prelude::*;

verus! {

/// A source of delays.
pub trait DelayExt {
    type Error;

    /// Whether a call of `delay_micros` with `us` may turn this delay into
    /// `after` and return `done`.
    open spec fn delayed(&self, us: u32, after: &Self, done: Result<(), Self::Error>) -> bool {
        true
    }

    /// Pause execution for a number of microseconds
    fn delay_micros(&mut self, us: u32) -> (done: Result<(), Self::Error>)
        ensures
            old(self).delayed(us, &*final(self), done),
    ;
}

/// A monochrome display.
pub trait ScreenExt {
    type Error;

    /// Whether a call of `draw` with the sprite `data` at `(x, y)` may turn
    /// this screen into `after` and return `erased`.
    open spec fn drew(
        &self,
        x: u8,
        y: u8,
        data: Seq<u8>,
        after: &Self,
        erased: Result<bool, Self::Error>,
    ) -> bool {
        true
    }

    /// Whether a call of `clear` may turn this screen into `after` and return
    /// `done`.
    open spec fn cleared(&self, after: &Self, done: Result<(), Self::Error>) -> bool {
        true
    }

    /// XOR the [&\[u8\]](`u8`) into the current display starting at position
    /// `(x,y)`, then update the display. Returns a boolean indicating whether
    /// pixels were erased by this operation.
    fn draw(&mut self, x: u8, y: u8, data: &[u8]) -> (erased: Result<bool, Self::Error>)
        ensures
            old(self).drew(x, y, data@, &*final(self), erased),
    ;

    /// Clear the entire display
    fn clear(&mut self) -> (done: Result<(), Self::Error>)
        ensures
            old(self).cleared(&*final(self), done),
    ;
}

/// A keypad of sixteen keys, `0x0` to `0xF`.
pub trait KeypadExt {
    type Error;

    /// Whether a call of `key_is_pressed` may turn this keypad into `after`
    /// and return `pressed`.
    open spec fn polled(&self, after: &Self, pressed: Result<bool, Self::Error>) -> bool {
        true
    }

    /// Whether a call of `read_key` may turn this keypad into `after` and
    /// return `key`. What the call does with the delay is left open.
    open spec fn read(&self, after: &Self, key: Result<Option<u8>, Self::Error>) -> bool {
        true
    }

    /// Returns true if any key is pressed, false otherwise.
    fn key_is_pressed(&mut self) -> (pressed: Result<bool, Self::Error>)
        ensures
            old(self).polled(&*final(self), pressed),
    ;

    /// Try to determine which key is pressed (if any). A key is a number
    /// from `0x0` to `0xF`.
    fn read_key<D: DelayExt>(&mut self, delay: &mut D) -> (key: Result<Option<u8>, Self::Error>)
        ensures
            key matches Ok(Some(value)) ==> value < 16,
            old(self).read(&*final(self), key),
    ;
}

/// A buzzer with two states.
pub trait BuzzerExt {
    type Error;

    /// Whether a call of `set_state` with `state` may turn this buzzer into
    /// `after` and return `done`.
    open spec fn switched(&self, state: bool, after: &Self, done: Result<(), Self::Error>) -> bool {
        true
    }

    /// Set the state of the buzzer, true being on and false being off.
    fn set_state(&mut self, state: bool) -> (done: Result<(), Self::Error>)
        ensures
            old(self).switched(state, &*final(self), done),
    ;
}

/// A source of random bytes.
pub trait RngExt {
    type Error;

    /// Whether a call of `rand` may turn this generator into `after` and
    /// return `byte`.
    open spec fn gave(&self, after: &Self, byte: Result<u8, Self::Error>) -> bool {
        true
    }

    /// Generate a random byte
    fn rand(&mut self) -> (byte: Result<u8, Self::Error>)
        ensures
            old(self).gave(&*final(self), byte),
    ;
}

/// The peripherals of a machine, borrowed for a step.
pub struct Hardware<'a, Delay, Screen, Keypad, Buzzer, Rng> where
    Delay: DelayExt,
    Screen: ScreenExt,
    Keypad: KeypadExt,
    Buzzer: BuzzerExt,
    Rng: RngExt,
 {
    pub delay: &'a mut Delay,
    pub screen: &'a mut Screen,
    pub keypad: &'a mut Keypad,
    pub buzzer: &'a mut Buzzer,
    pub rng: &'a mut Rng,
}

/// A set of peripherals, one for each capability, that report their failures
/// in one error type.
pub trait HardwareExt where
    Self::Delay: DelayExt<Error = Self::Error>,
    Self::Screen: ScreenExt<Error = Self::Error>,
    Self::Keypad: KeypadExt<Error = Self::Error>,
    Self::Buzzer: BuzzerExt<Error = Self::Error>,
    Self::Rng: RngExt<Error = Self::Error>,
 {
    type Error;

    type Delay;

    type Screen;

    type Keypad;

    type Buzzer;

    type Rng;

    /// The delay of the set.
    spec fn spec_delay(&self) -> Self::Delay;

    /// The screen of the set.
    spec fn spec_screen(&self) -> Self::Screen;

    /// The keypad of the set.
    spec fn spec_keypad(&self) -> Self::Keypad;

    /// The buzzer of the set.
    spec fn spec_buzzer(&self) -> Self::Buzzer;

    /// The random number generator of the set.
    spec fn spec_rng(&self) -> Self::Rng;

    /// All peripherals at once: the peripherals of the set, which are what
    /// their users leave of them.
    fn hardware(&mut self) -> (hardware: Hardware<
        '_,
        Self::Delay,
        Self::Screen,
        Self::Keypad,
        Self::Buzzer,
        Self::Rng,
    >)
        ensures
            *hardware.delay == old(self).spec_delay(),
            *hardware.screen == old(self).spec_screen(),
            *hardware.keypad == old(self).spec_keypad(),
            *hardware.buzzer == old(self).spec_buzzer(),
            *hardware.rng == old(self).spec_rng(),
            *final(hardware.delay) == final(self).spec_delay(),
            *final(hardware.screen) == final(self).spec_screen(),
            *final(hardware.keypad) == final(self).spec_keypad(),
            *final(hardware.buzzer) == final(self).spec_buzzer(),
            *final(hardware.rng) == final(self).spec_rng(),
    ;

    /// The delay, to use it. The other peripherals stay as they are.
    fn delay(&mut self) -> (delay: &mut Self::Delay)
        ensures
            *delay == old(self).spec_delay(),
            *final(delay) == final(self).spec_delay(),
            final(self).spec_screen() == old(self).spec_screen(),
            final(self).spec_keypad() == old(self).spec_keypad(),
            final(self).spec_buzzer() == old(self).spec_buzzer(),
            final(self).spec_rng() == old(self).spec_rng(),
    {
        self.hardware().delay
    }

    /// The screen, to use it. The other peripherals stay as they are.
    fn screen(&mut self) -> (screen: &mut Self::Screen)
        ensures
            *screen == old(self).spec_screen(),
            *final(screen) == final(self).spec_screen(),
            final(self).spec_delay() == old(self).spec_delay(),
            final(self).spec_keypad() == old(self).spec_keypad(),
            final(self).spec_buzzer() == old(self).spec_buzzer(),
            final(self).spec_rng() == old(self).spec_rng(),
    {
        self.hardware().screen
    }

    /// The keypad, to use it. The other peripherals stay as they are.
    fn keypad(&mut self) -> (keypad: &mut Self::Keypad)
        ensures
            *keypad == old(self).spec_keypad(),
            *final(keypad) == final(self).spec_keypad(),
            final(self).spec_delay() == old(self).spec_delay(),
            final(self).spec_screen() == old(self).spec_screen(),
            final(self).spec_buzzer() == old(self).spec_buzzer(),
            final(self).spec_rng() == old(self).spec_rng(),
    {
        self.hardware().keypad
    }

    /// The buzzer, to use it. The other peripherals stay as they are.
    fn buzzer(&mut self) -> (buzzer: &mut Self::Buzzer)
        ensures
            *buzzer == old(self).spec_buzzer(),
            *final(buzzer) == final(self).spec_buzzer(),
            final(self).spec_delay() == old(self).spec_delay(),
            final(self).spec_screen() == old(self).spec_screen(),
            final(self).spec_keypad() == old(self).spec_keypad(),
            final(self).spec_rng() == old(self).spec_rng(),
    {
        self.hardware().buzzer
    }

    /// The random number generator, to use it. The other peripherals stay
    /// as they are.
    fn rng(&mut self) -> (rng: &mut Self::Rng)
        ensures
            *rng == old(self).spec_rng(),
            *final(rng) == final(self).spec_rng(),
            final(self).spec_delay() == old(self).spec_delay(),
            final(self).spec_screen() == old(self).spec_screen(),
            final(self).spec_keypad() == old(self).spec_keypad(),
            final(self).spec_buzzer() == old(self).spec_buzzer(),
    {
        self.hardware().rng
    }
}

} // verus!
