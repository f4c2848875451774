//! A bundle of any five peripherals. Each is wrapped so that its failures
//! come out in one error type, tagged with the capability that failed.
use super::hal::{BuzzerExt, DelayExt, Hardware, HardwareExt, KeypadExt, RngExt, ScreenExt};
use core::marker::PhantomData;
use core::ops::{Deref, DerefMut};
use vstd::prelude::*;

verus! {

/// The error of a peripheral, tagged with the capability that it belongs to.
pub enum GenericHardwareError<Delay, Screen, Keypad, Buzzer, Rng> where
    Delay: DelayExt,
    Screen: ScreenExt,
    Keypad: KeypadExt,
    Buzzer: BuzzerExt,
    Rng: RngExt,
 {
    Delay(Delay::Error),
    Screen(Screen::Error),
    Keypad(Keypad::Error),
    Buzzer(Buzzer::Error),
    Rng(Rng::Error),
}

impl<Delay, Screen, Keypad, Buzzer, Rng> GenericHardwareError<
    Delay,
    Screen,
    Keypad,
    Buzzer,
    Rng,
> where Delay: DelayExt, Screen: ScreenExt, Keypad: KeypadExt, Buzzer: BuzzerExt, Rng: RngExt {
    /// The answer of a delay, with its error tagged `Delay`.
    pub fn delay<T>(answer: Result<T, Delay::Error>) -> (tagged: Result<T, Self>)
        ensures
            tagged == match answer {
                Ok(value) => Ok::<T, Self>(value),
                Err(error) => Err(GenericHardwareError::Delay(error)),
            },
    {
        match answer {
            Ok(value) => Ok(value),
            Err(error) => Err(GenericHardwareError::Delay(error)),
        }
    }

    /// The answer of a screen, with its error tagged `Screen`.
    pub fn screen<T>(answer: Result<T, Screen::Error>) -> (tagged: Result<T, Self>)
        ensures
            tagged == match answer {
                Ok(value) => Ok::<T, Self>(value),
                Err(error) => Err(GenericHardwareError::Screen(error)),
            },
    {
        match answer {
            Ok(value) => Ok(value),
            Err(error) => Err(GenericHardwareError::Screen(error)),
        }
    }

    /// The answer of a keypad, with its error tagged `Keypad`.
    pub fn keypad<T>(answer: Result<T, Keypad::Error>) -> (tagged: Result<T, Self>)
        ensures
            tagged == match answer {
                Ok(value) => Ok::<T, Self>(value),
                Err(error) => Err(GenericHardwareError::Keypad(error)),
            },
    {
        match answer {
            Ok(value) => Ok(value),
            Err(error) => Err(GenericHardwareError::Keypad(error)),
        }
    }

    /// The answer of a buzzer, with its error tagged `Buzzer`.
    pub fn buzzer<T>(answer: Result<T, Buzzer::Error>) -> (tagged: Result<T, Self>)
        ensures
            tagged == match answer {
                Ok(value) => Ok::<T, Self>(value),
                Err(error) => Err(GenericHardwareError::Buzzer(error)),
            },
    {
        match answer {
            Ok(value) => Ok(value),
            Err(error) => Err(GenericHardwareError::Buzzer(error)),
        }
    }

    /// The answer of a rng, with its error tagged `Rng`.
    pub fn rng<T>(answer: Result<T, Rng::Error>) -> (tagged: Result<T, Self>)
        ensures
            tagged == match answer {
                Ok(value) => Ok::<T, Self>(value),
                Err(error) => Err(GenericHardwareError::Rng(error)),
            },
    {
        match answer {
            Ok(value) => Ok(value),
            Err(error) => Err(GenericHardwareError::Rng(error)),
        }
    }
}

/// A delay whose errors are tagged `Delay`.
pub struct DelayWrapper<Delay, Screen, Keypad, Buzzer, Rng> where
    Delay: DelayExt,
    Screen: ScreenExt,
    Keypad: KeypadExt,
    Buzzer: BuzzerExt,
    Rng: RngExt,
 {
    inner: Delay,
    _marker: (
        PhantomData<Delay>,
        PhantomData<Screen>,
        PhantomData<Keypad>,
        PhantomData<Buzzer>,
        PhantomData<Rng>,
    ),
}

impl<Delay, Screen, Keypad, Buzzer, Rng> DelayWrapper<
    Delay,
    Screen,
    Keypad,
    Buzzer,
    Rng,
> where Delay: DelayExt, Screen: ScreenExt, Keypad: KeypadExt, Buzzer: BuzzerExt, Rng: RngExt {
    /// The wrapped peripheral.
    pub closed spec fn peripheral(&self) -> Delay {
        self.inner
    }

    fn new(inner: Delay) -> (wrapper: Self)
        ensures
            wrapper.peripheral() == inner,
    {
        DelayWrapper {
            inner,
            _marker: (PhantomData, PhantomData, PhantomData, PhantomData, PhantomData),
        }
    }
}

impl<Delay, Screen, Keypad, Buzzer, Rng> Deref for DelayWrapper<
    Delay,
    Screen,
    Keypad,
    Buzzer,
    Rng,
> where Delay: DelayExt, Screen: ScreenExt, Keypad: KeypadExt, Buzzer: BuzzerExt, Rng: RngExt {
    type Target = Delay;

    fn deref(&self) -> (inner: &Delay)
        ensures
            *inner == self.peripheral(),
    {
        &self.inner
    }
}

impl<Delay, Screen, Keypad, Buzzer, Rng> DerefMut for DelayWrapper<
    Delay,
    Screen,
    Keypad,
    Buzzer,
    Rng,
> where Delay: DelayExt, Screen: ScreenExt, Keypad: KeypadExt, Buzzer: BuzzerExt, Rng: RngExt {
    fn deref_mut(&mut self) -> (inner: &mut Delay)
        ensures
            *inner == old(self).peripheral(),
            *final(inner) == final(self).peripheral(),
    {
        &mut self.inner
    }
}

impl<Delay, Screen, Keypad, Buzzer, Rng> DelayExt for DelayWrapper<
    Delay,
    Screen,
    Keypad,
    Buzzer,
    Rng,
> where Delay: DelayExt, Screen: ScreenExt, Keypad: KeypadExt, Buzzer: BuzzerExt, Rng: RngExt {
    type Error = GenericHardwareError<Delay, Screen, Keypad, Buzzer, Rng>;

    /// The wrapped delay is called with `us`; its answer is returned, an
    /// error tagged `Delay`.
    open spec fn delayed(&self, us: u32, after: &Self, done: Result<(), Self::Error>) -> bool {
        match done {
            Ok(value) => self.peripheral().delayed(us, &after.peripheral(), Ok(value)),
            Err(GenericHardwareError::Delay(error)) => self.peripheral().delayed(
                us,
                &after.peripheral(),
                Err(error),
            ),
            Err(_) => false,
        }
    }

    /// Hands the call on to the wrapped peripheral, and tags its answer.
    fn delay_micros(&mut self, us: u32) -> (answer: Result<(), Self::Error>)
        ensures
            old(self).delayed(us, &*final(self), answer),
            answer matches Err(error) ==> error is Delay,
    {
        GenericHardwareError::delay(self.inner.delay_micros(us))
    }
}

/// A screen whose errors are tagged `Screen`.
pub struct ScreenWrapper<Delay, Screen, Keypad, Buzzer, Rng> where
    Delay: DelayExt,
    Screen: ScreenExt,
    Keypad: KeypadExt,
    Buzzer: BuzzerExt,
    Rng: RngExt,
 {
    inner: Screen,
    _marker: (
        PhantomData<Delay>,
        PhantomData<Screen>,
        PhantomData<Keypad>,
        PhantomData<Buzzer>,
        PhantomData<Rng>,
    ),
}

impl<Delay, Screen, Keypad, Buzzer, Rng> ScreenWrapper<
    Delay,
    Screen,
    Keypad,
    Buzzer,
    Rng,
> where Delay: DelayExt, Screen: ScreenExt, Keypad: KeypadExt, Buzzer: BuzzerExt, Rng: RngExt {
    /// The wrapped peripheral.
    pub closed spec fn peripheral(&self) -> Screen {
        self.inner
    }

    fn new(inner: Screen) -> (wrapper: Self)
        ensures
            wrapper.peripheral() == inner,
    {
        ScreenWrapper {
            inner,
            _marker: (PhantomData, PhantomData, PhantomData, PhantomData, PhantomData),
        }
    }
}

impl<Delay, Screen, Keypad, Buzzer, Rng> Deref for ScreenWrapper<
    Delay,
    Screen,
    Keypad,
    Buzzer,
    Rng,
> where Delay: DelayExt, Screen: ScreenExt, Keypad: KeypadExt, Buzzer: BuzzerExt, Rng: RngExt {
    type Target = Screen;

    fn deref(&self) -> (inner: &Screen)
        ensures
            *inner == self.peripheral(),
    {
        &self.inner
    }
}

impl<Delay, Screen, Keypad, Buzzer, Rng> DerefMut for ScreenWrapper<
    Delay,
    Screen,
    Keypad,
    Buzzer,
    Rng,
> where Delay: DelayExt, Screen: ScreenExt, Keypad: KeypadExt, Buzzer: BuzzerExt, Rng: RngExt {
    fn deref_mut(&mut self) -> (inner: &mut Screen)
        ensures
            *inner == old(self).peripheral(),
            *final(inner) == final(self).peripheral(),
    {
        &mut self.inner
    }
}

impl<Delay, Screen, Keypad, Buzzer, Rng> ScreenExt for ScreenWrapper<
    Delay,
    Screen,
    Keypad,
    Buzzer,
    Rng,
> where Delay: DelayExt, Screen: ScreenExt, Keypad: KeypadExt, Buzzer: BuzzerExt, Rng: RngExt {
    type Error = GenericHardwareError<Delay, Screen, Keypad, Buzzer, Rng>;

    /// The wrapped screen is called with the same sprite and place; its
    /// answer is returned, an error tagged `Screen`.
    open spec fn drew(
        &self,
        x: u8,
        y: u8,
        data: Seq<u8>,
        after: &Self,
        erased: Result<bool, Self::Error>,
    ) -> bool {
        match erased {
            Ok(value) => self.peripheral().drew(x, y, data, &after.peripheral(), Ok(value)),
            Err(GenericHardwareError::Screen(error)) => self.peripheral().drew(
                x,
                y,
                data,
                &after.peripheral(),
                Err(error),
            ),
            Err(_) => false,
        }
    }

    /// The wrapped screen is called; its answer is returned, an error tagged
    /// `Screen`.
    open spec fn cleared(&self, after: &Self, done: Result<(), Self::Error>) -> bool {
        match done {
            Ok(value) => self.peripheral().cleared(&after.peripheral(), Ok(value)),
            Err(GenericHardwareError::Screen(error)) => self.peripheral().cleared(
                &after.peripheral(),
                Err(error),
            ),
            Err(_) => false,
        }
    }

    /// Hands the call on to the wrapped peripheral, and tags its answer.
    fn draw(&mut self, x: u8, y: u8, data: &[u8]) -> (answer: Result<bool, Self::Error>)
        ensures
            old(self).drew(x, y, data@, &*final(self), answer),
            answer matches Err(error) ==> error is Screen,
    {
        GenericHardwareError::screen(self.inner.draw(x, y, data))
    }

    /// Hands the call on to the wrapped peripheral, and tags its answer.
    fn clear(&mut self) -> (answer: Result<(), Self::Error>)
        ensures
            old(self).cleared(&*final(self), answer),
            answer matches Err(error) ==> error is Screen,
    {
        GenericHardwareError::screen(self.inner.clear())
    }
}

/// A keypad whose errors are tagged `Keypad`.
pub struct KeypadWrapper<Delay, Screen, Keypad, Buzzer, Rng> where
    Delay: DelayExt,
    Screen: ScreenExt,
    Keypad: KeypadExt,
    Buzzer: BuzzerExt,
    Rng: RngExt,
 {
    inner: Keypad,
    _marker: (
        PhantomData<Delay>,
        PhantomData<Screen>,
        PhantomData<Keypad>,
        PhantomData<Buzzer>,
        PhantomData<Rng>,
    ),
}

impl<Delay, Screen, Keypad, Buzzer, Rng> KeypadWrapper<
    Delay,
    Screen,
    Keypad,
    Buzzer,
    Rng,
> where Delay: DelayExt, Screen: ScreenExt, Keypad: KeypadExt, Buzzer: BuzzerExt, Rng: RngExt {
    /// The wrapped peripheral.
    pub closed spec fn peripheral(&self) -> Keypad {
        self.inner
    }

    fn new(inner: Keypad) -> (wrapper: Self)
        ensures
            wrapper.peripheral() == inner,
    {
        KeypadWrapper {
            inner,
            _marker: (PhantomData, PhantomData, PhantomData, PhantomData, PhantomData),
        }
    }
}

impl<Delay, Screen, Keypad, Buzzer, Rng> Deref for KeypadWrapper<
    Delay,
    Screen,
    Keypad,
    Buzzer,
    Rng,
> where Delay: DelayExt, Screen: ScreenExt, Keypad: KeypadExt, Buzzer: BuzzerExt, Rng: RngExt {
    type Target = Keypad;

    fn deref(&self) -> (inner: &Keypad)
        ensures
            *inner == self.peripheral(),
    {
        &self.inner
    }
}

impl<Delay, Screen, Keypad, Buzzer, Rng> DerefMut for KeypadWrapper<
    Delay,
    Screen,
    Keypad,
    Buzzer,
    Rng,
> where Delay: DelayExt, Screen: ScreenExt, Keypad: KeypadExt, Buzzer: BuzzerExt, Rng: RngExt {
    fn deref_mut(&mut self) -> (inner: &mut Keypad)
        ensures
            *inner == old(self).peripheral(),
            *final(inner) == final(self).peripheral(),
    {
        &mut self.inner
    }
}

impl<Delay, Screen, Keypad, Buzzer, Rng> KeypadExt for KeypadWrapper<
    Delay,
    Screen,
    Keypad,
    Buzzer,
    Rng,
> where Delay: DelayExt, Screen: ScreenExt, Keypad: KeypadExt, Buzzer: BuzzerExt, Rng: RngExt {
    type Error = GenericHardwareError<Delay, Screen, Keypad, Buzzer, Rng>;

    /// The wrapped keypad is called; its answer is returned, an error tagged
    /// `Keypad`.
    open spec fn polled(&self, after: &Self, pressed: Result<bool, Self::Error>) -> bool {
        match pressed {
            Ok(value) => self.peripheral().polled(&after.peripheral(), Ok(value)),
            Err(GenericHardwareError::Keypad(error)) => self.peripheral().polled(
                &after.peripheral(),
                Err(error),
            ),
            Err(_) => false,
        }
    }

    /// The wrapped keypad is called; its answer is returned, an error tagged
    /// `Keypad`.
    open spec fn read(&self, after: &Self, key: Result<Option<u8>, Self::Error>) -> bool {
        match key {
            Ok(value) => self.peripheral().read(&after.peripheral(), Ok(value)),
            Err(GenericHardwareError::Keypad(error)) => self.peripheral().read(
                &after.peripheral(),
                Err(error),
            ),
            Err(_) => false,
        }
    }

    /// Hands the call on to the wrapped peripheral, and tags its answer.
    fn key_is_pressed(&mut self) -> (answer: Result<bool, Self::Error>)
        ensures
            old(self).polled(&*final(self), answer),
            answer matches Err(error) ==> error is Keypad,
    {
        GenericHardwareError::keypad(self.inner.key_is_pressed())
    }

    /// Hands the call on to the wrapped peripheral, and tags its answer.
    fn read_key<D: DelayExt>(&mut self, delay: &mut D) -> (answer: Result<Option<u8>, Self::Error>)
        ensures
            old(self).read(&*final(self), answer),
            answer matches Err(error) ==> error is Keypad,
            answer matches Ok(Some(value)) ==> value < 16,
    {
        GenericHardwareError::keypad(self.inner.read_key(delay))
    }
}

/// A buzzer whose errors are tagged `Buzzer`.
pub struct BuzzerWrapper<Delay, Screen, Keypad, Buzzer, Rng> where
    Delay: DelayExt,
    Screen: ScreenExt,
    Keypad: KeypadExt,
    Buzzer: BuzzerExt,
    Rng: RngExt,
 {
    inner: Buzzer,
    _marker: (
        PhantomData<Delay>,
        PhantomData<Screen>,
        PhantomData<Keypad>,
        PhantomData<Buzzer>,
        PhantomData<Rng>,
    ),
}

impl<Delay, Screen, Keypad, Buzzer, Rng> BuzzerWrapper<
    Delay,
    Screen,
    Keypad,
    Buzzer,
    Rng,
> where Delay: DelayExt, Screen: ScreenExt, Keypad: KeypadExt, Buzzer: BuzzerExt, Rng: RngExt {
    /// The wrapped peripheral.
    pub closed spec fn peripheral(&self) -> Buzzer {
        self.inner
    }

    fn new(inner: Buzzer) -> (wrapper: Self)
        ensures
            wrapper.peripheral() == inner,
    {
        BuzzerWrapper {
            inner,
            _marker: (PhantomData, PhantomData, PhantomData, PhantomData, PhantomData),
        }
    }
}

impl<Delay, Screen, Keypad, Buzzer, Rng> Deref for BuzzerWrapper<
    Delay,
    Screen,
    Keypad,
    Buzzer,
    Rng,
> where Delay: DelayExt, Screen: ScreenExt, Keypad: KeypadExt, Buzzer: BuzzerExt, Rng: RngExt {
    type Target = Buzzer;

    fn deref(&self) -> (inner: &Buzzer)
        ensures
            *inner == self.peripheral(),
    {
        &self.inner
    }
}

impl<Delay, Screen, Keypad, Buzzer, Rng> DerefMut for BuzzerWrapper<
    Delay,
    Screen,
    Keypad,
    Buzzer,
    Rng,
> where Delay: DelayExt, Screen: ScreenExt, Keypad: KeypadExt, Buzzer: BuzzerExt, Rng: RngExt {
    fn deref_mut(&mut self) -> (inner: &mut Buzzer)
        ensures
            *inner == old(self).peripheral(),
            *final(inner) == final(self).peripheral(),
    {
        &mut self.inner
    }
}

impl<Delay, Screen, Keypad, Buzzer, Rng> BuzzerExt for BuzzerWrapper<
    Delay,
    Screen,
    Keypad,
    Buzzer,
    Rng,
> where Delay: DelayExt, Screen: ScreenExt, Keypad: KeypadExt, Buzzer: BuzzerExt, Rng: RngExt {
    type Error = GenericHardwareError<Delay, Screen, Keypad, Buzzer, Rng>;

    /// The wrapped buzzer is called with `state`; its answer is returned, an
    /// error tagged `Buzzer`.
    open spec fn switched(&self, state: bool, after: &Self, done: Result<(), Self::Error>) -> bool {
        match done {
            Ok(value) => self.peripheral().switched(state, &after.peripheral(), Ok(value)),
            Err(GenericHardwareError::Buzzer(error)) => self.peripheral().switched(
                state,
                &after.peripheral(),
                Err(error),
            ),
            Err(_) => false,
        }
    }

    /// Hands the call on to the wrapped peripheral, and tags its answer.
    fn set_state(&mut self, state: bool) -> (answer: Result<(), Self::Error>)
        ensures
            old(self).switched(state, &*final(self), answer),
            answer matches Err(error) ==> error is Buzzer,
    {
        GenericHardwareError::buzzer(self.inner.set_state(state))
    }
}

/// A random number generator whose errors are tagged `Rng`.
pub struct RngWrapper<Delay, Screen, Keypad, Buzzer, Rng> where
    Delay: DelayExt,
    Screen: ScreenExt,
    Keypad: KeypadExt,
    Buzzer: BuzzerExt,
    Rng: RngExt,
 {
    inner: Rng,
    _marker: (
        PhantomData<Delay>,
        PhantomData<Screen>,
        PhantomData<Keypad>,
        PhantomData<Buzzer>,
        PhantomData<Rng>,
    ),
}

impl<Delay, Screen, Keypad, Buzzer, Rng> RngWrapper<
    Delay,
    Screen,
    Keypad,
    Buzzer,
    Rng,
> where Delay: DelayExt, Screen: ScreenExt, Keypad: KeypadExt, Buzzer: BuzzerExt, Rng: RngExt {
    /// The wrapped peripheral.
    pub closed spec fn peripheral(&self) -> Rng {
        self.inner
    }

    fn new(inner: Rng) -> (wrapper: Self)
        ensures
            wrapper.peripheral() == inner,
    {
        RngWrapper {
            inner,
            _marker: (PhantomData, PhantomData, PhantomData, PhantomData, PhantomData),
        }
    }
}

impl<Delay, Screen, Keypad, Buzzer, Rng> Deref for RngWrapper<
    Delay,
    Screen,
    Keypad,
    Buzzer,
    Rng,
> where Delay: DelayExt, Screen: ScreenExt, Keypad: KeypadExt, Buzzer: BuzzerExt, Rng: RngExt {
    type Target = Rng;

    fn deref(&self) -> (inner: &Rng)
        ensures
            *inner == self.peripheral(),
    {
        &self.inner
    }
}

impl<Delay, Screen, Keypad, Buzzer, Rng> DerefMut for RngWrapper<
    Delay,
    Screen,
    Keypad,
    Buzzer,
    Rng,
> where Delay: DelayExt, Screen: ScreenExt, Keypad: KeypadExt, Buzzer: BuzzerExt, Rng: RngExt {
    fn deref_mut(&mut self) -> (inner: &mut Rng)
        ensures
            *inner == old(self).peripheral(),
            *final(inner) == final(self).peripheral(),
    {
        &mut self.inner
    }
}

impl<Delay, Screen, Keypad, Buzzer, Rng> RngExt for RngWrapper<
    Delay,
    Screen,
    Keypad,
    Buzzer,
    Rng,
> where Delay: DelayExt, Screen: ScreenExt, Keypad: KeypadExt, Buzzer: BuzzerExt, Rng: RngExt {
    type Error = GenericHardwareError<Delay, Screen, Keypad, Buzzer, Rng>;

    /// The wrapped generator is called; its answer is returned, an error
    /// tagged `Rng`.
    open spec fn gave(&self, after: &Self, byte: Result<u8, Self::Error>) -> bool {
        match byte {
            Ok(value) => self.peripheral().gave(&after.peripheral(), Ok(value)),
            Err(GenericHardwareError::Rng(error)) => self.peripheral().gave(
                &after.peripheral(),
                Err(error),
            ),
            Err(_) => false,
        }
    }

    /// Hands the call on to the wrapped peripheral, and tags its answer.
    fn rand(&mut self) -> (answer: Result<u8, Self::Error>)
        ensures
            old(self).gave(&*final(self), answer),
            answer matches Err(error) ==> error is Rng,
    {
        GenericHardwareError::rng(self.inner.rand())
    }
}

/// Five peripherals as one set of hardware.
pub struct GenericHardware<Delay, Screen, Keypad, Buzzer, Rng> where
    Delay: DelayExt,
    Screen: ScreenExt,
    Keypad: KeypadExt,
    Buzzer: BuzzerExt,
    Rng: RngExt,
 {
    pub delay: DelayWrapper<Delay, Screen, Keypad, Buzzer, Rng>,
    pub screen: ScreenWrapper<Delay, Screen, Keypad, Buzzer, Rng>,
    pub keypad: KeypadWrapper<Delay, Screen, Keypad, Buzzer, Rng>,
    pub buzzer: BuzzerWrapper<Delay, Screen, Keypad, Buzzer, Rng>,
    pub rng: RngWrapper<Delay, Screen, Keypad, Buzzer, Rng>,
}

impl<Delay, Screen, Keypad, Buzzer, Rng> GenericHardware<
    Delay,
    Screen,
    Keypad,
    Buzzer,
    Rng,
> where Delay: DelayExt, Screen: ScreenExt, Keypad: KeypadExt, Buzzer: BuzzerExt, Rng: RngExt {
    /// Wraps the five peripherals.
    pub fn new(delay: Delay, screen: Screen, keypad: Keypad, buzzer: Buzzer, rng: Rng) -> (hw: Self)
        ensures
            hw.delay.peripheral() == delay,
            hw.screen.peripheral() == screen,
            hw.keypad.peripheral() == keypad,
            hw.buzzer.peripheral() == buzzer,
            hw.rng.peripheral() == rng,
    {
        GenericHardware {
            delay: DelayWrapper::new(delay),
            screen: ScreenWrapper::new(screen),
            keypad: KeypadWrapper::new(keypad),
            buzzer: BuzzerWrapper::new(buzzer),
            rng: RngWrapper::new(rng),
        }
    }
}

impl<Delay, Screen, Keypad, Buzzer, Rng> HardwareExt for GenericHardware<
    Delay,
    Screen,
    Keypad,
    Buzzer,
    Rng,
> where Delay: DelayExt, Screen: ScreenExt, Keypad: KeypadExt, Buzzer: BuzzerExt, Rng: RngExt {
    type Error = GenericHardwareError<Delay, Screen, Keypad, Buzzer, Rng>;

    type Delay = DelayWrapper<Delay, Screen, Keypad, Buzzer, Rng>;

    type Screen = ScreenWrapper<Delay, Screen, Keypad, Buzzer, Rng>;

    type Keypad = KeypadWrapper<Delay, Screen, Keypad, Buzzer, Rng>;

    type Buzzer = BuzzerWrapper<Delay, Screen, Keypad, Buzzer, Rng>;

    type Rng = RngWrapper<Delay, Screen, Keypad, Buzzer, Rng>;

    open spec fn spec_delay(&self) -> Self::Delay {
        self.delay
    }

    open spec fn spec_screen(&self) -> Self::Screen {
        self.screen
    }

    open spec fn spec_keypad(&self) -> Self::Keypad {
        self.keypad
    }

    open spec fn spec_buzzer(&self) -> Self::Buzzer {
        self.buzzer
    }

    open spec fn spec_rng(&self) -> Self::Rng {
        self.rng
    }

    fn hardware(&mut self) -> Hardware<
        '_,
        Self::Delay,
        Self::Screen,
        Self::Keypad,
        Self::Buzzer,
        Self::Rng,
    > {
        let GenericHardware { delay, screen, keypad, buzzer, rng } = self;
        Hardware { delay, screen, keypad, buzzer, rng }
    }
}

} // verus!
