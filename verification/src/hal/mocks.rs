//! Peripherals for tests: a screen that records what it is asked to draw, a
//! keypad and a random number generator that replay a sequence, a buzzer that
//! remembers its state, and a delay that returns at once.
use super::hal::{BuzzerExt, DelayExt, Hardware, HardwareExt, KeypadExt, RngExt, ScreenExt};
use vstd::prelude::*;

verus! {

/// A request that a `MockScreen` has received.
#[derive(Debug, Clone, PartialEq, Eq)]
pub enum MockDraw {
    Draw { x: u8, y: u8, data: Vec<u8> },
    Clear,
}

/// A request to the screen, by another name.
pub type ScreenCommand = MockDraw;

impl MockDraw {
    /// The request to draw the sprite `data` at `(x, y)`.
    pub fn xor(x: u8, y: u8, data: &[u8]) -> (draw: Self)
        ensures
            draw matches MockDraw::Draw { x: at_x, y: at_y, data: sprite } && at_x == x && at_y == y
                && sprite@ == data@,
    {
        MockDraw::Draw { x, y, data: vstd::slice::slice_to_vec(data) }
    }
}

/// A delay that does not wait.
#[derive(Debug, Clone, Copy)]
pub struct MockDelay {
    pub ticks: u8,
}

impl MockDelay {
    pub fn new() -> (delay: Self)
        ensures
            delay.ticks == 0,
    {
        MockDelay { ticks: 0 }
    }

    /// Sets the number of ticks that the next call of `reset_ticks` reports.
    pub fn set_ticks(&mut self, ticks: u8)
        ensures
            final(self).ticks == ticks,
    {
        self.ticks = ticks;
    }

    /// Returns the ticks that were set, and sets them to zero.
    pub fn reset_ticks(&mut self) -> (ticks: Result<u8, ()>)
        ensures
            ticks == Ok::<u8, ()>(old(self).ticks),
            final(self).ticks == 0,
    {
        let ticks = self.ticks;
        self.ticks = 0;
        Ok(ticks)
    }
}

impl Default for MockDelay {
    fn default() -> (delay: Self)
        ensures
            delay.ticks == 0,
    {
        MockDelay::new()
    }
}

impl DelayExt for MockDelay {
    type Error = ();

    /// The delay returns at once, and stays as it is.
    open spec fn delayed(&self, us: u32, after: &Self, done: Result<(), ()>) -> bool {
        done is Ok && *after == *self
    }

    fn delay_micros(&mut self, us: u32) -> (done: Result<(), ()>)
        ensures
            done is Ok,
            *final(self) == *old(self),
    {
        Ok(())
    }
}

/// A screen that records the requests it receives, and reports a collision
/// for every sprite or for none.
#[derive(Debug, Clone)]
pub struct MockScreen {
    pub collision: bool,
    pub draws: Vec<MockDraw>,
}

impl MockScreen {
    pub fn new(collision: bool, draws: Vec<MockDraw>) -> (screen: Self)
        ensures
            screen.collision == collision,
            screen.draws == draws,
    {
        MockScreen { collision, draws }
    }

    /// Sets what the following calls of `draw` return.
    pub fn set_collision(&mut self, collision: bool)
        ensures
            final(self).collision == collision,
            final(self).draws == old(self).draws,
    {
        self.collision = collision;
    }
}

impl Default for MockScreen {
    fn default() -> (screen: Self)
        ensures
            !screen.collision,
            screen.draws@.len() == 0,
    {
        MockScreen { collision: false, draws: Vec::new() }
    }
}

impl ScreenExt for MockScreen {
    type Error = ();

    /// The screen records the sprite and where it is drawn, and reports a
    /// collision if it is set to.
    open spec fn drew(
        &self,
        x: u8,
        y: u8,
        data: Seq<u8>,
        after: &Self,
        erased: Result<bool, ()>,
    ) -> bool {
        &&& erased == Ok::<bool, ()>(self.collision)
        &&& after.collision == self.collision
        &&& after.draws@.len() == self.draws@.len() + 1
        &&& after.draws@.drop_last() == self.draws@
        &&& after.draws@.last() matches MockDraw::Draw { x: at_x, y: at_y, data: sprite } && at_x
            == x && at_y == y && sprite@ == data
    }

    /// The screen records the request.
    open spec fn cleared(&self, after: &Self, done: Result<(), ()>) -> bool {
        &&& done is Ok
        &&& after.collision == self.collision
        &&& after.draws@ == self.draws@.push(MockDraw::Clear)
    }

    fn draw(&mut self, x: u8, y: u8, data: &[u8]) -> (erased: Result<bool, ()>)
        ensures
            erased == Ok::<bool, ()>(old(self).collision),
            final(self).collision == old(self).collision,
            final(self).draws@.len() == old(self).draws@.len() + 1,
            final(self).draws@.drop_last() == old(self).draws@,
            final(self).draws@.last() matches MockDraw::Draw { x: at_x, y: at_y, data: sprite }
                && at_x == x && at_y == y && sprite@ == data@,
    {
        let draw = MockDraw::xor(x, y, data);
        self.draws.push(draw);
        assert(self.draws@.drop_last() =~= old(self).draws@);
        Ok(self.collision)
    }

    fn clear(&mut self) -> (done: Result<(), ()>)
        ensures
            done is Ok,
            final(self).collision == old(self).collision,
            final(self).draws@ == old(self).draws@.push(MockDraw::Clear),
    {
        self.draws.push(MockDraw::Clear);
        Ok(())
    }
}

/// A keypad that replays a sequence of readings. The readings are kept in
/// reverse, the next one last. A reading that is no key of the keypad counts
/// as no key.
#[derive(Debug, Clone)]
pub struct MockKeypad {
    pub sequence: Vec<Option<u8>>,
}

impl MockKeypad {
    pub fn new(sequence: Vec<Option<u8>>) -> (keypad: Self)
        ensures
            keypad.sequence == sequence,
    {
        MockKeypad { sequence }
    }

    /// Sets the readings that the keypad gives, the first of `sequence`
    /// first.
    pub fn set_sequence(&mut self, sequence: Vec<Option<u8>>)
        ensures
            final(self).sequence@ == sequence@.reverse(),
    {
        let mut reversed: Vec<Option<u8>> = Vec::new();
        let mut k: usize = sequence.len();
        while k > 0
            invariant
                k <= sequence.len(),
                reversed@.len() == sequence.len() - k,
                forall|j: int|
                    0 <= j < reversed@.len() ==> reversed@[j] == sequence@[sequence.len() - 1 - j],
            decreases k,
        {
            k -= 1;
            reversed.push(sequence[k]);
        }
        assert(reversed@ =~= sequence@.reverse());
        self.sequence = reversed;
    }
}

impl Default for MockKeypad {
    fn default() -> (keypad: Self)
        ensures
            keypad.sequence@.len() == 0,
    {
        MockKeypad { sequence: Vec::new() }
    }
}

impl KeypadExt for MockKeypad {
    type Error = ();

    /// A key is down if the next reading is a key of the keypad. The
    /// readings stay.
    open spec fn polled(&self, after: &Self, pressed: Result<bool, ()>) -> bool {
        &&& pressed == Ok::<bool, ()>(
            self.sequence@.len() > 0 && (self.sequence@.last() matches Some(value) && value < 16),
        )
        &&& after.sequence@ == self.sequence@
    }

    /// The next reading is taken from the sequence, if there is one, and is
    /// the key if it is a key of the keypad.
    open spec fn read(&self, after: &Self, key: Result<Option<u8>, ()>) -> bool {
        &&& key == Ok::<Option<u8>, ()>(
            if self.sequence@.len() > 0 {
                match self.sequence@.last() {
                    Some(value) if value < 16 => Some(value),
                    _ => None,
                }
            } else {
                None
            },
        )
        &&& after.sequence@ == if self.sequence@.len() > 0 {
            self.sequence@.drop_last()
        } else {
            self.sequence@
        }
    }

    fn key_is_pressed(&mut self) -> (pressed: Result<bool, ()>)
        ensures
            pressed == Ok::<bool, ()>(
                old(self).sequence@.len() > 0 && (old(self).sequence@.last() matches Some(value)
                    && value < 16),
            ),
            final(self).sequence@ == old(self).sequence@,
    {
        let n = self.sequence.len();
        if n == 0 {
            Ok(false)
        } else {
            match self.sequence[n - 1] {
                Some(key) => Ok(key < 16),
                None => Ok(false),
            }
        }
    }

    fn read_key<D: DelayExt>(&mut self, delay: &mut D) -> (key: Result<Option<u8>, ()>)
        ensures
            key == Ok::<Option<u8>, ()>(
                if old(self).sequence@.len() > 0 {
                    match old(self).sequence@.last() {
                        Some(value) if value < 16 => Some(value),
                        _ => None,
                    }
                } else {
                    None
                },
            ),
            final(self).sequence@ == if old(self).sequence@.len() > 0 {
                old(self).sequence@.drop_last()
            } else {
                old(self).sequence@
            },
            *final(delay) == *old(delay),
    {
        match self.sequence.pop() {
            Some(Some(key)) => if key < 16 {
                Ok(Some(key))
            } else {
                Ok(None)
            },
            _ => Ok(None),
        }
    }
}

/// A buzzer that remembers the state it was last set to.
#[derive(Debug, Clone, Copy)]
pub struct MockBuzzer {
    pub state: Option<bool>,
}

impl MockBuzzer {
    pub fn new(state: Option<bool>) -> (buzzer: Self)
        ensures
            buzzer.state == state,
    {
        MockBuzzer { state }
    }
}

impl Default for MockBuzzer {
    fn default() -> (buzzer: Self)
        ensures
            buzzer.state is None,
    {
        MockBuzzer { state: None }
    }
}

impl BuzzerExt for MockBuzzer {
    type Error = ();

    /// The buzzer remembers the state.
    open spec fn switched(&self, state: bool, after: &Self, done: Result<(), ()>) -> bool {
        done is Ok && after.state == Some(state)
    }

    fn set_state(&mut self, state: bool) -> (done: Result<(), ()>)
        ensures
            done is Ok,
            final(self).state == Some(state),
    {
        self.state = Some(state);
        Ok(())
    }
}

/// A random number generator that replays a sequence of bytes, round and
/// round, and fails while it has none.
#[derive(Debug, Clone)]
pub struct MockRng {
    pub sequence: Vec<u8>,
    /// The index of the next byte. It is taken modulo the length of the
    /// sequence.
    pub ptr: usize,
}

impl MockRng {
    pub fn new(sequence: Vec<u8>, ptr: usize) -> (rng: Self)
        ensures
            rng.sequence == sequence,
            rng.ptr == ptr,
    {
        MockRng { sequence, ptr }
    }

    /// Sets the bytes that the generator gives. The position in the sequence
    /// stays.
    pub fn set_sequence(&mut self, sequence: Vec<u8>)
        ensures
            final(self).sequence == sequence,
            final(self).ptr == old(self).ptr,
    {
        self.sequence = sequence;
    }
}

impl Default for MockRng {
    fn default() -> (rng: Self)
        ensures
            rng.sequence@.len() == 0,
            rng.ptr == 0,
    {
        MockRng { sequence: Vec::new(), ptr: 0 }
    }
}

impl RngExt for MockRng {
    type Error = ();

    /// The generator gives the byte at its position, taken modulo the length
    /// of the sequence, and moves on by one; it fails while the sequence is
    /// empty.
    open spec fn gave(&self, after: &Self, byte: Result<u8, ()>) -> bool {
        &&& after.sequence == self.sequence
        &&& self.sequence@.len() == 0 ==> byte is Err && after.ptr == self.ptr
        &&& self.sequence@.len() > 0 ==> {
            let len = self.sequence@.len() as int;
            let at = self.ptr as int % len;
            &&& byte == Ok::<u8, ()>(self.sequence@[at])
            &&& after.ptr == (at + 1) % len
        }
    }

    fn rand(&mut self) -> (byte: Result<u8, ()>)
        ensures
            final(self).sequence == old(self).sequence,
            old(self).sequence@.len() == 0 ==> byte is Err && final(self).ptr == old(self).ptr,
            old(self).sequence@.len() > 0 ==> {
                let len = old(self).sequence@.len() as int;
                let at = old(self).ptr as int % len;
                &&& byte == Ok::<u8, ()>(old(self).sequence@[at])
                &&& final(self).ptr == (at + 1) % len
            },
    {
        let len = self.sequence.len();
        if len > 0 {
            let at = self.ptr % len;
            let rand = self.sequence[at];
            self.ptr = (at + 1) % len;
            Ok(rand)
        } else {
            Err(())
        }
    }
}

/// A set of mock peripherals.
pub struct MockHardware {
    pub delay: MockDelay,
    pub screen: MockScreen,
    pub keypad: MockKeypad,
    pub buzzer: MockBuzzer,
    pub rng: MockRng,
}

impl Default for MockHardware {
    fn default() -> (hw: Self)
        ensures
            hw.delay.ticks == 0,
            !hw.screen.collision,
            hw.screen.draws@.len() == 0,
            hw.keypad.sequence@.len() == 0,
            hw.buzzer.state is None,
            hw.rng.sequence@.len() == 0,
            hw.rng.ptr == 0,
    {
        MockHardware {
            delay: MockDelay::default(),
            screen: MockScreen::default(),
            keypad: MockKeypad::default(),
            buzzer: MockBuzzer::default(),
            rng: MockRng::default(),
        }
    }
}

impl MockHardware {
    pub fn new() -> (hw: Self)
        ensures
            hw.delay.ticks == 0,
            !hw.screen.collision,
            hw.screen.draws@.len() == 0,
            hw.keypad.sequence@.len() == 0,
            hw.buzzer.state is None,
            hw.rng.sequence@.len() == 0,
            hw.rng.ptr == 0,
    {
        MockHardware::default()
    }
}

impl HardwareExt for MockHardware {
    type Error = ();

    type Delay = MockDelay;

    type Screen = MockScreen;

    type Keypad = MockKeypad;

    type Buzzer = MockBuzzer;

    type Rng = MockRng;

    open spec fn spec_delay(&self) -> Self::Delay {
        self.delay
    }

    open spec fn spec_screen(&self) -> Self::Screen {
        self.screen
    }

    open spec fn spec_keypad(&self) -> Self::Keypad {
        self.keypad
    }

    open spec fn spec_buzzer(&self) -> Self::Buzzer {
        self.buzzer
    }

    open spec fn spec_rng(&self) -> Self::Rng {
        self.rng
    }

    fn hardware(&mut self) -> Hardware<
        '_,
        MockDelay,
        MockScreen,
        MockKeypad,
        MockBuzzer,
        MockRng,
    > {
        let MockHardware { delay, screen, keypad, buzzer, rng } = self;
        Hardware { delay, screen, keypad, buzzer, rng }
    }
}

} // verus!
