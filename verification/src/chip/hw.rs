//! A machine together with its hardware.
use super::chip8::Chip8;
use super::clock::{step_delay, valid_speed, Clock};
use super::error::{Error, RuntimeError};
use super::semantics::{asked, executed, fetch, run_ended, untouched};
use crate::hal::{Hardware, HardwareExt};
use crate::mem::Mem;
use core::ops::{Deref, DerefMut};
use vstd::prelude::*;

verus! {

/// A machine that owns its peripherals.
pub struct HwChip8<H: HardwareExt> {
    pub hw: H,
    pub chip: Chip8,
}

impl<H: HardwareExt> HardwareExt for HwChip8<H> {
    type Error = H::Error;

    type Delay = H::Delay;

    type Screen = H::Screen;

    type Keypad = H::Keypad;

    type Buzzer = H::Buzzer;

    type Rng = H::Rng;

    open spec fn spec_delay(&self) -> Self::Delay {
        self.hw.spec_delay()
    }

    open spec fn spec_screen(&self) -> Self::Screen {
        self.hw.spec_screen()
    }

    open spec fn spec_keypad(&self) -> Self::Keypad {
        self.hw.spec_keypad()
    }

    open spec fn spec_buzzer(&self) -> Self::Buzzer {
        self.hw.spec_buzzer()
    }

    open spec fn spec_rng(&self) -> Self::Rng {
        self.hw.spec_rng()
    }

    fn hardware(&mut self) -> Hardware<
        '_,
        Self::Delay,
        Self::Screen,
        Self::Keypad,
        Self::Buzzer,
        Self::Rng,
    > {
        self.hw.hardware()
    }
}

impl<H: HardwareExt> HwChip8<H> {
    /// A new machine with the peripherals `hw`.
    pub fn new(hw: H) -> (machine: Self)
        ensures
            machine.hw == hw,
            machine.chip.clock_division == 1,
            machine.chip.mem@ == Mem::default_state(),
    {
        Self::from_chip(hw, Chip8::new())
    }

    /// The machine `chip` with the peripherals `hw`.
    pub fn from_chip(hw: H, chip: Chip8) -> (machine: Self)
        ensures
            machine.hw == hw,
            machine.chip == chip,
    {
        HwChip8 { hw, chip }
    }

    /// The memory of the machine, to inspect and to change it.
    pub fn mem(&mut self) -> (mem: &mut Mem)
        ensures
            *mem == old(self).chip.mem,
            final(self).chip.mem == *final(mem),
            final(self).chip.clock_division == old(self).chip.clock_division,
            final(self).hw == old(self).hw,
    {
        &mut self.chip.mem
    }

    /// Takes the machine apart.
    pub fn split(self) -> (parts: (H, Chip8))
        ensures
            parts.0 == self.hw,
            parts.1 == self.chip,
    {
        let HwChip8 { hw, chip } = self;
        (hw, chip)
    }

    /// The peripherals.
    pub fn hw(&mut self) -> (hw: &mut H)
        ensures
            *hw == old(self).hw,
            final(self).hw == *final(hw),
            final(self).chip == old(self).chip,
    {
        &mut self.hw
    }

    /// Reads the next instruction and executes it: `Chip8::step` with the
    /// machine's own peripherals.
    pub fn step(&mut self) -> (result: Result<(), RuntimeError<H::Error>>)
        ensures
            final(self).chip.clock_division == old(self).chip.clock_division,
            match fetch(old(self).chip.mem@.ram, old(self).chip.mem.pc) {
                Ok(inst) => executed(old(self).chip.mem@, inst, final(self).chip.mem@, result)
                    && untouched(asked(old(self).chip.mem@, inst), old(self).hw, final(self).hw),
                Err(error) => result == Err::<(), RuntimeError<H::Error>>(
                    RuntimeError::Software(error),
                ) && final(self).chip.mem@ == old(self).chip.mem@ && final(self).hw == old(
                    self).hw,
            },
    {
        self.chip.step(&mut self.hw)
    }

    /// Runs the machine with its own peripherals until a cycle fails:
    /// `Chip8::run` without an observer.
    pub fn run(&mut self, hz: u32) -> (result: Result<(), RuntimeError<H::Error>>)
        ensures
            final(self).chip.clock_division == old(self).chip.clock_division,
            !valid_speed(hz) ==> result == Err::<(), RuntimeError<H::Error>>(
                RuntimeError::Software(Error::InvalidClockSpeed(hz)),
            ) && final(self).chip.mem@ == old(self).chip.mem@,
            valid_speed(hz) ==> exists|start: Clock, end: Clock|
                {
                    &&& start.period() == step_delay(hz)
                    &&& start.elapsed() == 0
                    &&& #[trigger] run_ended(
                        old(self).chip.mem@,
                        start,
                        u64::MAX as nat,
                        final(self).chip.mem@,
                        end,
                        result,
                    )
                },
    {
        self.run_cycles(hz, u64::MAX)
    }

    /// Runs the machine with its own peripherals for `cycles` cycles, or
    /// until one fails: `Chip8::run_cycles` without an observer.
    pub fn run_cycles(&mut self, hz: u32, cycles: u64) -> (result: Result<
        (),
        RuntimeError<H::Error>,
    >)
        ensures
            final(self).chip.clock_division == old(self).chip.clock_division,
            !valid_speed(hz) ==> result == Err::<(), RuntimeError<H::Error>>(
                RuntimeError::Software(Error::InvalidClockSpeed(hz)),
            ) && final(self).chip.mem@ == old(self).chip.mem@,
            valid_speed(hz) ==> exists|start: Clock, end: Clock|
                {
                    &&& start.period() == step_delay(hz)
                    &&& start.elapsed() == 0
                    &&& #[trigger] run_ended(
                        old(self).chip.mem@,
                        start,
                        cycles as nat,
                        final(self).chip.mem@,
                        end,
                        result,
                    )
                },
    {
        let ghost before = self.chip.mem@;
        let result = self.chip.run_cycles(
            &mut self.hw,
            hz,
            cycles,
            |chip: &Chip8, hw: &mut H| {},
        );
        proof {
            if valid_speed(hz) {
                let (start, end) = choose|start: Clock, end: Clock|
                    {
                        &&& start.period() == step_delay(hz)
                        &&& start.elapsed() == 0
                        &&& #[trigger] run_ended(
                            before,
                            start,
                            cycles as nat,
                            self.chip.mem@,
                            end,
                            result,
                        )
                    };
                assert(run_ended(before, start, cycles as nat, self.chip.mem@, end, result));
            }
        }
        result
    }

    /// Executes the instruction `inst`: `Chip8::exec` with the machine's own
    /// peripherals.
    pub fn exec(&mut self, inst: u16) -> (result: Result<(), RuntimeError<H::Error>>)
        ensures
            final(self).chip.clock_division == old(self).chip.clock_division,
            executed(old(self).chip.mem@, inst, final(self).chip.mem@, result),
            untouched(asked(old(self).chip.mem@, inst), old(self).hw, final(self).hw),
    {
        self.chip.exec(inst, &mut self.hw)
    }
}

impl<H: HardwareExt> Deref for HwChip8<H> {
    type Target = Chip8;

    fn deref(&self) -> (chip: &Chip8)
        ensures
            *chip == self.chip,
    {
        &self.chip
    }
}

impl<H: HardwareExt> DerefMut for HwChip8<H> {
    fn deref_mut(&mut self) -> (chip: &mut Chip8)
        ensures
            *chip == old(self).chip,
            final(self).chip == *final(chip),
            final(self).hw == old(self).hw,
    {
        &mut self.chip
    }
}

} // verus!
