//! The machine: its memory and the clock division, and the functions that
//! fetch, decode and execute.
use super::clock::{step_delay, valid_speed, Clock};
use super::error::{Error, RuntimeError};
use super::hw::HwChip8;
use super::semantics::{
    asked, bcd, cycle_failed, cycled, cycles_lead, execute, executed, fetch, kept, Asked,
    loaded_registers, perform, run_ended, store_from, ticked, untouched, waits, Input, Outcome,
};
use crate::hal::{BuzzerExt, DelayExt, Hardware, HardwareExt, KeypadExt, RngExt, ScreenExt};
use crate::inst::bytecode::decode;
use crate::inst::Opcode;
use crate::mem;
use crate::mem::{Mem, Ram, State};
use vstd::prelude::*;
use vstd::std_specs::convert::FromSpecImpl;

verus! {

/// The microseconds between two polls of the keypad while `ldkey` waits.
pub const POLL_FREQ: u32 = 1000;

/// The polls of the keypad that one execution of `ldkey` makes at most.
pub const POLL_ROUND: u32 = 1000;

/// The bytes of an instruction.
pub const INST_STEP: u16 = 2;

/// The index of the flag register, `VF`.
pub const REG_FLAG: u8 = 0x0F;

/// An error of the memory as an error of the program.
fn software<T>(result: Result<T, mem::Error>) -> (out: Result<T, Error>)
    ensures
        out == match result {
            Ok(value) => Ok::<T, Error>(value),
            Err(error) => Err(Error::Memory(error)),
        },
{
    match result {
        Ok(value) => Ok(value),
        Err(error) => Err(Error::Memory(error)),
    }
}

/// An error of a peripheral as an error of the run.
fn hardware<T, E>(result: Result<T, E>) -> (out: Result<T, RuntimeError<E>>)
    ensures
        out == match result {
            Ok(value) => Ok::<T, RuntimeError<E>>(value),
            Err(error) => Err(RuntimeError::Hardware(error)),
        },
{
    match result {
        Ok(value) => Ok(value),
        Err(error) => Err(RuntimeError::Hardware(error)),
    }
}

/// An error of the program as an error of the run.
fn failed<T, E>(result: Result<T, Error>) -> (out: Result<T, RuntimeError<E>>)
    ensures
        out == match result {
            Ok(value) => Ok::<T, RuntimeError<E>>(value),
            Err(error) => Err(RuntimeError::Software(error)),
        },
{
    match result {
        Ok(value) => Ok(value),
        Err(error) => Err(RuntimeError::Software(error)),
    }
}

/// The number that stands for a truth value in `VF`.
fn flag(holds: bool) -> (flag: u8)
    ensures
        flag == super::semantics::flag(holds),
{
    if holds {
        1
    } else {
        0
    }
}

/// What an instruction asks of the hardware.
pub enum Request<'a> {
    /// Nothing.
    Nothing,
    /// To clear the screen.
    Clear,
    /// A random byte.
    Rand,
    /// To draw the sprite `rows` at `(x, y)`.
    Draw { x: u8, y: u8, rows: &'a [u8] },
    /// The key that is down, if one is.
    Key,
    /// The next key that is pressed.
    WaitKey,
}

impl<'a> View for Request<'a> {
    type V = Asked;

    open spec fn view(&self) -> Asked {
        match *self {
            Request::Nothing => Asked::Nothing,
            Request::Clear => Asked::Clear,
            Request::Rand => Asked::Rand,
            Request::Draw { x, y, rows } => Asked::Draw { x, y, rows: rows@ },
            Request::Key => Asked::Key,
            Request::WaitKey => Asked::WaitKey,
        }
    }
}

/// A CHIP-8 machine without its peripherals.
#[derive(Debug, Clone, Copy)]
pub struct Chip8 {
    pub mem: Mem,
    /// The factor by which `run` stretches the delay after each step.
    pub clock_division: u32,
}

impl Default for Chip8 {
    fn default() -> (chip: Self)
        ensures
            chip.clock_division == 1,
            chip.mem@ == Mem::default_state(),
    {
        Chip8::new()
    }
}

impl From<Mem> for Chip8 {
    /// A machine in the state `mem`.
    fn from(mem: Mem) -> (chip: Self)
        ensures
            chip.clock_division == 1,
            chip.mem == mem,
    {
        Chip8 { mem, clock_division: 1 }
    }
}

impl FromSpecImpl<Mem> for Chip8 {
    open spec fn obeys_from_spec() -> bool {
        true
    }

    open spec fn from_spec(mem: Mem) -> Self {
        Chip8 { mem, clock_division: 1 }
    }
}

impl From<Ram> for Chip8 {
    /// A machine whose RAM is `ram`, with everything else zero.
    fn from(ram: Ram) -> (chip: Self)
        ensures
            chip.clock_division == 1,
            chip.mem@ == (State { ram: ram@, ..Mem::default_state() }),
    {
        Chip8 { mem: Mem::from(ram), clock_division: 1 }
    }
}

impl FromSpecImpl<Ram> for Chip8 {
    open spec fn obeys_from_spec() -> bool {
        false
    }

    open spec fn from_spec(ram: Ram) -> Self {
        arbitrary()
    }
}

impl Chip8 {
    /// Create a new chip8 instance with empty RAM: the font, and nothing
    /// else. The program counter is zero until a program is loaded.
    pub fn new() -> (chip: Self)
        ensures
            chip.clock_division == 1,
            chip.mem@ == Mem::default_state(),
    {
        Chip8 { mem: Mem::default(), clock_division: 1 }
    }

    /// A machine in the state `mem`.
    pub fn from_state(mem: Mem) -> (chip: Self)
        ensures
            chip.clock_division == 1,
            chip.mem == mem,
    {
        Chip8 { mem, clock_division: 1 }
    }

    /// Installs the image `ram` and sets the program counter to the start of
    /// the program, `0x200`. Registers, timers and stack are reset.
    pub fn load(self, ram: Ram) -> (chip: Self)
        ensures
            chip.clock_division == self.clock_division,
            chip.mem@ == (State { ram: ram@, pc: 0x200, ..Mem::default_state() }),
    {
        let mut chip = self;
        chip.mem = Mem::from(ram);
        chip.init();
        chip
    }

    /// Sets the program counter to the start of the program, `0x200`.
    pub fn init(&mut self)
        ensures
            final(self).clock_division == old(self).clock_division,
            final(self).mem@ == (State { pc: 0x200, ..old(self).mem@ }),
    {
        self.mem.pc = 0x200;
    }

    /// Attach hardware to the chip, simplifying some calls.
    pub fn with_hardware<H: HardwareExt>(self, hw: H) -> (chip: HwChip8<H>)
        ensures
            chip.hw == hw,
            chip.chip == self,
    {
        HwChip8::from_chip(hw, self)
    }

    /// Set a clock division for the run method. Defaults to 1 (do not divide).
    /// This can be used to slow down actual execution speed.
    pub fn set_clock_division(&mut self, multiplier: u32)
        ensures
            final(self).clock_division == multiplier,
            final(self).mem == old(self).mem,
    {
        self.clock_division = multiplier;
    }

    /// The current mem (stack, ram, registers) state.
    pub fn state(&self) -> (mem: &Mem)
        ensures
            *mem == self.mem,
    {
        &self.mem
    }

    /// Try and read the next instruction from memory
    pub fn read_inst(&self, addr: u16) -> (inst: Result<u16, Error>)
        ensures
            inst == fetch(self.mem@.ram, addr),
    {
        if software(self.mem.ram.to_read_addr(addr))? % INST_STEP == 0 {
            let msb = software(self.mem.ram.read_byte(addr))?;
            let lsb = software(self.mem.ram.read_byte(addr + 1))?;
            Ok((msb as u16) << 8 | (lsb as u16))
        } else {
            Err(Error::OffsetNotAligned(addr))
        }
    }

    /// What the instruction word `inst` asks of the hardware.
    pub fn request(&self, inst: u16) -> (request: Request<'_>)
        ensures
            request@ == asked(self.mem@, inst),
    {
        match Opcode::decode(inst) {
            Some(Opcode::Cls) => Request::Clear,
            Some(Opcode::Rnd) => Request::Rand,
            Some(Opcode::Drw) => {
                let x = self.mem.reg.get(decode::vx(inst));
                let y = self.mem.reg.get(decode::vy(inst));
                let rows = self.mem.ram.read_bytes(self.mem.i, decode::nibble(inst) as u16);
                match (x, y, rows) {
                    (Ok(x), Ok(y), Ok(rows)) => Request::Draw { x, y, rows },
                    _ => Request::Nothing,
                }
            },
            Some(Opcode::Skp) | Some(Opcode::Sknp) => Request::Key,
            Some(Opcode::Ldkey) => Request::WaitKey,
            _ => Request::Nothing,
        }
    }

    /// Helper method for reading a key press: the keypad of the set is asked
    /// for a key, with the delay of the set at its service. Its answer is
    /// returned, an error as an error of the hardware. Screen, buzzer and
    /// random number generator stay as they are.
    fn read_key<H: HardwareExt>(hw: &mut H) -> (key: Result<Option<u8>, RuntimeError<H::Error>>)
        ensures
            match key {
                Ok(value) => old(hw).spec_keypad().read(
                    &final(hw).spec_keypad(),
                    Ok::<Option<u8>, H::Error>(value),
                ),
                Err(RuntimeError::Hardware(error)) => old(hw).spec_keypad().read(
                    &final(hw).spec_keypad(),
                    Err::<Option<u8>, H::Error>(error),
                ),
                Err(RuntimeError::Software(_)) => false,
            },
            key matches Ok(Some(value)) ==> value < 16,
            untouched(Asked::Key, *old(hw), *final(hw)),
    {
        let Hardware { keypad, delay, .. } = hw.hardware();
        hardware(keypad.read_key(delay))
    }

    /// Execute an instruction with provided hardware and update state.
    ///
    /// An instruction that asks nothing of the hardware does what `execute`
    /// says, and leaves the hardware alone. One that does asks what `request`
    /// says of the peripheral that it concerns, and fails with the error
    /// of the peripheral and leaves the state as it was, or does what
    /// `execute` says for the answer that the peripheral gave. `ldkey` polls
    /// the keypad, at most `POLL_ROUND` times with `POLL_FREQ` microseconds
    /// between two polls; without a key it leaves the state as it was, so
    /// that the next step goes on waiting.
    pub fn exec<H: HardwareExt>(&mut self, inst: u16, hw: &mut H) -> (result: Result<
        (),
        RuntimeError<H::Error>,
    >)
        ensures
            final(self).clock_division == old(self).clock_division,
            executed(old(self).mem@, inst, final(self).mem@, result),
            untouched(asked(old(self).mem@, inst), *old(hw), *final(hw)),
    {
        let mut input = Input::none();
        match self.request(inst) {
            Request::Nothing => {},
            Request::Clear => {
                hardware(hw.screen().clear())?;
            },
            Request::Rand => {
                input.rand = hardware(hw.rng().rand())?;
            },
            Request::Draw { x, y, rows } => {
                input.erased = hardware(hw.screen().draw(x, y, rows))?;
            },
            Request::Key => {
                input.key = Self::read_key(hw)?;
            },
            Request::WaitKey => {
                let mut polls: u32 = 0;
                while input.key.is_none() && polls < POLL_ROUND
                    invariant
                        *self == *old(self),
                        asked(self.mem@, inst) is WaitKey,
                        untouched(Asked::WaitKey, *old(hw), *hw),
                        input.wf(),
                        input.rand == 0,
                        !input.erased,
                    decreases POLL_ROUND - polls,
                {
                    input.key = Self::read_key(hw)?;
                    if input.key.is_none() {
                        hardware(hw.delay().delay_micros(POLL_FREQ))?;
                    }
                    polls += 1;
                }
            },
        }
        let ghost before = self.mem@;
        let result = failed(self.apply(inst, input));
        assert(execute(before, inst, input) == (Outcome {
            state: self.mem@,
            result: match result {
                Ok(_) => Ok(()),
                Err(RuntimeError::Software(error)) => Err(error),
                Err(RuntimeError::Hardware(_)) => Ok(()),
            },
        }));
        result
    }

    /// Read the next instruction and execute it with provided hardware
    pub fn step<H: HardwareExt>(&mut self, hw: &mut H) -> (result: Result<
        (),
        RuntimeError<H::Error>,
    >)
        ensures
            final(self).clock_division == old(self).clock_division,
            match fetch(old(self).mem@.ram, old(self).mem.pc) {
                Ok(inst) => executed(old(self).mem@, inst, final(self).mem@, result) && untouched(
                    asked(old(self).mem@, inst),
                    *old(hw),
                    *final(hw),
                ),
                Err(error) => result == Err::<(), RuntimeError<H::Error>>(
                    RuntimeError::Software(error),
                ) && final(self).mem@ == old(self).mem@ && *final(hw) == *old(hw),
            },
    {
        let inst = failed(self.read_inst(self.mem.pc))?;
        self.exec(inst, hw)
    }

    /// The delay after a step whose clock asks for `delay` microseconds: the
    /// clock division times as long, and at most `u32::MAX`.
    pub fn stretched(&self, delay: u32) -> (stretched: u32)
        ensures
            stretched == if delay * self.clock_division <= u32::MAX {
                delay * self.clock_division
            } else {
                u32::MAX as int
            },
    {
        match delay.checked_mul(self.clock_division) {
            Some(stretched) => stretched,
            None => u32::MAX,
        }
    }

    /// One cycle of the run loop: a step, the delay after it, and the tick of
    /// the timers where the clock fires, which also sets the buzzer to
    /// whether the sound timer still runs. An `ldkey` that goes on waiting
    /// takes no time: no delay follows it, and clock and timers stay.
    pub fn cycle<H: HardwareExt>(&mut self, hw: &mut H, clock: &mut Clock) -> (result: Result<
        (),
        RuntimeError<H::Error>,
    >)
        ensures
            final(self).clock_division == old(self).clock_division,
            match result {
                Ok(_) => cycled(old(self).mem@, *old(clock), final(self).mem@, *final(clock)),
                Err(error) => cycle_failed(
                    old(self).mem@,
                    *old(clock),
                    final(self).mem@,
                    *final(clock),
                    error,
                ),
            },
            match fetch(old(self).mem@.ram, old(self).mem.pc) {
                Ok(inst) => kept(asked(old(self).mem@, inst), *old(hw), *final(hw)),
                Err(_) => *final(hw) == *old(hw),
            },
    {
        let ghost before = self.mem@;
        let pc = self.mem.pc;
        let inst = failed(self.read_inst(pc))?;
        self.exec(inst, hw)?;
        let ghost input = choose|input: Input|
            input.wf() && #[trigger] execute(before, inst, input) == (Outcome {
                state: self.mem@,
                result: Ok(()),
            });
        let ghost done = execute(before, inst, input);
        let waiting = match Opcode::decode(inst) {
            Some(Opcode::Ldkey) => self.mem.pc == pc,
            _ => false,
        };
        assert(waiting == waits(inst, input));
        if waiting {
            return Ok(());
        }
        let delay = self.stretched(clock.delay());
        let macro_tick = clock.tick();
        hardware(hw.delay().delay_micros(delay))?;
        if macro_tick {
            self.mem.dt = self.mem.dt.saturating_sub(1);
            self.mem.st = self.mem.st.saturating_sub(1);
            assert(self.mem@ =~= ticked(done.state));
            hardware(hw.buzzer().set_state(self.mem.st > 0))?;
        }
        Ok(())
    }

    /// Run the chip8 emulator from it's current state. The before_tick
    /// closure is executed prior to each clock "tick"; it observes the
    /// machine and may use the hardware.
    ///
    /// The run ends with the first cycle that fails, and so that it ends at
    /// all, after 2^64 cycles: this is `run_cycles` with as many cycles as
    /// can be counted.
    pub fn run<H, F>(&mut self, hw: &mut H, speed_hz: u32, before_tick: F) -> (result: Result<
        (),
        RuntimeError<H::Error>,
    >) where H: HardwareExt, F: FnMut(&Chip8, &mut H)
        requires
            forall|chip: &Chip8, hw: &mut H| before_tick.requires((chip, hw)),
        ensures
            final(self).clock_division == old(self).clock_division,
            !valid_speed(speed_hz) ==> result == Err::<(), RuntimeError<H::Error>>(
                RuntimeError::Software(Error::InvalidClockSpeed(speed_hz)),
            ) && final(self).mem@ == old(self).mem@,
            valid_speed(speed_hz) ==> exists|start: Clock, end: Clock|
                {
                    &&& start.period() == step_delay(speed_hz)
                    &&& start.elapsed() == 0
                    &&& #[trigger] run_ended(
                        old(self).mem@,
                        start,
                        u64::MAX as nat,
                        final(self).mem@,
                        end,
                        result,
                    )
                },
    {
        self.run_cycles(hw, speed_hz, u64::MAX, before_tick)
    }

    /// Runs the machine for `cycles` cycles, or until one fails. The
    /// before_tick closure is executed before every cycle but those that go
    /// on waiting for a key.
    ///
    /// A speed below 60 Hz or above 1 MHz is refused with
    /// `InvalidClockSpeed`, before anything is executed.
    pub fn run_cycles<H, F>(
        &mut self,
        hw: &mut H,
        speed_hz: u32,
        cycles: u64,
        before_tick: F,
    ) -> (result: Result<(), RuntimeError<H::Error>>) where
        H: HardwareExt,
        F: FnMut(&Chip8, &mut H),

        requires
            forall|chip: &Chip8, hw: &mut H| before_tick.requires((chip, hw)),
        ensures
            final(self).clock_division == old(self).clock_division,
            !valid_speed(speed_hz) ==> result == Err::<(), RuntimeError<H::Error>>(
                RuntimeError::Software(Error::InvalidClockSpeed(speed_hz)),
            ) && final(self).mem@ == old(self).mem@,
            valid_speed(speed_hz) ==> exists|start: Clock, end: Clock|
                {
                    &&& start.period() == step_delay(speed_hz)
                    &&& start.elapsed() == 0
                    &&& #[trigger] run_ended(
                        old(self).mem@,
                        start,
                        cycles as nat,
                        final(self).mem@,
                        end,
                        result,
                    )
                },
    {
        let mut before_tick = before_tick;
        let mut clock = failed(Clock::new(speed_hz))?;
        let ghost start = clock;
        proof {
            reveal_with_fuel(cycles_lead, 1);
        }
        let mut waiting = false;
        let mut done: u64 = 0;
        while done < cycles
            invariant
                forall|chip: &Chip8, hw: &mut H| before_tick.requires((chip, hw)),
                done <= cycles,
                self.clock_division == old(self).clock_division,
                valid_speed(speed_hz),
                start.period() == step_delay(speed_hz),
                start.elapsed() == 0,
                cycles_lead(old(self).mem@, start, done as nat, self.mem@, clock),
            decreases cycles - done,
        {
            if !waiting {
                before_tick(&*self, hw);
            }
            let ghost mid = self.mem@;
            let ghost clock_mid = clock;
            let pc = self.mem.pc;
            match self.cycle(hw, &mut clock) {
                Ok(_) => {
                    proof {
                        reveal_with_fuel(cycles_lead, 2);
                        assert(cycled(mid, clock_mid, self.mem@, clock));
                    }
                },
                Err(error) => {
                    assert(cycles_lead(old(self).mem@, start, done as nat, mid, clock_mid));
                    assert(run_ended(
                        old(self).mem@,
                        start,
                        cycles as nat,
                        self.mem@,
                        clock,
                        Err::<(), RuntimeError<H::Error>>(error),
                    ));
                    return Err(error);
                },
            }
            waiting = self.mem.pc == pc && self.awaits_key();
            done += 1;
        }
        assert(run_ended(
            old(self).mem@,
            start,
            cycles as nat,
            self.mem@,
            clock,
            Ok::<(), RuntimeError<H::Error>>(()),
        ));
        Ok(())
    }

    /// Whether the instruction at the program counter is `ldkey`.
    pub fn awaits_key(&self) -> (awaits: bool)
        ensures
            awaits == (fetch(self.mem@.ram, self.mem.pc) matches Ok(inst) && Opcode::spec_decode(
                inst,
            ) == Some(Opcode::Ldkey)),
    {
        match self.read_inst(self.mem.pc) {
            Ok(inst) => match Opcode::decode(inst) {
                Some(Opcode::Ldkey) => true,
                _ => false,
            },
            Err(_) => false,
        }
    }

    /// Executes the instruction `inst`, given what the peripherals answered:
    /// the state afterwards and the result are those of `execute`.
    pub fn apply(&mut self, inst: u16, input: Input) -> (result: Result<(), Error>)
        ensures
            final(self).clock_division == old(self).clock_division,
            (Outcome { state: final(self).mem@, result }) == execute(old(self).mem@, inst, input),
    {
        let addr = decode::addr(inst);
        let byte = decode::byte(inst);
        let vx_reg = decode::vx(inst);
        let vy_reg = decode::vy(inst);

        let vx = software(self.mem.reg.get(vx_reg))?;
        let vy = software(self.mem.reg.get(vy_reg))?;

        let opcode = match Opcode::decode(inst) {
            Some(opcode) => opcode,
            None => return Err(Error::UnknownInstruction(inst)),
        };
        let ghost before = self.mem@;
        let ghost expected = perform(before, opcode, inst, input);
        proof {
            use_type_invariant(&self.mem.stack);
            self.mem.lemma_wf();
        }

        match opcode {
            Opcode::Cls => {},
            Opcode::Ret => {
                let frame = software(self.mem.stack.pop())?;
                self.mem.pc = frame.wrapping_add(INST_STEP);
                assert(self.mem@ =~= expected.state);
                return Ok(());
            },
            Opcode::Jp => {
                self.mem.pc = addr;
                return Ok(());
            },
            Opcode::Call => {
                software(self.mem.stack.push(self.mem.pc))?;
                self.mem.pc = addr;
                assert(self.mem@ =~= expected.state);
                return Ok(());
            },
            Opcode::Se => self.skip(vx == byte),
            Opcode::Sne => self.skip(vx != byte),
            Opcode::Sev => self.skip(vx == vy),
            Opcode::Ld => software(self.mem.reg.set(vx_reg, byte))?,
            Opcode::Add => software(self.mem.reg.set(vx_reg, byte.wrapping_add(vx)))?,
            Opcode::Ldv => software(self.mem.reg.set(vx_reg, vy))?,
            Opcode::Or => software(self.mem.reg.set(vx_reg, vx | vy))?,
            Opcode::And => software(self.mem.reg.set(vx_reg, vx & vy))?,
            Opcode::Xor => software(self.mem.reg.set(vx_reg, vx ^ vy))?,
            Opcode::Addv => match vx.checked_add(vy) {
                Some(val) => {
                    software(self.mem.reg.set(vx_reg, val))?;
                    software(self.mem.reg.set(REG_FLAG, 0))?;
                },
                None => {
                    software(self.mem.reg.set(vx_reg, vx.wrapping_add(vy)))?;
                    software(self.mem.reg.set(REG_FLAG, 1))?;
                },
            },
            Opcode::Sub => {
                software(self.mem.reg.set(vx_reg, vx.wrapping_sub(vy)))?;
                software(self.mem.reg.set(REG_FLAG, flag(vx > vy)))?;
            },
            Opcode::Shr => {
                software(self.mem.reg.set(vx_reg, vx >> 1))?;
                software(self.mem.reg.set(REG_FLAG, vx & 1))?;
            },
            Opcode::Subn => {
                software(self.mem.reg.set(vx_reg, vy.wrapping_sub(vx)))?;
                software(self.mem.reg.set(REG_FLAG, flag(vy > vx)))?;
            },
            Opcode::Shl => {
                software(self.mem.reg.set(vx_reg, vx << 1))?;
                software(self.mem.reg.set(REG_FLAG, vx >> 7))?;
            },
            Opcode::Snev => self.skip(vx != vy),
            Opcode::Ldi => self.mem.i = addr,
            Opcode::Jp0 => {
                let v0 = software(self.mem.reg.get(0))?;
                self.mem.pc = addr + v0 as u16;
                return Ok(());
            },
            Opcode::Rnd => software(self.mem.reg.set(vx_reg, byte & input.rand))?,
            Opcode::Drw => {
                software(self.mem.ram.read_bytes(self.mem.i, decode::nibble(inst) as u16))?;
                software(self.mem.reg.set(REG_FLAG, flag(input.erased)))?;
            },
            Opcode::Skp => match input.key {
                Some(key) => self.skip(key == vx),
                None => {},
            },
            Opcode::Sknp => match input.key {
                Some(key) => self.skip(key != vx),
                None => {},
            },
            Opcode::Lddtv => software(self.mem.reg.set(vx_reg, self.mem.dt))?,
            Opcode::Ldkey => match input.key {
                Some(key) => software(self.mem.reg.set(vx_reg, key))?,
                None => return Ok(()),
            },
            Opcode::Lddt => self.mem.dt = vx,
            Opcode::Ldst => self.mem.st = vx,
            Opcode::Addi => self.mem.i = self.mem.i.wrapping_add(vx as u16),
            Opcode::Sprite => self.mem.i = software(self.mem.ram.to_sprite_addr(vx))?,
            Opcode::Bcd => {
                let digits = [vx / 100, (vx / 10) % 10, vx % 10];
                assert(digits@ =~= bcd(vx));
                self.store(digits.as_slice())?;
            },
            Opcode::Sviv => {
                let mut values: Vec<u8> = Vec::new();
                let mut loc: u8 = 0;
                while loc <= vx_reg
                    invariant
                        vx_reg < 16,
                        loc <= vx_reg + 1,
                        self.clock_division == old(self).clock_division,
                        self.mem@ == before,
                        values@ == before.reg.take(loc as int),
                        before.reg.len() == 16,
                    decreases vx_reg + 1 - loc,
                {
                    let val = software(self.mem.reg.get(loc))?;
                    values.push(val);
                    loc += 1;
                    assert(values@ =~= before.reg.take(loc as int));
                }
                self.store(values.as_slice())?;
            },
            Opcode::Ldiv => {
                let ghost loaded = loaded_registers(before, vx_reg);
                let data = software(self.mem.ram.read_bytes(self.mem.i, vx_reg as u16 + 1))?;
                let mut loc: u8 = 0;
                while loc <= vx_reg
                    invariant
                        vx_reg < 16,
                        loc <= vx_reg + 1,
                        self.clock_division == old(self).clock_division,
                        data@.len() == vx_reg + 1,
                        data@ == before.ram.subrange(before.i as int, before.i + vx_reg + 1),
                        before.i + vx_reg + 1 <= 0x1000,
                        before.ram.len() == 4096,
                        before.reg.len() == 16,
                        self.mem@ == (State { reg: self.mem.reg@, ..before }),
                        self.mem.reg@.len() == 16,
                        forall|r: int|
                            0 <= r < 16 ==> self.mem.reg@[r] == if r < loc {
                                before.ram[before.i + r]
                            } else {
                                before.reg[r]
                            },
                    decreases vx_reg + 1 - loc,
                {
                    software(self.mem.reg.set(loc, data[loc as usize]))?;
                    loc += 1;
                }
                assert(self.mem.reg@ =~= loaded);
            },
        };

        self.mem.pc = self.mem.pc.wrapping_add(INST_STEP);
        assert(self.mem@ =~= expected.state);
        Ok(())
    }

    /// Skips the next instruction if `skip` holds.
    fn skip(&mut self, skip: bool)
        ensures
            final(self).clock_division == old(self).clock_division,
            final(self).mem@ == (State {
                pc: if skip {
                    old(self).mem.pc.wrapping_add(2)
                } else {
                    old(self).mem.pc
                },
                ..old(self).mem@
            }),
    {
        if skip {
            self.mem.pc = self.mem.pc.wrapping_add(INST_STEP);
        }
    }

    /// Writes `bytes` to RAM from `I` on, byte by byte, until one cannot be
    /// written.
    fn store(&mut self, bytes: &[u8]) -> (result: Result<(), Error>)
        requires
            bytes@.len() <= 16,
        ensures
            final(self).clock_division == old(self).clock_division,
            (Outcome { state: final(self).mem@, result }) == store_from(
                old(self).mem@,
                bytes@,
                0,
            ),
    {
        let ghost whole = store_from(self.mem@, bytes@, 0);
        let mut k: usize = 0;
        while k < bytes.len()
            invariant
                k <= bytes@.len() <= 16,
                self.clock_division == old(self).clock_division,
                whole == store_from(old(self).mem@, bytes@, 0),
                whole == store_from(self.mem@, bytes@, k as nat),
            decreases bytes@.len() - k,
        {
            let ghost s = self.mem@;
            let addr = self.mem.i.saturating_add(k as u16);
            let written = software(self.mem.ram.write_byte(addr, bytes[k]));
            proof {
                let next = State { ram: s.ram.update(addr as int, bytes@[k as int]), ..s };
                assert(whole == match mem::write_error(addr) {
                    Some(error) => super::semantics::fail(s, Error::Memory(error)),
                    None => store_from(next, bytes@, k as nat + 1),
                });
                if written is Ok {
                    assert(self.mem@ =~= next);
                } else {
                    assert(self.mem@ =~= s);
                }
            }
            written?;
            k += 1;
        }
        Ok(())
    }
}

} // verus!
