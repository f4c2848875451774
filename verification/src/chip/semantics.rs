//! What each instruction does to the state of the machine, as a function of
//! the state, the instruction word and what the peripherals answered.
use super::clock::Clock;
use super::error::{Error, RuntimeError};
use crate::hal::HardwareExt;
use crate::inst::bytecode::decode;
use crate::inst::Opcode;
use crate::mem;
use crate::mem::{pop_result, popped, push_result, pushed, sprite_addr, valid_slice, write_error};
use crate::mem::State;
use vstd::prelude::*;

verus! {

/// What the peripherals answer while an instruction is executed. An
/// instruction reads the field that belongs to it, if any.
#[derive(Debug, Clone, Copy)]
pub struct Input {
    /// The random byte, for `rnd`.
    pub rand: u8,
    /// Whether the sprite erased pixels, for `drw`.
    pub erased: bool,
    /// The key that was read, if any, for `skp`, `sknp` and `ldkey`.
    pub key: Option<u8>,
}

impl Input {
    /// Whether the key, if there is one, is a key of the keypad.
    pub open spec fn wf(self) -> bool {
        self.key matches Some(value) ==> value < 16
    }

    /// The input of an instruction that asks nothing of the peripherals.
    pub fn none() -> (input: Self)
        ensures
            input == (Input { rand: 0, erased: false, key: None }),
    {
        Input { rand: 0, erased: false, key: None }
    }
}

/// The state after an instruction, and whether it succeeded.
#[verifier::ext_equal]
pub struct Outcome {
    pub state: State,
    pub result: Result<(), Error>,
}

/// The instruction is complete: the program counter moves on to the next.
pub open spec fn proceed(s: State) -> Outcome {
    Outcome { state: State { pc: s.pc.wrapping_add(2), ..s }, result: Ok(()) }
}

/// The instruction is complete, and the next is skipped if `skip` holds.
pub open spec fn skip_if(s: State, skip: bool) -> Outcome {
    if skip {
        proceed(State { pc: s.pc.wrapping_add(2), ..s })
    } else {
        proceed(s)
    }
}

/// A control transfer: the program counter is set, and does not move on.
pub open spec fn jump(s: State, pc: u16) -> Outcome {
    Outcome { state: State { pc, ..s }, result: Ok(()) }
}

/// The instruction fails and leaves the state as `s`.
pub open spec fn fail(s: State, error: Error) -> Outcome {
    Outcome { state: s, result: Err(error) }
}

/// The state with register `x` set to `value`.
pub open spec fn set(s: State, x: u8, value: u8) -> State {
    State { reg: s.reg.update(x as int, value), ..s }
}

/// The state with register `x` set to `value` and then `VF` to `flag`.
pub open spec fn set_flagged(s: State, x: u8, value: u8, flag: u8) -> State {
    State { reg: s.reg.update(x as int, value).update(0xF, flag), ..s }
}

/// The number that stands for a truth value in `VF`.
pub open spec fn flag(holds: bool) -> u8 {
    if holds {
        1
    } else {
        0
    }
}

/// The bytes `bytes[k..]` are written to RAM one by one, `bytes[j]` to the
/// address `I + j`, which saturates. The first address that a program cannot
/// write ends the instruction with its error; the bytes before it stay
/// written.
pub open spec fn store_from(s: State, bytes: Seq<u8>, k: nat) -> Outcome
    decreases bytes.len() - k,
{
    if k >= bytes.len() {
        Outcome { state: s, result: Ok(()) }
    } else {
        let addr = s.i.saturating_add(k as u16);
        match write_error(addr) {
            Some(error) => fail(s, Error::Memory(error)),
            None => store_from(
                State { ram: s.ram.update(addr as int, bytes[k as int]), ..s },
                bytes,
                k + 1,
            ),
        }
    }
}

/// The three decimal digits of `value`, the hundreds first.
pub open spec fn bcd(value: u8) -> Seq<u8> {
    seq![value / 100, (value / 10) % 10, value % 10]
}

/// The registers after `V0` to `Vx` were read from RAM at `I`.
pub open spec fn loaded_registers(s: State, x: u8) -> Seq<u8> {
    Seq::new(
        16,
        |r: int|
            if r <= x {
                s.ram[s.i + r]
            } else {
                s.reg[r]
            },
    )
}

/// What `opcode` does, with the operands that `inst` carries.
pub open spec fn perform(s: State, opcode: Opcode, inst: u16, input: Input) -> Outcome {
    let addr = decode::spec_addr(inst);
    let byte = decode::spec_byte(inst);
    let nibble = decode::spec_nibble(inst);
    let x = decode::spec_vx(inst);
    let vx = s.reg[x as int];
    let vy = s.reg[decode::spec_vy(inst) as int];
    match opcode {
        Opcode::Cls => proceed(s),
        Opcode::Ret => match pop_result(s.stack) {
            Ok(frame) => jump(State { stack: popped(s.stack), ..s }, frame.wrapping_add(2)),
            Err(error) => fail(s, Error::Memory(error)),
        },
        Opcode::Jp => jump(s, addr),
        Opcode::Call => match push_result(s.stack, s.pc) {
            Ok(_) => jump(State { stack: pushed(s.stack, s.pc), ..s }, addr),
            Err(error) => fail(s, Error::Memory(error)),
        },
        Opcode::Se => skip_if(s, vx == byte),
        Opcode::Sne => skip_if(s, vx != byte),
        Opcode::Sev => skip_if(s, vx == vy),
        Opcode::Ld => proceed(set(s, x, byte)),
        Opcode::Add => proceed(set(s, x, byte.wrapping_add(vx))),
        Opcode::Ldv => proceed(set(s, x, vy)),
        Opcode::Or => proceed(set(s, x, vx | vy)),
        Opcode::And => proceed(set(s, x, vx & vy)),
        Opcode::Xor => proceed(set(s, x, vx ^ vy)),
        Opcode::Addv => proceed(set_flagged(s, x, vx.wrapping_add(vy), flag(vx + vy > 0xFF))),
        Opcode::Sub => proceed(set_flagged(s, x, vx.wrapping_sub(vy), flag(vx > vy))),
        Opcode::Shr => proceed(set_flagged(s, x, vx >> 1, vx & 1)),
        Opcode::Subn => proceed(set_flagged(s, x, vy.wrapping_sub(vx), flag(vy > vx))),
        Opcode::Shl => proceed(set_flagged(s, x, vx << 1, vx >> 7)),
        Opcode::Snev => skip_if(s, vx != vy),
        Opcode::Ldi => proceed(State { i: addr, ..s }),
        Opcode::Jp0 => jump(s, (addr + s.reg[0]) as u16),
        Opcode::Rnd => proceed(set(s, x, byte & input.rand)),
        Opcode::Drw => if valid_slice(s.i, nibble as u16) {
            proceed(set(s, 0xF, flag(input.erased)))
        } else {
            fail(s, Error::Memory(mem::Error::InvalidSlice { addr: s.i, len: nibble as u16 }))
        },
        Opcode::Skp => match input.key {
            Some(key) => skip_if(s, key == vx),
            None => proceed(s),
        },
        Opcode::Sknp => match input.key {
            Some(key) => skip_if(s, key != vx),
            None => proceed(s),
        },
        Opcode::Lddtv => proceed(set(s, x, s.dt)),
        Opcode::Ldkey => match input.key {
            Some(key) => proceed(set(s, x, key)),
            None => Outcome { state: s, result: Ok(()) },
        },
        Opcode::Lddt => proceed(State { dt: vx, ..s }),
        Opcode::Ldst => proceed(State { st: vx, ..s }),
        Opcode::Addi => proceed(State { i: s.i.wrapping_add(vx as u16), ..s }),
        Opcode::Sprite => if vx < 16 {
            proceed(State { i: sprite_addr(vx), ..s })
        } else {
            fail(s, Error::Memory(mem::Error::InvalidSprite { sprite: vx }))
        },
        Opcode::Bcd => {
            let stored = store_from(s, bcd(vx), 0);
            if stored.result is Ok {
                proceed(stored.state)
            } else {
                stored
            }
        },
        Opcode::Sviv => {
            let stored = store_from(s, s.reg.take(x + 1), 0);
            if stored.result is Ok {
                proceed(stored.state)
            } else {
                stored
            }
        },
        Opcode::Ldiv => if valid_slice(s.i, (x + 1) as u16) {
            proceed(State { reg: loaded_registers(s, x), ..s })
        } else {
            fail(s, Error::Memory(mem::Error::InvalidSlice { addr: s.i, len: (x + 1) as u16 }))
        },
    }
}

/// What the instruction word `inst` does to the state `s`, where the
/// peripherals answer `input`. A word that carries no opcode is an error.
pub open spec fn execute(s: State, inst: u16, input: Input) -> Outcome {
    match Opcode::spec_decode(inst) {
        Some(opcode) => perform(s, opcode, inst, input),
        None => fail(s, Error::UnknownInstruction(inst)),
    }
}

/// What an instruction asks of the hardware.
pub enum Asked {
    /// Nothing.
    Nothing,
    /// To clear the screen, for `cls`.
    Clear,
    /// A random byte, for `rnd`.
    Rand,
    /// To draw the sprite `rows` at `(x, y)`, and to say whether it erased
    /// pixels, for `drw`.
    Draw { x: u8, y: u8, rows: Seq<u8> },
    /// The key that is down, if one is, for `skp` and `sknp`.
    Key,
    /// The next key that is pressed, for `ldkey`.
    WaitKey,
}

/// What the instruction word `inst` asks of the hardware in the state `s`.
/// `drw` draws at `(Vx, Vy)`, as the registers hold them, the rows that `I`
/// points to, as many as the nibble of the word says; it asks nothing where
/// these rows do not lie in RAM, as it then fails. A word that carries no
/// opcode asks nothing.
pub open spec fn asked(s: State, inst: u16) -> Asked {
    let rows = decode::spec_nibble(inst) as u16;
    match Opcode::spec_decode(inst) {
        Some(Opcode::Cls) => Asked::Clear,
        Some(Opcode::Rnd) => Asked::Rand,
        Some(Opcode::Drw) => if valid_slice(s.i, rows) {
            Asked::Draw {
                x: s.reg[decode::spec_vx(inst) as int],
                y: s.reg[decode::spec_vy(inst) as int],
                rows: s.ram.subrange(s.i as int, s.i + rows),
            }
        } else {
            Asked::Nothing
        },
        Some(Opcode::Skp) => Asked::Key,
        Some(Opcode::Sknp) => Asked::Key,
        Some(Opcode::Ldkey) => Asked::WaitKey,
        _ => Asked::Nothing,
    }
}

/// Whether the peripherals that `asked` does not concern are in `after` as
/// they were in `before`. The screen is asked to clear and to draw, the
/// random number generator for a byte, and the keypad for a key, with the
/// delay at its service.
pub open spec fn untouched<H: HardwareExt>(asked: Asked, before: H, after: H) -> bool {
    match asked {
        Asked::Nothing => after == before,
        Asked::Clear | Asked::Draw { .. } => {
            &&& after.spec_delay() == before.spec_delay()
            &&& after.spec_keypad() == before.spec_keypad()
            &&& after.spec_buzzer() == before.spec_buzzer()
            &&& after.spec_rng() == before.spec_rng()
        },
        Asked::Rand => {
            &&& after.spec_delay() == before.spec_delay()
            &&& after.spec_screen() == before.spec_screen()
            &&& after.spec_keypad() == before.spec_keypad()
            &&& after.spec_buzzer() == before.spec_buzzer()
        },
        Asked::Key | Asked::WaitKey => {
            &&& after.spec_screen() == before.spec_screen()
            &&& after.spec_buzzer() == before.spec_buzzer()
            &&& after.spec_rng() == before.spec_rng()
        },
    }
}

/// Whether the peripherals that neither `asked` nor the pacing of a cycle
/// concern are in `after` as they were in `before`. The pacing is the
/// business of the delay and of the buzzer.
pub open spec fn kept<H: HardwareExt>(asked: Asked, before: H, after: H) -> bool {
    &&& asked is Clear || asked is Draw || after.spec_screen() == before.spec_screen()
    &&& asked is Rand || after.spec_rng() == before.spec_rng()
    &&& asked is Key || asked is WaitKey || after.spec_keypad() == before.spec_keypad()
}

/// What holds of the state `after` and the result of executing `inst` in the
/// state `before` with some hardware.
///
/// The hardware may fail, if the instruction asks something of it; the state
/// is then unchanged. Otherwise state and result are those that `execute`
/// gives for an answer of the hardware, in which a key is a key of the
/// keypad, and if the instruction asks nothing of the hardware, those that it
/// gives for every answer.
///
/// What is asked of the hardware is `asked`; that it is asked is what the
/// engine does, and no clause can say so: nothing is known of the hardware
/// but its answers.
pub open spec fn executed<E>(
    before: State,
    inst: u16,
    after: State,
    result: Result<(), RuntimeError<E>>,
) -> bool {
    &&& match result {
        Ok(_) => exists|input: Input|
            input.wf() && #[trigger] execute(before, inst, input) == (Outcome {
                state: after,
                result: Ok(()),
            }),
        Err(RuntimeError::Software(error)) => exists|input: Input|
            input.wf() && #[trigger] execute(before, inst, input) == (Outcome {
                state: after,
                result: Err(error),
            }),
        Err(RuntimeError::Hardware(_)) => !(asked(before, inst) is Nothing) && after == before,
    }
    &&& asked(before, inst) is Nothing ==> forall|input: Input| #[trigger]
        execute(before, inst, input) == (Outcome {
            state: after,
            result: match result {
                Err(RuntimeError::Software(error)) => Err(error),
                _ => Ok(()),
            },
        })
}

/// The state after a tick of the timers: each is one less, unless it is
/// zero.
pub open spec fn ticked(s: State) -> State {
    State { dt: s.dt.saturating_sub(1), st: s.st.saturating_sub(1), ..s }
}

/// Whether `inst` is an `ldkey` that found no key, and goes on waiting.
pub open spec fn waits(inst: u16, input: Input) -> bool {
    Opcode::spec_decode(inst) == Some(Opcode::Ldkey) && input.key is None
}

/// What holds of a cycle of the run loop that succeeds, from the state
/// `before` with the clock `clock` to the state `after` with the clock
/// `clock_after`.
///
/// The instruction at the program counter is executed. Unless it is an
/// `ldkey` that goes on waiting, the delay of one step passes, and where the
/// clock fires, the timers tick.
pub open spec fn cycled(before: State, clock: Clock, after: State, clock_after: Clock) -> bool {
    match fetch(before.ram, before.pc) {
        Ok(inst) => exists|input: Input|
            {
                let done = #[trigger] execute(before, inst, input);
                &&& input.wf()
                &&& done.result is Ok
                &&& if waits(inst, input) {
                    after == before && clock_after == clock
                } else {
                    &&& clock.ticks_to(clock_after)
                    &&& after == if clock.fires() {
                        ticked(done.state)
                    } else {
                        done.state
                    }
                }
            },
        Err(_) => false,
    }
}

/// What holds of a cycle of the run loop that fails.
///
/// It fails with the error of the program, if the instruction cannot be
/// fetched or fails; the clock is then as it was. It fails with an error of
/// the hardware, if the instruction asks something of a peripheral that
/// fails, which leaves state and clock as they were; if the delay fails,
/// after the instruction was executed and the clock has moved on; or if the
/// buzzer fails, after the timers have ticked as well.
pub open spec fn cycle_failed<E>(
    before: State,
    clock: Clock,
    after: State,
    clock_after: Clock,
    error: RuntimeError<E>,
) -> bool {
    match fetch(before.ram, before.pc) {
        Ok(inst) => match error {
            RuntimeError::Software(error) => clock_after == clock && exists|input: Input|
                input.wf() && #[trigger] execute(before, inst, input) == (Outcome {
                    state: after,
                    result: Err(error),
                }),
            RuntimeError::Hardware(_) => {
                ||| !(asked(before, inst) is Nothing) && after == before && clock_after == clock
                ||| exists|input: Input|
                    {
                        let done = #[trigger] execute(before, inst, input);
                        &&& input.wf()
                        &&& done.result is Ok
                        &&& !waits(inst, input)
                        &&& clock.ticks_to(clock_after)
                        &&& after == done.state || (clock.fires() && after == ticked(done.state))
                    }
            },
        },
        Err(fault) => error == RuntimeError::<E>::Software(fault) && after == before && clock_after
            == clock,
    }
}

/// Whether `n` cycles that succeed lead from the state `before` with the
/// clock `clock` to the state `after` with the clock `clock_after`.
#[verifier::opaque]
pub open spec fn cycles_lead(
    before: State,
    clock: Clock,
    n: nat,
    after: State,
    clock_after: Clock,
) -> bool
    decreases n,
{
    if n == 0 {
        after == before && clock_after == clock
    } else {
        exists|mid: State, clock_mid: Clock|
            #![trigger cycled(mid, clock_mid, after, clock_after)]
            cycles_lead(before, clock, (n - 1) as nat, mid, clock_mid) && cycled(
                mid,
                clock_mid,
                after,
                clock_after,
            )
    }
}

/// Whether `opcode` sets the program counter itself.
pub open spec fn transfers_control(opcode: Opcode) -> bool {
    opcode == Opcode::Jp || opcode == Opcode::Jp0 || opcode == Opcode::Call || opcode
        == Opcode::Ret
}

/// The word that starts at `addr`: big-endian, the high byte at the lower
/// address.
pub open spec fn word_at(ram: Seq<u8>, addr: int) -> u16 {
    (ram[addr] as u16) << 8 | (ram[addr + 1] as u16)
}

/// The instruction word at `addr`. The address must lie in RAM, and must be
/// even.
pub open spec fn fetch(ram: Seq<u8>, addr: u16) -> Result<u16, Error> {
    if addr >= 0x1000 {
        Err(Error::Memory(mem::Error::InvalidAddress { addr }))
    } else if addr % 2 != 0 {
        Err(Error::OffsetNotAligned(addr))
    } else {
        Ok(word_at(ram, addr as int))
    }
}

/// What holds of a run of at most `cycles` cycles from the state `before`
/// with the clock `start`, which ends in the state `after` with the clock
/// `end`: either all cycles succeed, or fewer do and the next one fails.
pub open spec fn run_ended<E>(
    before: State,
    start: Clock,
    cycles: nat,
    after: State,
    end: Clock,
    result: Result<(), RuntimeError<E>>,
) -> bool {
    match result {
        Ok(_) => cycles_lead(before, start, cycles, after, end),
        Err(error) => exists|n: nat, mid: State, clock_mid: Clock|
            {
                &&& n < cycles
                &&& #[trigger] cycles_lead(before, start, n, mid, clock_mid)
                &&& cycle_failed(mid, clock_mid, after, end, error)
            },
    }
}

} // verus!
