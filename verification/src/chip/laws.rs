//! What holds of the engine whatever the program: how the program counter
//! moves, and when the timers change.
use super::clock::{Clock, MACRO_TICK};
use super::error::Error;
use super::semantics::{cycled, execute, fetch, store_from, transfers_control, waits, Input};
use crate::inst::bytecode::decode;
use crate::inst::Opcode;
use crate::mem::{overlay, word_bytes, State};
use vstd::arithmetic::div_mod::lemma_fundamental_div_mod_converse;
use vstd::prelude::*;

verus! {

/// Whether the instruction `inst` skips the instruction that follows it.
pub open spec fn skips(s: State, inst: u16, input: Input) -> bool {
    let byte = decode::spec_byte(inst);
    let vx = s.reg[decode::spec_vx(inst) as int];
    let vy = s.reg[decode::spec_vy(inst) as int];
    match Opcode::spec_decode(inst) {
        Some(Opcode::Se) => vx == byte,
        Some(Opcode::Sne) => vx != byte,
        Some(Opcode::Sev) => vx == vy,
        Some(Opcode::Snev) => vx != vy,
        Some(Opcode::Skp) => input.key matches Some(key) && key == vx,
        Some(Opcode::Sknp) => input.key matches Some(key) && key != vx,
        _ => false,
    }
}

/// Storing bytes changes RAM and nothing else.
pub proof fn lemma_store_keeps(s: State, bytes: Seq<u8>, k: nat)
    ensures
        store_from(s, bytes, k).state == (State { ram: store_from(s, bytes, k).state.ram, ..s }),
    decreases bytes.len() - k,
{
    if k < bytes.len() {
        let addr = s.i.saturating_add(k as u16);
        lemma_store_keeps(
            State { ram: s.ram.update(addr as int, bytes[k as int]), ..s },
            bytes,
            k + 1,
        );
    }
}

/// After an instruction that completes and is no control transfer, the
/// program counter has moved on by 2, or by 4 where the instruction skips the
/// next. An `ldkey` that goes on waiting is not complete.
///
/// The sum wraps at 16 bits; it does not wrap for an instruction that was
/// fetched, as the program counter then lies in RAM.
pub proof fn lemma_pc_advances(s: State, inst: u16, input: Input)
    requires
        Opcode::spec_decode(inst) matches Some(opcode) && !transfers_control(opcode),
        execute(s, inst, input).result is Ok,
        !waits(inst, input),
    ensures
        execute(s, inst, input).state.pc == s.pc.wrapping_add(
            if skips(s, inst, input) {
                4
            } else {
                2
            },
        ),
        fetch(s.ram, s.pc) is Ok ==> execute(s, inst, input).state.pc == s.pc + if skips(
            s,
            inst,
            input,
        ) {
            4int
        } else {
            2int
        },
{
    let x = decode::spec_vx(inst);
    lemma_store_keeps(s, super::semantics::bcd(s.reg[x as int]), 0);
    lemma_store_keeps(s, s.reg.take(x + 1), 0);
}

/// A control transfer sets the program counter to its target: `jp` to the
/// address, `jp0` to the address plus `V0`, `call` to the address, and `ret`
/// to the instruction after the call that the newest frame records.
pub proof fn lemma_control_transfer(s: State, inst: u16, input: Input)
    requires
        Opcode::spec_decode(inst) matches Some(opcode) && transfers_control(opcode),
        execute(s, inst, input).result is Ok,
    ensures
        execute(s, inst, input).state.pc == match Opcode::spec_decode(inst)->Some_0 {
            Opcode::Jp => decode::spec_addr(inst),
            Opcode::Jp0 => (decode::spec_addr(inst) + s.reg[0]) as u16,
            Opcode::Call => decode::spec_addr(inst),
            _ => s.stack.last().wrapping_add(2),
        },
{
}

/// An instruction leaves the delay timer as it is, unless it is `lddt`, and
/// the sound timer as it is, unless it is `ldst`; these two set their timer
/// to `Vx`.
pub proof fn lemma_timers_kept(s: State, inst: u16, input: Input)
    ensures
        execute(s, inst, input).state.dt == if Opcode::spec_decode(inst) == Some(Opcode::Lddt) {
            s.reg[decode::spec_vx(inst) as int]
        } else {
            s.dt
        },
        execute(s, inst, input).state.st == if Opcode::spec_decode(inst) == Some(Opcode::Ldst) {
            s.reg[decode::spec_vx(inst) as int]
        } else {
            s.st
        },
{
    let x = decode::spec_vx(inst);
    lemma_store_keeps(s, super::semantics::bcd(s.reg[x as int]), 0);
    lemma_store_keeps(s, s.reg.take(x + 1), 0);
}

/// Whether a cycle from `before` to `after` was spent waiting for a key: the
/// instruction is `ldkey`, and the program counter has not moved.
pub open spec fn waited(before: State, after: State) -> bool {
    &&& fetch(before.ram, before.pc) matches Ok(inst) && Opcode::spec_decode(inst) == Some(
        Opcode::Ldkey,
    )
    &&& after.pc == before.pc
}

/// A cycle spent waiting for a key changes nothing. Over any other cycle the
/// clock moves on by one step, and a timer that the instruction does not set
/// stays as it is where the clock does not fire, and is one less, unless it
/// is zero, where the clock fires. So no timer grows over a cycle that
/// executes neither `lddt` nor `ldst`.
pub proof fn lemma_cycle_timers(before: State, clock: Clock, after: State, clock_after: Clock)
    requires
        cycled(before, clock, after, clock_after),
    ensures
        ({
            let inst = fetch(before.ram, before.pc)->Ok_0;
            let opcode = Opcode::spec_decode(inst);
            &&& waited(before, after) ==> after == before && clock_after == clock
            &&& !waited(before, after) ==> {
                &&& clock.ticks_to(clock_after)
                &&& opcode != Some(Opcode::Lddt) ==> after.dt == if clock.fires() {
                    before.dt.saturating_sub(1)
                } else {
                    before.dt
                }
                &&& opcode != Some(Opcode::Ldst) ==> after.st == if clock.fires() {
                    before.st.saturating_sub(1)
                } else {
                    before.st
                }
            }
            &&& opcode != Some(Opcode::Lddt) ==> after.dt <= before.dt
            &&& opcode != Some(Opcode::Ldst) ==> after.st <= before.st
        }),
{
    let inst = fetch(before.ram, before.pc)->Ok_0;
    let input = choose|input: Input|
        {
            let done = #[trigger] execute(before, inst, input);
            &&& input.wf()
            &&& done.result is Ok
            &&& if waits(inst, input) {
                after == before && clock_after == clock
            } else {
                &&& clock.ticks_to(clock_after)
                &&& after == if clock.fires() {
                    super::semantics::ticked(done.state)
                } else {
                    done.state
                }
            }
        };
    lemma_timers_kept(before, inst, input);
}

/// The microseconds that a clock holds after `n` steps, which starts with
/// `elapsed` microseconds and accumulates `period` microseconds per step.
pub open spec fn elapsed_after(period: nat, elapsed: nat, n: nat) -> nat
    decreases n,
{
    if n == 0 {
        elapsed
    } else {
        (elapsed_after(period, elapsed, (n - 1) as nat) + period) % (MACRO_TICK as nat)
    }
}

/// How often such a clock fires within `n` steps.
pub open spec fn fired_within(period: nat, elapsed: nat, n: nat) -> nat
    decreases n,
{
    if n == 0 {
        0
    } else {
        fired_within(period, elapsed, (n - 1) as nat) + if elapsed_after(
            period,
            elapsed,
            (n - 1) as nat,
        ) + period >= MACRO_TICK {
            1nat
        } else {
            0nat
        }
    }
}

/// A clock fires once for every 16666 microseconds of delay that it has
/// accumulated, and keeps the rest: after `n` steps it has fired as often as
/// 16666 goes into the microseconds it was given, and holds the remainder.
pub proof fn lemma_clock_accumulates(period: nat, elapsed: nat, n: nat)
    requires
        1 <= period <= MACRO_TICK,
        elapsed < MACRO_TICK,
    ensures
        elapsed_after(period, elapsed, n) < MACRO_TICK,
        fired_within(period, elapsed, n) * MACRO_TICK + elapsed_after(period, elapsed, n)
            == elapsed + n * period,
        fired_within(period, elapsed, n) == (elapsed + n * period) / (MACRO_TICK as nat),
        elapsed_after(period, elapsed, n) == (elapsed + n * period) % (MACRO_TICK as nat),
    decreases n,
{
    if n > 0 {
        lemma_clock_accumulates(period, elapsed, (n - 1) as nat);
        assert(n * period == (n - 1) * period + period) by (nonlinear_arith);
        let held = elapsed_after(period, elapsed, (n - 1) as nat);
        let fired = fired_within(period, elapsed, (n - 1) as nat);
        assert((fired + 1) * MACRO_TICK == fired * MACRO_TICK + MACRO_TICK) by (nonlinear_arith);
    } else {
        assert(0 * period == 0) by (nonlinear_arith);
    }
    lemma_fundamental_div_mod_converse(
        (elapsed + n * period) as int,
        MACRO_TICK as int,
        fired_within(period, elapsed, n) as int,
        elapsed_after(period, elapsed, n) as int,
    );
}

/// One tick of a clock is one step of `elapsed_after` and `fired_within`.
pub proof fn lemma_tick_is_step(clock: Clock, after: Clock)
    requires
        clock.ticks_to(after),
    ensures
        after.elapsed() == elapsed_after(clock.period() as nat, clock.elapsed() as nat, 1),
        clock.fires() <==> fired_within(clock.period() as nat, clock.elapsed() as nat, 1) == 1,
{
    assert(elapsed_after(clock.period() as nat, clock.elapsed() as nat, 0) == clock.elapsed());
    assert(fired_within(clock.period() as nat, clock.elapsed() as nat, 0) == 0);
}

/// Whether the instruction at the program counter sets a timer: whether it
/// is `lddt` or `ldst`.
pub open spec fn sets_timer(s: State) -> bool {
    fetch(s.ram, s.pc) matches Ok(inst) && (Opcode::spec_decode(inst) == Some(Opcode::Lddt)
        || Opcode::spec_decode(inst) == Some(Opcode::Ldst))
}

/// Whether `n` cycles that succeed lead from the state `before` with the
/// clock `clock` to the state `after` with the clock `clock_after`, none of
/// which sets a timer, and none of which is spent waiting for a key unless
/// `waiting` allows it.
pub open spec fn quiet_cycles_lead(
    before: State,
    clock: Clock,
    n: nat,
    after: State,
    clock_after: Clock,
    waiting: bool,
) -> bool
    decreases n,
{
    if n == 0 {
        after == before && clock_after == clock
    } else {
        exists|mid: State, clock_mid: Clock|
            #![trigger cycled(mid, clock_mid, after, clock_after)]
            {
                &&& quiet_cycles_lead(before, clock, (n - 1) as nat, mid, clock_mid, waiting)
                &&& cycled(mid, clock_mid, after, clock_after)
                &&& !sets_timer(mid)
                &&& waiting || !waited(mid, after)
            }
    }
}

/// Between two instants with no `lddt` and no `ldst` between them, no timer
/// grows.
pub proof fn lemma_timers_never_grow(
    before: State,
    clock: Clock,
    n: nat,
    after: State,
    clock_after: Clock,
)
    requires
        quiet_cycles_lead(before, clock, n, after, clock_after, true),
    ensures
        after.dt <= before.dt,
        after.st <= before.st,
    decreases n,
{
    if n > 0 {
        let (mid, clock_mid) = choose|mid: State, clock_mid: Clock|
            #![trigger cycled(mid, clock_mid, after, clock_after)]
            {
                &&& quiet_cycles_lead(before, clock, (n - 1) as nat, mid, clock_mid, true)
                &&& cycled(mid, clock_mid, after, clock_after)
                &&& !sets_timer(mid)
            };
        lemma_timers_never_grow(before, clock, (n - 1) as nat, mid, clock_mid);
        lemma_cycle_timers(mid, clock_mid, after, clock_after);
    }
}

/// The value of a timer that started at `timer` after it has ticked `ticks`
/// times: it counts down to zero and stays there.
pub open spec fn counted_down(timer: u8, ticks: nat) -> u8 {
    if ticks >= timer {
        0
    } else {
        (timer - ticks) as u8
    }
}

/// Over `n` cycles with no `lddt`, no `ldst` and no wait for a key, the
/// timers tick exactly once for every 16666 microseconds of delay that the
/// clock accumulates: each has counted down by the number of times the clock
/// fired, which is the accumulated delay divided by 16666.
pub proof fn lemma_timers_count_ticks(
    before: State,
    clock: Clock,
    n: nat,
    after: State,
    clock_after: Clock,
)
    requires
        clock.wf(),
        quiet_cycles_lead(before, clock, n, after, clock_after, false),
    ensures
        ({
            let period = clock.period() as nat;
            let elapsed = clock.elapsed() as nat;
            let fired = fired_within(period, elapsed, n);
            &&& clock_after.period() == clock.period()
            &&& clock_after.elapsed() == elapsed_after(period, elapsed, n)
            &&& fired == (elapsed + n * period) / (MACRO_TICK as nat)
            &&& after.dt == counted_down(before.dt, fired)
            &&& after.st == counted_down(before.st, fired)
        }),
    decreases n,
{
    clock.lemma_wf();
    let period = clock.period() as nat;
    let elapsed = clock.elapsed() as nat;
    lemma_clock_accumulates(period, elapsed, n);
    if n > 0 {
        let (mid, clock_mid) = choose|mid: State, clock_mid: Clock|
            #![trigger cycled(mid, clock_mid, after, clock_after)]
            {
                &&& quiet_cycles_lead(before, clock, (n - 1) as nat, mid, clock_mid, false)
                &&& cycled(mid, clock_mid, after, clock_after)
                &&& !sets_timer(mid)
                &&& !waited(mid, after)
            };
        lemma_timers_count_ticks(before, clock, (n - 1) as nat, mid, clock_mid);
        lemma_clock_accumulates(period, elapsed, (n - 1) as nat);
        lemma_cycle_timers(mid, clock_mid, after, clock_after);
    }
}

/// Words that are loaded into RAM are fetched as they were: the word with
/// the index `k` is the instruction word at the address of its first byte.
pub proof fn lemma_fetch_loaded(ram: Seq<u8>, addr: u16, words: Seq<u16>, k: int)
    requires
        ram.len() == 4096,
        addr % 2 == 0,
        addr + 2 * words.len() <= 0x1000,
        0 <= k < words.len(),
    ensures
        fetch(overlay(ram, addr as int, word_bytes(words)), (addr + 2 * k) as u16) == Ok::<
            u16,
            Error,
        >(words[k]),
{
    let word = words[k];
    assert(((word >> 8) as u8 as u16) << 8 | ((word & 0xFF) as u8 as u16) == word)
        by (bit_vector);
}

} // verus!
