use vstd::prelude::*;
use crate::cpu::{Address, Instruction, Memory, Register};
use crate::cpu::memory::MEMORY_SIZE;
use crate::cpu::instruction::decode;
use crate::input::{Key, Keypad, first_pressed};
use crate::output::{Screen, blank, collision, drawn, is_grid};

verus! {

broadcast use {
    Address::lemma_of_view,
    Address::lemma_view_nonneg,
    Register::lemma_of_view,
    Key::lemma_of_view,
    Memory::lemma_len,
    Keypad::lemma_len,
    Screen::lemma_is_grid,
};

/// Where the built-in font glyphs are loaded.
pub const FONT_BASE: u16 = 0x050;

/// Where the program is loaded and where execution starts.
pub const PROGRAM_START: u16 = 0x200;

/// The largest program that fits between its start and the end of memory.
pub const MAX_PROGRAM_LEN: usize = 3584;

/// Instructions executed per second.
pub const CLOCK_HZ: u64 = 10_000;

/// Timer decrements per second.
pub const TIMER_HZ: u64 = 60;

/// Microseconds per second: the unit of the time handed to `update`.
pub const MICROS_PER_SECOND: u64 = 1_000_000;

/// Why the machine stopped instead of executing an instruction. A fault
/// leaves the machine as it was before the instruction; the host decides
/// whether to halt.
#[derive(Debug, Clone, Copy, PartialEq, Eq, Structural)]
pub enum Fault {
    /// The word at the program counter encodes no instruction.
    IllegalInstruction(u16),
    /// `Return` with an empty call stack.
    StackUnderflow,
    /// An address computed by the instruction, or a memory access, lies
    /// past the last address.
    AddressOutOfRange,
    /// A key test names a register whose value is no key number.
    InvalidKey(u8),
}

/// The state of the machine, as plain mathematical values.
pub struct Machine {
    /// The 4096 bytes of memory.
    pub memory: Seq<u8>,
    /// The frame buffer, by column then row.
    pub pixels: Seq<Seq<bool>>,
    /// Which of the sixteen keys are pressed.
    pub keys: Seq<bool>,
    /// Return addresses, the most recent last.
    pub stack: Seq<int>,
    /// The program counter.
    pub pc: int,
    /// The index register.
    pub i: int,
    /// The sixteen general registers.
    pub v: Seq<u8>,
    pub delay_timer: u8,
    pub sound_timer: u8,
    /// Time towards the next timer decrement, in units of `1 / (TIMER_HZ * CLOCK_HZ)` s.
    pub timer_acc: int,
    /// Time towards the next instruction, in units of `1 / (CLOCK_HZ * MICROS_PER_SECOND)` s.
    pub clock_acc: int,
}

/// The 80 bytes of the built-in font: sixteen glyphs `0` to `F`, five rows each.
pub open spec fn font_glyphs() -> Seq<u8> {
    seq![
        0xF0u8, 0x90, 0x90, 0x90, 0xF0,
        0x20, 0x60, 0x20, 0x20, 0x70,
        0xF0, 0x10, 0xF0, 0x80, 0xF0,
        0xF0, 0x10, 0xF0, 0x10, 0xF0,
        0x90, 0x90, 0xF0, 0x10, 0x10,
        0xF0, 0x80, 0xF0, 0x10, 0xF0,
        0xF0, 0x80, 0xF0, 0x90, 0xF0,
        0xF0, 0x10, 0x20, 0x40, 0x40,
        0xF0, 0x90, 0xF0, 0x90, 0xF0,
        0xF0, 0x90, 0xF0, 0x10, 0xF0,
        0xF0, 0x90, 0xF0, 0x90, 0x90,
        0xE0, 0x90, 0xE0, 0x90, 0xE0,
        0xF0, 0x80, 0x80, 0x80, 0xF0,
        0xE0, 0x90, 0x90, 0x90, 0xE0,
        0xF0, 0x80, 0xF0, 0x80, 0xF0,
        0xF0, 0x80, 0xF0, 0x80, 0x80,
    ]
}

/// The machine as it stands after loading `rom`.
pub open spec fn initial(rom: Seq<u8>) -> Machine {
    Machine {
        memory: Seq::new(
            4096,
            |a: int|
                if FONT_BASE <= a < FONT_BASE + 80 {
                    font_glyphs()[a - FONT_BASE]
                } else if PROGRAM_START <= a < PROGRAM_START + rom.len() {
                    rom[a - PROGRAM_START]
                } else {
                    0u8
                },
        ),
        pixels: blank(),
        keys: Seq::new(16, |_k: int| false),
        stack: Seq::empty(),
        pc: PROGRAM_START as int,
        i: 0,
        v: Seq::new(16, |_r: int| 0u8),
        delay_timer: 0,
        sound_timer: 0,
        timer_acc: 0,
        clock_acc: 0,
    }
}

/// `m` with the program counter at `target`, or a fault if that is no address.
pub open spec fn goto(m: Machine, target: int) -> Result<Machine, Fault> {
    if 0 <= target < 4096 {
        Ok(Machine { pc: target, ..m })
    } else {
        Err(Fault::AddressOutOfRange)
    }
}

/// How far the program counter moves: past the next instruction as well
/// when `skip` holds.
pub open spec fn stride(skip: bool) -> int {
    if skip {
        4
    } else {
        2
    }
}

pub open spec fn wrapping_add(a: u8, b: u8) -> u8 {
    ((a + b) % 256) as u8
}

pub open spec fn wrapping_sub(a: u8, b: u8) -> u8 {
    ((a - b + 256) % 256) as u8
}

pub open spec fn flag(b: bool) -> u8 {
    if b {
        1
    } else {
        0
    }
}

/// The registers after an instruction that only computes on registers;
/// the flag is written before the result, so with `X = F` the result wins.
pub open spec fn alu(v: Seq<u8>, ins: Instruction) -> Seq<u8> {
    match ins {
        Instruction::SetNum(x, n) => v.update(x@ as int, n),
        Instruction::AddNum(x, n) => v.update(x@ as int, wrapping_add(v[x@ as int], n)),
        Instruction::Move(x, y) => v.update(x@ as int, v[y@ as int]),
        Instruction::Or(x, y) => v.update(x@ as int, v[x@ as int] | v[y@ as int]),
        Instruction::And(x, y) => v.update(x@ as int, v[x@ as int] & v[y@ as int]),
        Instruction::Xor(x, y) => v.update(x@ as int, v[x@ as int] ^ v[y@ as int]),
        Instruction::Add(x, y) => {
            let (a, b) = (v[x@ as int], v[y@ as int]);
            v.update(15, flag(a + b > 255)).update(x@ as int, wrapping_add(a, b))
        },
        Instruction::Sub(x, y) => {
            let (a, b) = (v[x@ as int], v[y@ as int]);
            v.update(15, flag(a >= b)).update(x@ as int, wrapping_sub(a, b))
        },
        Instruction::Subb(x, y) => {
            let (a, b) = (v[x@ as int], v[y@ as int]);
            v.update(15, flag(b >= a)).update(x@ as int, wrapping_sub(b, a))
        },
        Instruction::Shr(x, _y) => {
            let a = v[x@ as int];
            v.update(15, a % 2).update(x@ as int, a / 2)
        },
        Instruction::Shl(x, _y) => {
            let a = v[x@ as int];
            v.update(15, a / 128).update(x@ as int, ((a * 2) % 256) as u8)
        },
        _ => v,
    }
}

/// Whether `ins` is one of the register-only instructions of `alu`.
pub open spec fn is_alu(ins: Instruction) -> bool {
    ||| ins is SetNum
    ||| ins is AddNum
    ||| ins is Move
    ||| ins is Or
    ||| ins is And
    ||| ins is Xor
    ||| ins is Add
    ||| ins is Sub
    ||| ins is Subb
    ||| ins is Shr
    ||| ins is Shl
}

/// What an instruction that then steps to the next one does, apart from
/// moving the program counter.
pub open spec fn effect(m: Machine, ins: Instruction, rnd: u8) -> Result<Machine, Fault> {
    match ins {
        Instruction::Clear => Ok(Machine { pixels: blank(), ..m }),
        Instruction::SetIdx(a) => Ok(Machine { i: a@, ..m }),
        Instruction::Rand(x, n) => Ok(Machine { v: m.v.update(x@ as int, rnd & n), ..m }),
        Instruction::Draw(x, y, n) => {
            if m.i + n > 4096 {
                Err(Fault::AddressOutOfRange)
            } else {
                let sprite = m.memory.subrange(m.i as int, m.i + n);
                let (px, py) = (m.v[x@ as int] as int, m.v[y@ as int] as int);
                Ok(
                    Machine {
                        pixels: drawn(m.pixels, sprite, px, py),
                        v: m.v.update(15, flag(collision(m.pixels, sprite, px, py))),
                        ..m
                    },
                )
            }
        },
        Instruction::GetDelay(x) => Ok(Machine { v: m.v.update(x@ as int, m.delay_timer), ..m }),
        Instruction::SetDelay(x) => Ok(Machine { delay_timer: m.v[x@ as int], ..m }),
        Instruction::SetSound(x) => Ok(Machine { sound_timer: m.v[x@ as int], ..m }),
        Instruction::AddIdx(x) => {
            if m.i + m.v[x@ as int] < 4096 {
                Ok(Machine { i: (m.i + m.v[x@ as int]), ..m })
            } else {
                Err(Fault::AddressOutOfRange)
            }
        },
        Instruction::SetSprite(x) => Ok(Machine { i: (FONT_BASE + m.v[x@ as int] * 5), ..m }),
        Instruction::StoreBcd(x) => {
            if m.i + 2 < 4096 {
                let a = m.v[x@ as int];
                Ok(
                    Machine {
                        memory: m.memory.update(m.i as int, a / 100).update(
                            m.i + 1,
                            (a / 10) % 10,
                        ).update(m.i + 2, a % 10),
                        ..m
                    },
                )
            } else {
                Err(Fault::AddressOutOfRange)
            }
        },
        Instruction::Store(x) => {
            let n = x@ + 1;
            if m.i + n < 4096 {
                Ok(
                    Machine {
                        memory: m.memory.take(m.i as int) + m.v.take(n as int) + m.memory.skip(
                            m.i + n,
                        ),
                        i: m.i + n,
                        ..m
                    },
                )
            } else {
                Err(Fault::AddressOutOfRange)
            }
        },
        Instruction::Load(x) => {
            let n = x@ + 1;
            if m.i + n < 4096 {
                Ok(
                    Machine {
                        v: m.memory.subrange(m.i as int, m.i + n) + m.v.skip(n as int),
                        i: m.i + n,
                        ..m
                    },
                )
            } else {
                Err(Fault::AddressOutOfRange)
            }
        },
        _ => Ok(Machine { v: alu(m.v, ins), ..m }),
    }
}

/// The machine after executing `ins`, or the fault that stops it; `rnd` is
/// the random byte that `Rand` uses.
pub open spec fn execute_spec(m: Machine, ins: Instruction, rnd: u8) -> Result<Machine, Fault> {
    match ins {
        Instruction::Jump(a) => Ok(Machine { pc: a@, ..m }),
        Instruction::Call(a) => Ok(Machine { stack: m.stack.push(m.pc), pc: a@, ..m }),
        Instruction::JumpV0(a) => goto(m, a@ + m.v[0]),
        Instruction::Return => {
            if m.stack.len() == 0 {
                Err(Fault::StackUnderflow)
            } else {
                goto(Machine { stack: m.stack.drop_last(), ..m }, m.stack.last() + 2)
            }
        },
        Instruction::EqNum(x, n) => goto(m, m.pc + stride(m.v[x@ as int] == n)),
        Instruction::NeqNum(x, n) => goto(m, m.pc + stride(m.v[x@ as int] != n)),
        Instruction::Eq(x, y) => goto(m, m.pc + stride(m.v[x@ as int] == m.v[y@ as int])),
        Instruction::Neq(x, y) => goto(m, m.pc + stride(m.v[x@ as int] != m.v[y@ as int])),
        Instruction::KeyEq(k) => {
            let key = m.v[k@ as int];
            if key >= 16 {
                Err(Fault::InvalidKey(key))
            } else {
                goto(m, m.pc + stride(m.keys[key as int]))
            }
        },
        Instruction::KeyNeq(k) => {
            let key = m.v[k@ as int];
            if key >= 16 {
                Err(Fault::InvalidKey(key))
            } else {
                goto(m, m.pc + stride(!m.keys[key as int]))
            }
        },
        Instruction::WaitKey(x) => match first_pressed(m.keys) {
            Some(k) => goto(Machine { v: m.v.update(x@ as int, k as u8), ..m }, m.pc + 2),
            None => Ok(m),
        },
        _ => {
            if m.pc + 2 >= 4096 {
                Err(Fault::AddressOutOfRange)
            } else {
                match effect(m, ins, rnd) {
                    Ok(m2) => Ok(Machine { pc: m.pc + 2, ..m2 }),
                    Err(f) => Err(f),
                }
            }
        },
    }
}

/// One instruction's worth of time on the 60 Hz timers.
pub open spec fn timer_step(m: Machine) -> Machine {
    let acc = m.timer_acc + TIMER_HZ;
    if acc >= CLOCK_HZ {
        Machine {
            timer_acc: (acc - CLOCK_HZ),
            delay_timer: if m.delay_timer > 0 {
                (m.delay_timer - 1) as u8
            } else {
                0
            },
            sound_timer: if m.sound_timer > 0 {
                (m.sound_timer - 1) as u8
            } else {
                0
            },
            ..m
        }
    } else {
        Machine { timer_acc: acc, ..m }
    }
}

/// The instruction word at the program counter.
pub open spec fn fetch(m: Machine) -> u16 {
    (m.memory[m.pc as int] * 256 + m.memory[m.pc + 1]) as u16
}

/// One cycle: fetch, decode and execute the instruction at the program
/// counter, then let one instruction's worth of time pass on the timers.
/// A fault leaves the machine as it was.
pub open spec fn step_spec(m: Machine, rnd: u8) -> Result<Machine, Fault> {
    if m.pc + 1 >= 4096 {
        Err(Fault::AddressOutOfRange)
    } else {
        match decode(fetch(m)) {
            None => Err(Fault::IllegalInstruction(fetch(m))),
            Some(ins) => match execute_spec(m, ins, rnd) {
                Ok(m2) => Ok(timer_step(m2)),
                Err(f) => Err(f),
            },
        }
    }
}

/// Cycles with the random bytes `rnds`, one per cycle, stopping at the
/// first fault: the machine reached and the fault, if one stopped it.
pub open spec fn run(m: Machine, rnds: Seq<u8>) -> (Machine, Option<Fault>)
    decreases rnds.len(),
{
    if rnds.len() == 0 {
        (m, None)
    } else {
        let (m1, f) = run(m, rnds.drop_last());
        if f is Some {
            (m1, f)
        } else {
            match step_spec(m1, rnds.last()) {
                Ok(m2) => (m2, None),
                Err(e) => (m1, Some(e)),
            }
        }
    }
}

/// Whether a call that returned `r`, and left the machine in `after`,
/// carried out `res` from `before`: on success the machine is the one `res`
/// gives; on a fault it is unchanged.
pub open spec fn outcome(
    res: Result<Machine, Fault>,
    before: Machine,
    after: Machine,
    r: Result<(), Fault>,
) -> bool {
    match res {
        Ok(m) => r is Ok && after == m,
        Err(f) => r == Err::<(), Fault>(f) && after == before,
    }
}

/// The fault in `r`, if any.
pub open spec fn fault_of(r: Result<(), Fault>) -> Option<Fault> {
    match r {
        Ok(_) => None,
        Err(f) => Some(f),
    }
}

/// Once a run has stopped on a fault, further random bytes change nothing.
pub proof fn lemma_run_stays_stopped(m: Machine, rnds: Seq<u8>, extra: Seq<u8>)
    requires
        run(m, rnds).1 is Some,
    ensures
        run(m, rnds + extra) == run(m, rnds),
    decreases extra.len(),
{
    if extra.len() > 0 {
        lemma_run_stays_stopped(m, rnds, extra.drop_last());
        assert((rnds + extra).drop_last() =~= rnds + extra.drop_last());
    } else {
        assert(rnds + extra =~= rnds);
    }
}

/// Relies on `rand::random::<u8>`: a byte from the thread-local generator.
/// Nothing is known of its value.
#[verifier::external_body]
fn random_byte() -> (r: u8) {
    rand::random::<u8>()
}

/// The time accumulators that pace the instruction clock and the timers.
#[derive(Debug)]
struct Pacer {
    timer_acc: u64,
    clock_acc: u64,
}

impl Pacer {
    #[verifier::type_invariant]
    spec fn inv(self) -> bool {
        &&& self.timer_acc < CLOCK_HZ
        &&& self.clock_acc < MICROS_PER_SECOND
    }

    /// Adds one instruction period to the timer accumulator; reports
    /// whether that completed a 60 Hz period.
    fn timer_tick(&mut self) -> (crossed: bool)
        ensures
            crossed == (old(self).timer_acc + TIMER_HZ >= CLOCK_HZ),
            final(self).timer_acc == if crossed {
                old(self).timer_acc + TIMER_HZ - CLOCK_HZ
            } else {
                old(self).timer_acc + TIMER_HZ
            },
            final(self).clock_acc == old(self).clock_acc,
    {
        proof {
            use_type_invariant(&*self);
        }
        let acc = self.timer_acc + TIMER_HZ;
        if acc >= CLOCK_HZ {
            self.timer_acc = acc - CLOCK_HZ;
            true
        } else {
            self.timer_acc = acc;
            false
        }
    }

    /// Adds `micros` microseconds to the instruction clock; returns how
    /// many instruction periods that completed and keeps the remainder.
    fn add_time(&mut self, micros: u64) -> (due: u128)
        ensures
            due == (old(self).clock_acc + micros * CLOCK_HZ) / (MICROS_PER_SECOND as int),
            final(self).clock_acc == (old(self).clock_acc + micros * CLOCK_HZ) % (
            MICROS_PER_SECOND as int),
            final(self).timer_acc == old(self).timer_acc,
    {
        proof {
            use_type_invariant(&*self);
        }
        assert(micros * CLOCK_HZ <= 0xFFFF_FFFF_FFFF_FFFF * CLOCK_HZ) by (nonlinear_arith)
            requires
                micros <= 0xFFFF_FFFF_FFFF_FFFFu64,
        ;
        let total: u128 = self.clock_acc as u128 + micros as u128 * CLOCK_HZ as u128;
        self.clock_acc = (total % MICROS_PER_SECOND as u128) as u64;
        total / MICROS_PER_SECOND as u128
    }
}

/// `n` instructions' worth of time passing on the timers alone.
pub open spec fn timer_steps(m: Machine, n: nat) -> Machine
    decreases n,
{
    if n == 0 {
        m
    } else {
        timer_step(timer_steps(m, (n - 1) as nat))
    }
}

/// How many 60 Hz periods complete within `n` instruction periods, from a
/// timer accumulator at `acc`.
pub open spec fn periods(acc: int, n: nat) -> int {
    (acc + TIMER_HZ * n) / (CLOCK_HZ as int)
}

/// A timer at `t` after `k` decrements that stop at zero.
pub open spec fn count_down(t: u8, k: int) -> u8 {
    if t >= k {
        (t - k) as u8
    } else {
        0
    }
}

/// Over `n` instruction periods each timer drops by one for every 60 Hz
/// period completed, and stops at zero; nothing else changes.
pub proof fn lemma_timers_count_down(m: Machine, n: nat)
    requires
        0 <= m.timer_acc < CLOCK_HZ,
    ensures
        timer_steps(m, n) == (Machine {
            delay_timer: count_down(m.delay_timer, periods(m.timer_acc, n)),
            sound_timer: count_down(m.sound_timer, periods(m.timer_acc, n)),
            timer_acc: (m.timer_acc + TIMER_HZ * n) % (CLOCK_HZ as int),
            ..m
        }),
    decreases n,
{
    let c = CLOCK_HZ as int;
    if n == 0 {
        vstd::arithmetic::div_mod::lemma_fundamental_div_mod_converse(m.timer_acc, c, 0, m.timer_acc);
    } else {
        lemma_timers_count_down(m, (n - 1) as nat);
        let a = m.timer_acc + TIMER_HZ * (n - 1);
        vstd::arithmetic::div_mod::lemma_fundamental_div_mod(a, c);
        vstd::arithmetic::div_mod::lemma_mod_bound(a, c);
        vstd::arithmetic::div_mod::lemma_div_pos_is_pos(a, c);
        let (q, r) = (a / c, a % c);
        assert(a + TIMER_HZ == m.timer_acc + TIMER_HZ * n);
        if r + TIMER_HZ >= c {
            vstd::arithmetic::div_mod::lemma_fundamental_div_mod_converse(
                a + TIMER_HZ,
                c,
                q + 1,
                r + TIMER_HZ - c,
            );
        } else {
            vstd::arithmetic::div_mod::lemma_fundamental_div_mod_converse(
                a + TIMER_HZ,
                c,
                q,
                r + TIMER_HZ,
            );
        }
    }
}

/// Whether `m` waits for a key: the instruction at the program counter is
/// `WaitKey` and no key is pressed.
pub open spec fn waiting(m: Machine) -> bool {
    &&& m.pc + 1 < 4096
    &&& decode(fetch(m)) matches Some(Instruction::WaitKey(_))
    &&& first_pressed(m.keys) is None
}

/// While no key is pressed, a machine at `WaitKey` stays on that
/// instruction cycle after cycle, with no fault: only the timers move.
pub proof fn lemma_wait_key_holds(m: Machine, rnds: Seq<u8>)
    requires
        waiting(m),
        0 <= m.timer_acc < CLOCK_HZ,
    ensures
        run(m, rnds) == (timer_steps(m, rnds.len()), None::<Fault>),
        run(m, rnds).0.pc == m.pc,
    decreases rnds.len(),
{
    lemma_timers_count_down(m, rnds.len());
    if rnds.len() > 0 {
        lemma_wait_key_holds(m, rnds.drop_last());
        lemma_timers_count_down(m, (rnds.len() - 1) as nat);
    }
}

/// Once a key is pressed, `WaitKey` stores the number of the lowest
/// pressed key in its register and steps on to the next instruction.
pub proof fn lemma_wait_key_resumes(m: Machine, x: Register, rnd: u8)
    requires
        first_pressed(m.keys) is Some,
        0 <= m.pc,
        m.pc + 2 < 4096,
    ensures
        execute_spec(m, Instruction::WaitKey(x), rnd) == Ok::<Machine, Fault>(
            Machine {
                v: m.v.update(x@, first_pressed(m.keys)->Some_0 as u8),
                pc: m.pc + 2,
                ..m
            },
        ),
{
}

/// A `Call`, and later a `Return` made with the stack as the call left it,
/// bring execution back to the instruction after the `Call`: the address
/// pushed is the program counter before the call, and the stack returns to
/// its depth and contents from before the call.
pub proof fn lemma_call_then_return(m: Machine, a: Address, callee: Machine, r1: u8, r2: u8)
    requires
        0 <= m.pc,
        m.pc + 2 < 4096,
        callee.stack == execute_spec(m, Instruction::Call(a), r1)->Ok_0.stack,
    ensures
        execute_spec(m, Instruction::Call(a), r1) is Ok,
        execute_spec(m, Instruction::Call(a), r1)->Ok_0.pc == a@,
        execute_spec(m, Instruction::Call(a), r1)->Ok_0.stack.last() == m.pc,
        execute_spec(callee, Instruction::Return, r2) is Ok,
        execute_spec(callee, Instruction::Return, r2)->Ok_0.pc == m.pc + 2,
        execute_spec(callee, Instruction::Return, r2)->Ok_0.stack == m.stack,
{
    assert(m.stack.push(m.pc).drop_last() =~= m.stack);
}

/// The emulated machine: processor state, memory, display and keypad.
#[derive(Debug)]
pub struct System {
    display: Screen,
    keypad: Keypad,
    memory: Memory,
    stack: Vec<Address>,
    pc: Address,
    i: Address,
    v: [u8; 16],
    delay_timer: u8,
    sound_timer: u8,
    pacer: Pacer,
}

impl View for System {
    type V = Machine;

    closed spec fn view(&self) -> Machine {
        Machine {
            memory: self.memory@,
            pixels: self.display@,
            keys: self.keypad@,
            stack: self.stack@.map_values(|a: Address| a@),
            pc: self.pc@,
            i: self.i@,
            v: self.v@,
            delay_timer: self.delay_timer,
            sound_timer: self.sound_timer,
            timer_acc: self.pacer.timer_acc as int,
            clock_acc: self.pacer.clock_acc as int,
        }
    }
}

impl System {
    /// A machine with the font and `rom` loaded and the program counter at
    /// the start of the program.
    pub fn new(rom: &[u8]) -> (r: Self)
        requires
            rom@.len() <= MAX_PROGRAM_LEN,
        ensures
            r@ == initial(rom@),
    {
        let mut ram = Memory::new();
        let font: [u8; 80] = [
            0xF0, 0x90, 0x90, 0x90, 0xF0,  // 0
            0x20, 0x60, 0x20, 0x20, 0x70,  // 1
            0xF0, 0x10, 0xF0, 0x80, 0xF0,  // 2
            0xF0, 0x10, 0xF0, 0x10, 0xF0,  // 3
            0x90, 0x90, 0xF0, 0x10, 0x10,  // 4
            0xF0, 0x80, 0xF0, 0x10, 0xF0,  // 5
            0xF0, 0x80, 0xF0, 0x90, 0xF0,  // 6
            0xF0, 0x10, 0x20, 0x40, 0x40,  // 7
            0xF0, 0x90, 0xF0, 0x90, 0xF0,  // 8
            0xF0, 0x90, 0xF0, 0x10, 0xF0,  // 9
            0xF0, 0x90, 0xF0, 0x90, 0x90,  // A
            0xE0, 0x90, 0xE0, 0x90, 0xE0,  // B
            0xF0, 0x80, 0x80, 0x80, 0xF0,  // C
            0xE0, 0x90, 0x90, 0x90, 0xE0,  // D
            0xF0, 0x80, 0xF0, 0x80, 0xF0,  // E
            0xF0, 0x80, 0xF0, 0x80, 0x80,  // F
        ];
        assert(font@ =~= font_glyphs());
        ram.write(Address::new(FONT_BASE), font.as_slice());
        ram.write(Address::new(PROGRAM_START), rom);
        let r = System {
            display: Screen::new(),
            keypad: Keypad::new(),
            memory: ram,
            stack: Vec::new(),
            pc: Address::new(PROGRAM_START),
            i: Address::new(0),
            v: [0; 16],
            delay_timer: 0,
            sound_timer: 0,
            pacer: Pacer { timer_acc: 0, clock_acc: 0 },
        };
        assert(r@.memory =~= initial(rom@).memory);
        assert(r@.stack =~= initial(rom@).stack);
        assert(r@.v =~= initial(rom@).v);
        r
    }

    /// Moves the program counter past the next instruction, and past the
    /// one after it as well when `skip` holds.
    fn skip_if(&mut self, skip: bool) -> (r: Result<(), Fault>)
        ensures
            outcome(goto(old(self)@, old(self)@.pc + stride(skip)), old(self)@, final(self)@, r),
    {
        match self.pc.checked_add(if skip { 4 } else { 2 }) {
            Some(target) => {
                self.pc = target;
                Ok(())
            },
            None => Err(Fault::AddressOutOfRange),
        }
    }

    /// Carries out a register-only instruction; any other leaves the
    /// registers alone.
    fn alu(&mut self, ins: Instruction)
        ensures
            final(self)@ == (Machine { v: alu(old(self)@.v, ins), ..old(self)@ }),
    {
        match ins {
            Instruction::SetNum(x, n) => self.v[x.idx()] = n,
            Instruction::AddNum(x, n) => {
                let sum = self.v[x.idx()] as u16 + n as u16;
                self.v[x.idx()] = (sum % 256) as u8;
            },
            Instruction::Move(x, y) => self.v[x.idx()] = self.v[y.idx()],
            Instruction::Or(x, y) => self.v[x.idx()] = self.v[x.idx()] | self.v[y.idx()],
            Instruction::And(x, y) => self.v[x.idx()] = self.v[x.idx()] & self.v[y.idx()],
            Instruction::Xor(x, y) => self.v[x.idx()] = self.v[x.idx()] ^ self.v[y.idx()],
            Instruction::Add(x, y) => {
                let sum = self.v[x.idx()] as u16 + self.v[y.idx()] as u16;
                self.v[0xF] = if sum > 255 { 1 } else { 0 };
                self.v[x.idx()] = (sum % 256) as u8;
            },
            Instruction::Sub(x, y) => {
                let (a, b) = (self.v[x.idx()], self.v[y.idx()]);
                self.v[0xF] = if a >= b { 1 } else { 0 };
                self.v[x.idx()] = ((a as u16 + 256 - b as u16) % 256) as u8;
            },
            Instruction::Subb(x, y) => {
                let (a, b) = (self.v[x.idx()], self.v[y.idx()]);
                self.v[0xF] = if b >= a { 1 } else { 0 };
                self.v[x.idx()] = ((b as u16 + 256 - a as u16) % 256) as u8;
            },
            Instruction::Shr(x, _y) => {
                let a = self.v[x.idx()];
                assert(a & 1 == a % 2 && a >> 1 == a / 2) by (bit_vector);
                self.v[0xF] = a & 1;
                self.v[x.idx()] = a >> 1;
            },
            Instruction::Shl(x, _y) => {
                let a = self.v[x.idx()];
                assert((a & 0x80) >> 7 == a / 128) by (bit_vector);
                assert(((a as u16) << 1) as u8 == ((a as u16 * 2) % 256) as u8) by (bit_vector);
                self.v[0xF] = (a & 0x80) >> 7;
                self.v[x.idx()] = ((a as u16) << 1) as u8;
            },
            _ => {},
        }
    }

    /// What an instruction that steps on to the next one does, apart from
    /// moving the program counter.
    fn apply(&mut self, ins: Instruction, rnd: u8) -> (r: Result<(), Fault>)
        ensures
            outcome(effect(old(self)@, ins, rnd), old(self)@, final(self)@, r),
    {
        match ins {
            Instruction::Clear => {
                self.display.clear();
                Ok(())
            },
            Instruction::SetIdx(addr) => {
                self.i = addr;
                Ok(())
            },
            Instruction::Rand(x, n) => {
                self.v[x.idx()] = rnd & n;
                Ok(())
            },
            Instruction::Draw(x, y, n) => {
                if self.i.get() + n as usize > MEMORY_SIZE {
                    return Err(Fault::AddressOutOfRange);
                }
                let (px, py) = (self.v[x.idx()], self.v[y.idx()]);
                let sprite = self.memory.read(self.i, n as u16);
                let collided = self.display.draw(px, py, sprite);
                self.v[0xF] = if collided { 1 } else { 0 };
                Ok(())
            },
            Instruction::GetDelay(x) => {
                self.v[x.idx()] = self.delay_timer;
                Ok(())
            },
            Instruction::SetDelay(x) => {
                self.delay_timer = self.v[x.idx()];
                Ok(())
            },
            Instruction::SetSound(x) => {
                self.sound_timer = self.v[x.idx()];
                Ok(())
            },
            Instruction::AddIdx(x) => match self.i.checked_add(self.v[x.idx()] as u16) {
                Some(addr) => {
                    self.i = addr;
                    Ok(())
                },
                None => Err(Fault::AddressOutOfRange),
            },
            Instruction::SetSprite(x) => {
                self.i = Address::new(FONT_BASE + self.v[x.idx()] as u16 * 5);
                Ok(())
            },
            Instruction::StoreBcd(x) => {
                if self.i.get() + 2 >= MEMORY_SIZE {
                    return Err(Fault::AddressOutOfRange);
                }
                let a = self.v[x.idx()];
                self.memory.write8(self.i, a / 100);
                self.memory.write8(self.i.add(1), (a / 10) % 10);
                self.memory.write8(self.i.add(2), a % 10);
                Ok(())
            },
            Instruction::Store(x) => {
                let n = x.idx() + 1;
                if self.i.get() + n >= MEMORY_SIZE {
                    return Err(Fault::AddressOutOfRange);
                }
                let regs = vstd::slice::slice_subrange(self.v.as_slice(), 0, n);
                self.memory.write(self.i, regs);
                self.i = self.i.add(n as u16);
                Ok(())
            },
            Instruction::Load(x) => {
                let n = x.idx() + 1;
                if self.i.get() + n >= MEMORY_SIZE {
                    return Err(Fault::AddressOutOfRange);
                }
                let data = self.memory.read(self.i, n as u16);
                let mut regs = self.v;
                let mut k: usize = 0;
                while k < n
                    invariant
                        n <= 16,
                        data@.len() == n,
                        k <= n,
                        regs@.len() == 16,
                        forall|j: int|
                            0 <= j < 16 ==> #[trigger] regs@[j] == if j < k {
                                data@[j]
                            } else {
                                self.v@[j]
                            },
                    decreases n - k,
                {
                    regs[k] = data[k];
                    k = k + 1;
                }
                assert(regs@ =~= data@ + self.v@.skip(n as int));
                self.v = regs;
                self.i = self.i.add(n as u16);
                Ok(())
            },
            _ => {
                self.alu(ins);
                Ok(())
            },
        }
    }

    /// Executes one decoded instruction; `rnd` is the byte that `Rand` uses.
    /// A fault leaves the machine unchanged.
    pub fn execute(&mut self, instruction: Instruction, rnd: u8) -> (r: Result<(), Fault>)
        ensures
            outcome(execute_spec(old(self)@, instruction, rnd), old(self)@, final(self)@, r),
    {
        match instruction {
            Instruction::Jump(addr) => {
                self.pc = addr;
                Ok(())
            },
            Instruction::Call(addr) => {
                let ghost before = self@;
                self.stack.push(self.pc);
                self.pc = addr;
                assert(self@.stack =~= before.stack.push(before.pc));
                Ok(())
            },
            Instruction::JumpV0(addr) => match addr.checked_add(self.v[0] as u16) {
                Some(target) => {
                    self.pc = target;
                    Ok(())
                },
                None => Err(Fault::AddressOutOfRange),
            },
            Instruction::Return => {
                let depth = self.stack.len();
                if depth == 0 {
                    return Err(Fault::StackUnderflow);
                }
                match self.stack[depth - 1].checked_add(2) {
                    Some(target) => {
                        let ghost before = self@;
                        self.stack.pop();
                        self.pc = target;
                        assert(self@.stack =~= before.stack.drop_last());
                        Ok(())
                    },
                    None => Err(Fault::AddressOutOfRange),
                }
            },
            Instruction::EqNum(x, n) => self.skip_if(self.v[x.idx()] == n),
            Instruction::NeqNum(x, n) => self.skip_if(self.v[x.idx()] != n),
            Instruction::Eq(x, y) => self.skip_if(self.v[x.idx()] == self.v[y.idx()]),
            Instruction::Neq(x, y) => self.skip_if(self.v[x.idx()] != self.v[y.idx()]),
            Instruction::KeyEq(k) => {
                let key = self.v[k.idx()];
                if key >= 16 {
                    return Err(Fault::InvalidKey(key));
                }
                let pressed = self.keypad.is_pressed(Key::new(key));
                self.skip_if(pressed)
            },
            Instruction::KeyNeq(k) => {
                let key = self.v[k.idx()];
                if key >= 16 {
                    return Err(Fault::InvalidKey(key));
                }
                let pressed = self.keypad.is_pressed(Key::new(key));
                self.skip_if(!pressed)
            },
            Instruction::WaitKey(x) => match self.keypad.get_key() {
                Some(key) => match self.pc.checked_add(2) {
                    Some(target) => {
                        self.v[x.idx()] = key.get();
                        self.pc = target;
                        Ok(())
                    },
                    None => Err(Fault::AddressOutOfRange),
                },
                None => Ok(()),
            },
            _ => {
                let next = match self.pc.checked_add(2) {
                    Some(target) => target,
                    None => return Err(Fault::AddressOutOfRange),
                };
                match self.apply(instruction, rnd) {
                    Ok(()) => {
                        self.pc = next;
                        Ok(())
                    },
                    Err(f) => Err(f),
                }
            },
        }
    }

    /// Lets one instruction's worth of time pass on the 60 Hz timers.
    fn advance_timers(&mut self)
        ensures
            final(self)@ == timer_step(old(self)@),
    {
        if self.pacer.timer_tick() {
            if self.delay_timer > 0 {
                self.delay_timer = self.delay_timer - 1;
            }
            if self.sound_timer > 0 {
                self.sound_timer = self.sound_timer - 1;
            }
        }
    }

    /// One cycle with the random byte `rnd`: fetch, decode and execute the
    /// instruction at the program counter, then advance the timers.
    pub fn step(&mut self, rnd: u8) -> (r: Result<(), Fault>)
        ensures
            outcome(step_spec(old(self)@, rnd), old(self)@, final(self)@, r),
    {
        if self.pc.get() + 1 >= MEMORY_SIZE {
            return Err(Fault::AddressOutOfRange);
        }
        let opcode = self.memory.read16(self.pc);
        match Instruction::new(opcode) {
            None => Err(Fault::IllegalInstruction(opcode)),
            Some(instruction) => match self.execute(instruction, rnd) {
                Ok(()) => {
                    self.advance_timers();
                    Ok(())
                },
                Err(f) => Err(f),
            },
        }
    }

    /// One cycle, with a fresh random byte for `Rand`.
    pub fn tick(&mut self) -> (r: Result<(), Fault>)
        ensures
            exists|rnd: u8| #[trigger] outcome(step_spec(old(self)@, rnd), old(self)@, final(self)@, r),
    {
        let rnd = random_byte();
        self.step(rnd)
    }

    /// Lets `micros` microseconds pass: runs every cycle that falls due at
    /// `CLOCK_HZ`, carrying the remainder over to the next call, and stops
    /// at the first fault.
    pub fn update(&mut self, micros: u64) -> (r: Result<(), Fault>)
        ensures
            ({
                let total = old(self)@.clock_acc + micros * CLOCK_HZ;
                let start = Machine { clock_acc: total % (MICROS_PER_SECOND as int), ..old(self)@ };
                exists|rnds: Seq<u8>|
                    rnds.len() == total / (MICROS_PER_SECOND as int) && #[trigger] run(start, rnds)
                        == (final(self)@, fault_of(r))
            }),
    {
        let due = self.pacer.add_time(micros);
        let ghost total = old(self)@.clock_acc + micros * CLOCK_HZ;
        let ghost start = self@;
        let ghost mut rnds: Seq<u8> = Seq::empty();
        let mut done: u128 = 0;
        while done < due
            invariant
                done <= due,
                total == old(self)@.clock_acc + micros * CLOCK_HZ,
                due == total / (MICROS_PER_SECOND as int),
                start == (Machine {
                    clock_acc: total % (MICROS_PER_SECOND as int),
                    ..old(self)@
                }),
                rnds.len() == done,
                run(start, rnds) == (self@, None::<Fault>),
            decreases due - done,
        {
            let rnd = random_byte();
            let ghost before = rnds;
            let r = self.step(rnd);
            proof {
                rnds = rnds.push(rnd);
                assert(rnds.drop_last() =~= before);
            }
            if let Err(f) = r {
                proof {
                    let pad = Seq::new((due - done - 1) as nat, |_k: int| 0u8);
                    lemma_run_stays_stopped(start, rnds, pad);
                    assert(run(start, rnds + pad) == (self@, fault_of(r)));
                }
                return Err(f);
            }
            done = done + 1;
        }
        Ok(())
    }

    pub fn update_keypad(&mut self, key: Key, pressed: bool)
        ensures
            final(self)@ == (Machine { keys: old(self)@.keys.update(key@, pressed), ..old(self)@ }),
    {
        self.keypad.set_pressed(key, pressed);
    }

    /// The frame buffer, by column then row.
    pub fn get_pixels(&self) -> (r: &[[bool; 32]; 64])
        ensures
            r@.map_values(|c: [bool; 32]| c@) == self@.pixels,
    {
        self.display.get_pixels()
    }

    /// Whether the tone sounds: the sound timer is running.
    pub fn get_sound(&self) -> (r: bool)
        ensures
            r == (self@.sound_timer > 0),
    {
        self.sound_timer > 0
    }

    pub fn register(&self, x: Register) -> (r: u8)
        ensures
            r == self@.v[x@],
    {
        self.v[x.idx()]
    }

    pub fn pc(&self) -> (r: Address)
        ensures
            r@ == self@.pc,
    {
        self.pc
    }

    pub fn index(&self) -> (r: Address)
        ensures
            r@ == self@.i,
    {
        self.i
    }

    pub fn stack_depth(&self) -> (r: usize)
        ensures
            r == self@.stack.len(),
    {
        self.stack.len()
    }

    pub fn delay_timer(&self) -> (r: u8)
        ensures
            r == self@.delay_timer,
    {
        self.delay_timer
    }

    pub fn sound_timer(&self) -> (r: u8)
        ensures
            r == self@.sound_timer,
    {
        self.sound_timer
    }

    pub fn memory(&self) -> (r: &Memory)
        ensures
            r@ == self@.memory,
    {
        &self.memory
    }
}

} // verus!
