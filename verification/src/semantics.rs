//! The mathematical model of the machine: its state, how an operand
//! identifier is resolved, what one instruction does, how a failed
//! conditional skips, and how a queued interrupt is delivered.
//!
//! Everything here is specification. The executable machine in
//! [`crate::dcpu`] is proved to follow it step by step.

use vstd::prelude::*;
use crate::alu::{compute, holds, is_arithmetic, is_conditional, wrap16};
use crate::instructions::{
    ADD, ADX, AND, ASR, BOR, DIV, DVI, MDI, MLI, MOD, MUL, SBX, SET, SHL, SHR, STD, STI, SUB, XOR,
};

verus! {

/// Number of words of memory.
pub const MEMORY_SIZE: usize = 0x10000;

pub const REG_A: usize = 0;
pub const REG_B: usize = 1;
pub const REG_C: usize = 2;
pub const REG_X: usize = 3;
pub const REG_Y: usize = 4;
pub const REG_Z: usize = 5;
pub const REG_I: usize = 6;
pub const REG_J: usize = 7;

/// How many instructions one chain of skips may pass before `tick`
/// returns with the skip still pending. Memory holds this many words, so
/// a chain that long has come back to an address it already skipped and
/// would never end.
pub const SKIP_LIMIT: u32 = 0x10000;

/// The state of the machine without its devices.
pub struct CpuState {
    pub terminate: bool,
    pub reg: Seq<u16>,
    pub mem: Seq<u16>,
    pub pc: u16,
    pub sp: u16,
    pub ex: u16,
    pub ia: u16,
    pub interrupt_queueing: bool,
    pub interrupt_queue: Seq<u16>,
    pub skip_next: bool,
    pub cycle: usize,
    pub overshot_cycles: usize,
    pub inside_run: bool,
}

/// Where an operand lives once its identifier has been resolved.
#[derive(Clone, Copy, PartialEq, Eq, Structural, Debug)]
pub enum Place {
    Register(usize),
    Memory(u16),
    StackPointer,
    ProgramCounter,
    Excess,
    Literal(u16),
}

/// The result of resolving an operand: the state afterwards and the place.
pub struct Located {
    pub state: CpuState,
    pub place: Place,
}

/// How far address `a` lies behind `base`, going round at the end of memory.
pub open spec fn offset_from(base: u16, a: int) -> int {
    if a >= base {
        a - base
    } else {
        a - base + 0x10000
    }
}

/// Memory with `data` written from `base` on, going round at the end of
/// memory. `data` is no longer than memory.
pub open spec fn with_block(mem: Seq<u16>, base: u16, data: Seq<u16>) -> Seq<u16> {
    Seq::new(
        mem.len(),
        |a: int|
            if offset_from(base, a) < data.len() {
                data[offset_from(base, a)]
            } else {
                mem[a]
            },
    )
}

/// The `count` words of memory from `base` on, going round at the end
/// of memory.
pub open spec fn block(mem: Seq<u16>, base: u16, count: nat) -> Seq<u16> {
    Seq::new(count, |k: int| mem[(base + k) % 0x10000])
}

/// The three fields of an instruction word.
pub open spec fn opcode_of(word: u16) -> usize {
    (word & 0x1f) as usize
}

pub open spec fn b_field(word: u16) -> usize {
    ((word >> 5) & 0x1f) as usize
}

pub open spec fn a_field(word: u16) -> usize {
    ((word >> 10) & 0x3f) as usize
}

/// Whether resolving the operand `id` reads the word after the instruction.
pub open spec fn takes_next(id: usize) -> bool {
    0x10 <= id <= 0x17 || id == 0x1a || id == 0x1e || id == 0x1f
}

/// Cycles of a basic instruction, before what its operands add.
pub open spec fn basic_cost(opcode: usize) -> usize {
    if opcode == SET || opcode == AND || opcode == BOR || opcode == XOR || opcode == SHR
        || opcode == ASR || opcode == SHL {
        1
    } else if opcode == ADD || opcode == SUB || opcode == MUL || opcode == MLI || opcode == STI
        || opcode == STD || is_conditional(opcode) {
        2
    } else if opcode == DIV || opcode == DVI || opcode == MOD || opcode == MDI || opcode == ADX
        || opcode == SBX {
        3
    } else {
        0
    }
}

impl Place {
    /// A register place names one of the eight registers.
    pub open spec fn valid(self) -> bool {
        self matches Place::Register(i) ==> i < 8
    }
}

impl CpuState {
    /// The registers and the memory have their sizes.
    pub open spec fn well_formed(self) -> bool {
        self.reg.len() == 8 && self.mem.len() == MEMORY_SIZE
    }

    /// The state of a machine that was just made.
    pub open spec fn initial() -> CpuState {
        CpuState {
            terminate: false,
            reg: Seq::new(8, |i: int| 0u16),
            mem: Seq::new(MEMORY_SIZE as nat, |i: int| 0u16),
            pc: 0,
            sp: 0,
            ex: 0,
            ia: 0,
            interrupt_queueing: false,
            interrupt_queue: Seq::empty(),
            skip_next: false,
            cycle: 0,
            overshot_cycles: 0,
            inside_run: false,
        }
    }

    /// `n` more cycles on the counter, which stops at its largest value.
    pub open spec fn charge(self, n: usize) -> CpuState {
        CpuState { cycle: self.cycle.saturating_add(n), ..self }
    }

    /// The word that `pc` points at.
    pub open spec fn next_word(self) -> u16 {
        self.mem[self.pc as int]
    }

    /// `pc` moved one word on.
    pub open spec fn advance(self) -> CpuState {
        CpuState { pc: self.pc.wrapping_add(1), ..self }
    }

    /// The stack grown by `value`: `sp` goes down one, then `[sp]` is written.
    pub open spec fn push(self, value: u16) -> CpuState {
        let sp = self.sp.wrapping_sub(1);
        CpuState { sp, mem: self.mem.update(sp as int, value), ..self }
    }

    /// Resolves the operand `id`, in the `a` position if `is_a`, else in
    /// the `b` position. Modes that read the next word move `pc` past it
    /// and cost one cycle; `0x18` pops as `a` and pushes as `b`.
    pub open spec fn locate(self, id: usize, is_a: bool) -> Located {
        if id <= 0x07 {
            Located { state: self, place: Place::Register(id) }
        } else if id <= 0x0f {
            Located { state: self, place: Place::Memory(self.reg[id - 0x08]) }
        } else if id <= 0x17 {
            Located {
                state: self.advance().charge(1),
                place: Place::Memory(self.reg[id - 0x10].wrapping_add(self.next_word())),
            }
        } else if id == 0x18 {
            if is_a {
                Located {
                    state: CpuState { sp: self.sp.wrapping_add(1), ..self },
                    place: Place::Memory(self.sp),
                }
            } else {
                Located {
                    state: CpuState { sp: self.sp.wrapping_sub(1), ..self },
                    place: Place::Memory(self.sp.wrapping_sub(1)),
                }
            }
        } else if id == 0x19 {
            Located { state: self, place: Place::Memory(self.sp) }
        } else if id == 0x1a {
            Located {
                state: self.advance().charge(1),
                place: Place::Memory(self.sp.wrapping_add(self.next_word())),
            }
        } else if id == 0x1b {
            Located { state: self, place: Place::StackPointer }
        } else if id == 0x1c {
            Located { state: self, place: Place::ProgramCounter }
        } else if id == 0x1d {
            Located { state: self, place: Place::Excess }
        } else if id == 0x1e {
            Located { state: self.advance().charge(1), place: Place::Memory(self.next_word()) }
        } else if id == 0x1f {
            Located { state: self.advance().charge(1), place: Place::Literal(self.next_word()) }
        } else if is_a && id <= 0x3f {
            Located { state: self, place: Place::Literal(wrap16(id - 0x21)) }
        } else {
            Located { state: self, place: Place::Literal(0) }
        }
    }

    /// The word at `place`.
    pub open spec fn load(self, place: Place) -> u16 {
        match place {
            Place::Register(i) => self.reg[i as int],
            Place::Memory(addr) => self.mem[addr as int],
            Place::StackPointer => self.sp,
            Place::ProgramCounter => self.pc,
            Place::Excess => self.ex,
            Place::Literal(v) => v,
        }
    }

    /// `value` written to `place`. A write to a literal is dropped.
    pub open spec fn store(self, place: Place, value: u16) -> CpuState {
        match place {
            Place::Register(i) => CpuState { reg: self.reg.update(i as int, value), ..self },
            Place::Memory(addr) => CpuState { mem: self.mem.update(addr as int, value), ..self },
            Place::StackPointer => CpuState { sp: value, ..self },
            Place::ProgramCounter => CpuState { pc: value, ..self },
            Place::Excess => CpuState { ex: value, ..self },
            Place::Literal(_) => self,
        }
    }

    /// The operand `id` resolved and read: the state afterwards and the value.
    pub open spec fn read_operand(self, id: usize, is_a: bool) -> (CpuState, u16) {
        let l = self.locate(id, is_a);
        (l.state, l.state.load(l.place))
    }

    /// The operand `id` resolved as a destination and written.
    pub open spec fn write_operand(self, id: usize, value: u16) -> CpuState {
        let l = self.locate(id, false);
        l.state.store(l.place, value)
    }

    /// `I` and `J` both moved by one, up if `up`, else down.
    pub open spec fn bump_index_registers(self, up: bool) -> CpuState {
        let i = self.reg[REG_I as int];
        let j = self.reg[REG_J as int];
        if up {
            CpuState {
                reg: self.reg.update(REG_I as int, i.wrapping_add(1)).update(
                    REG_J as int,
                    j.wrapping_add(1),
                ),
                ..self
            }
        } else {
            CpuState {
                reg: self.reg.update(REG_I as int, i.wrapping_sub(1)).update(
                    REG_J as int,
                    j.wrapping_sub(1),
                ),
                ..self
            }
        }
    }

    /// A conditional that came out as `truth`: when false the next
    /// instruction is to be skipped, at the price of one cycle.
    pub open spec fn conditional(self, truth: bool) -> CpuState {
        if truth {
            self
        } else {
            CpuState { skip_next: true, ..self.charge(1) }
        }
    }

    /// The basic instruction `opcode` with operands `id_a` and `id_b`,
    /// `pc` already past the instruction word. Operand `a` is resolved
    /// first, then `b`; `EX` is set before `b` is written. Reserved codes
    /// do nothing.
    pub open spec fn execute_basic(self, opcode: usize, id_a: usize, id_b: usize) -> CpuState {
        if is_arithmetic(opcode) || is_conditional(opcode) {
            let la = self.charge(basic_cost(opcode)).locate(id_a, true);
            let a = la.state.load(la.place);
            let lb = la.state.locate(id_b, false);
            let b = lb.state.load(lb.place);
            if is_conditional(opcode) {
                lb.state.conditional(holds(opcode, a, b))
            } else {
                let out = compute(opcode, a, b, lb.state.ex);
                let done = CpuState { ex: out.ex, ..lb.state }.store(lb.place, out.value);
                if opcode == STI {
                    done.bump_index_registers(true)
                } else if opcode == STD {
                    done.bump_index_registers(false)
                } else {
                    done
                }
            }
        } else {
            self
        }
    }

    /// One instruction passed over while skipping: `pc` moves past the
    /// word and past each next word its operands would read, and nothing
    /// else happens, except that skipping a conditional skips on, for one
    /// cycle more.
    pub open spec fn skip_one(self) -> CpuState {
        let word = self.next_word();
        let s1 = self.advance();
        let s2 = if takes_next(a_field(word)) { s1.advance() } else { s1 };
        let s3 = if opcode_of(word) != 0 && takes_next(b_field(word)) { s2.advance() } else { s2 };
        if is_conditional(opcode_of(word)) {
            CpuState { skip_next: true, ..s3.charge(1) }
        } else {
            CpuState { skip_next: false, ..s3 }
        }
    }

    /// Skips while a skip is pending, at most `limit` instructions.
    pub open spec fn skip_chain(self, limit: nat) -> CpuState
        decreases limit,
    {
        if !self.skip_next || limit == 0 {
            self
        } else {
            self.skip_one().skip_chain((limit - 1) as nat)
        }
    }

    /// Delivery of the oldest queued interrupt, if there is one and
    /// queueing is off. It costs four cycles. With `IA` zero the message
    /// is dropped; otherwise queueing turns on, `PC` then `A` are pushed,
    /// `PC` becomes `IA` and `A` the message.
    pub open spec fn dispatch(self) -> CpuState {
        if self.interrupt_queue.len() > 0 && !self.interrupt_queueing {
            let message = self.interrupt_queue[0];
            let s = CpuState { interrupt_queue: self.interrupt_queue.drop_first(), ..self }.charge(
                4,
            );
            if s.ia != 0 {
                let pushed = s.push(s.pc).push(s.reg[REG_A as int]);
                CpuState {
                    interrupt_queueing: true,
                    pc: s.ia,
                    reg: pushed.reg.update(REG_A as int, message),
                    ..pushed
                }
            } else {
                s
            }
        } else {
            self
        }
    }

    /// `message` added at the end of the interrupt queue.
    pub open spec fn enqueue(self, message: u16) -> CpuState {
        CpuState { interrupt_queue: self.interrupt_queue.push(message), ..self }
    }

    /// `cycles` of halt: on the counter inside a batch, else kept as a
    /// credit against the next batch.
    pub open spec fn halted(self, cycles: usize) -> CpuState {
        if self.inside_run {
            self.charge(cycles)
        } else {
            CpuState { overshot_cycles: self.overshot_cycles.saturating_add(cycles), ..self }
        }
    }
}

} // verus!
