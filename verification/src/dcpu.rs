//! The executable machine: registers, memory, the operand resolver and
//! the instruction interpreter, the interrupt queue, and the devices.
//!
//! [`Machine`] is the processor with its memory. [`DCPU`] is a machine
//! with its devices attached. While a device handles an interrupt it has
//! the machine to itself, without the device list.

use vstd::prelude::*;
use crate::alu::{execute_arithmetic, signed, test_condition, to_signed};
use crate::instructions::{HWI, HWN, HWQ, IAG, IAQ, IAS, INT, JSR, RFI, STD, STI};
use crate::semantics::{
    a_field, b_field, basic_cost, block, opcode_of, takes_next, with_block, CpuState, Located,
    Place, REG_A, REG_B, REG_C, REG_I, REG_J, REG_X, REG_Y, SKIP_LIMIT,
};

verus! {

/// The processor with its memory.
pub struct Machine {
    /// Latched when an all-zero word is executed.
    pub terminate: bool,
    /// The registers A, B, C, X, Y, Z, I, J.
    pub reg: [u16; 8],
    pub mem: [u16; 0x10000],
    pub pc: u16,
    pub sp: u16,
    pub ex: u16,
    pub ia: u16,
    /// While set, interrupts wait in the queue.
    pub interrupt_queueing: bool,
    /// Pending interrupt messages, oldest first.
    pub interrupt_queue: Vec<u16>,
    /// A conditional failed and the next instruction is to be passed over.
    pub skip_next: bool,
    pub cycle: usize,
    /// Cycles already spent that the next batch has to give back.
    pub overshot_cycles: usize,
    pub inside_run: bool,
}

impl View for Machine {
    type V = CpuState;

    open spec fn view(&self) -> CpuState {
        CpuState {
            terminate: self.terminate,
            reg: self.reg@,
            mem: self.mem@,
            pc: self.pc,
            sp: self.sp,
            ex: self.ex,
            ia: self.ia,
            interrupt_queueing: self.interrupt_queueing,
            interrupt_queue: self.interrupt_queue@,
            skip_next: self.skip_next,
            cycle: self.cycle,
            overshot_cycles: self.overshot_cycles,
            inside_run: self.inside_run,
        }
    }
}

/// Why a binary image cannot be loaded.
#[derive(Clone, Copy, PartialEq, Eq, Structural, Debug)]
pub enum ImageError {
    /// The image ends in the middle of a word.
    OddLength,
    /// The image has more words than memory.
    TooLarge,
}

/// The words of a binary image: each is two bytes, the high byte first.
pub open spec fn image_words(bytes: Seq<u8>) -> Seq<u16> {
    Seq::new(bytes.len() / 2, |i: int| (bytes[2 * i] * 256 + bytes[2 * i + 1]) as u16)
}

/// The three fields of an instruction word: opcode, `b` and `a`.
pub fn decode(word: u16) -> (r: (usize, usize, usize))
    ensures
        r.0 == opcode_of(word),
        r.1 == b_field(word),
        r.2 == a_field(word),
        r.0 <= 0x1f,
        r.1 <= 0x1f,
        r.2 <= 0x3f,
{
    let opcode = word & 0x1f;
    let b = (word >> 5) & 0x1f;
    let a = (word >> 10) & 0x3f;
    assert(word & 0x1f <= 0x1f) by (bit_vector);
    assert((word >> 5) & 0x1f <= 0x1f) by (bit_vector);
    assert((word >> 10) & 0x3f <= 0x3f) by (bit_vector);
    (opcode as usize, b as usize, a as usize)
}

impl Machine {
    /// A machine with every register, every word of memory and every
    /// counter at zero.
    pub fn new() -> (m: Machine)
        ensures
            m@ == CpuState::initial(),
    {
        let m = Machine {
            terminate: false,
            reg: [0u16; 8],
            mem: [0u16; 0x10000],
            pc: 0,
            sp: 0,
            ex: 0,
            ia: 0,
            interrupt_queueing: false,
            interrupt_queue: Vec::new(),
            skip_next: false,
            cycle: 0,
            overshot_cycles: 0,
            inside_run: false,
        };
        assert forall|i: int| 0 <= i < 8 implies #[trigger] m.reg@[i] == 0u16 by {
        }
        assert forall|i: int| 0 <= i < 0x10000 implies #[trigger] m.mem@[i] == 0u16 by {
        }
        assert(m.reg@ =~= CpuState::initial().reg);
        assert(m.mem@ =~= CpuState::initial().mem);
        assert(m.interrupt_queue@ =~= CpuState::initial().interrupt_queue);
        m
    }

    /// The cycle counter.
    pub fn cycle(&self) -> (c: usize)
        ensures
            c == self@.cycle,
    {
        self.cycle
    }

    /// Halts the machine for `cycles` cycles.
    pub fn halt(&mut self, cycles: usize)
        ensures
            final(self)@ == old(self)@.halted(cycles),
    {
        if self.inside_run {
            self.cycle = self.cycle.saturating_add(cycles);
        } else {
            self.overshot_cycles = self.overshot_cycles.saturating_add(cycles);
        }
    }

    /// Queues an interrupt. Devices call this.
    pub fn interrupt(&mut self, message: u16)
        ensures
            final(self)@ == old(self)@.enqueue(message),
    {
        self.interrupt_queue.push(message);
    }

    /// Puts the machine back into the state that `new` gives.
    pub fn reset(&mut self)
        ensures
            final(self)@ == CpuState::initial(),
    {
        self.terminate = false;
        self.mem = [0u16; 0x10000];
        self.reg = [0u16; 8];
        self.pc = 0;
        self.sp = 0;
        self.ex = 0;
        self.ia = 0;
        self.cycle = 0;
        self.interrupt_queue = Vec::new();
        self.interrupt_queueing = false;
        self.overshot_cycles = 0;
        self.skip_next = false;
        self.inside_run = false;
        assert forall|i: int| 0 <= i < 8 implies #[trigger] self.reg@[i] == 0u16 by {
        }
        assert forall|i: int| 0 <= i < 0x10000 implies #[trigger] self.mem@[i] == 0u16 by {
        }
        assert(self.reg@ =~= CpuState::initial().reg);
        assert(self.mem@ =~= CpuState::initial().mem);
        assert(self.interrupt_queue@ =~= CpuState::initial().interrupt_queue);
    }

    /// Returns `pc` and, if `movepc`, moves it one word on.
    pub fn pcplus(&mut self, movepc: bool) -> (oldpc: u16)
        ensures
            oldpc == old(self).pc,
            final(self)@ == if movepc { old(self)@.advance() } else { old(self)@ },
    {
        let oldpc = self.pc;
        if movepc {
            self.pc = self.pc.wrapping_add(1);
        }
        oldpc
    }

    /// Whether the operand `id` reads the word after the instruction.
    pub fn takes_next(id: usize) -> (r: bool)
        ensures
            r == takes_next(id),
    {
        id >= 0x10 && id <= 0x17 || id == 0x1a || id == 0x1e || id == 0x1f
    }

    fn charge(&mut self, n: usize)
        ensures
            final(self)@ == old(self)@.charge(n),
    {
        self.cycle = self.cycle.saturating_add(n);
    }

    /// Reads the next word, moves `pc` past it and charges one cycle.
    fn consume_next(&mut self) -> (word: u16)
        ensures
            word == old(self)@.next_word(),
            final(self)@ == old(self)@.advance().charge(1),
    {
        let at = self.pcplus(true);
        self.charge(1);
        self.mem[at as usize]
    }

    /// Resolves the operand `id`, in the `a` position if `is_a`.
    pub fn locate(&mut self, id: usize, is_a: bool) -> (place: Place)
        ensures
            (Located { state: final(self)@, place }) == old(self)@.locate(id, is_a),
            place.valid(),
    {
        if id <= 0x07 {
            Place::Register(id)
        } else if id <= 0x0f {
            Place::Memory(self.reg[id - 0x08])
        } else if id <= 0x17 {
            let base = self.reg[id - 0x10];
            let offset = self.consume_next();
            Place::Memory(base.wrapping_add(offset))
        } else if id == 0x18 {
            if is_a {
                let at = self.sp;
                self.sp = self.sp.wrapping_add(1);
                Place::Memory(at)
            } else {
                self.sp = self.sp.wrapping_sub(1);
                Place::Memory(self.sp)
            }
        } else if id == 0x19 {
            Place::Memory(self.sp)
        } else if id == 0x1a {
            let offset = self.consume_next();
            Place::Memory(self.sp.wrapping_add(offset))
        } else if id == 0x1b {
            Place::StackPointer
        } else if id == 0x1c {
            Place::ProgramCounter
        } else if id == 0x1d {
            Place::Excess
        } else if id == 0x1e {
            let addr = self.consume_next();
            Place::Memory(addr)
        } else if id == 0x1f {
            let word = self.consume_next();
            Place::Literal(word)
        } else if is_a && id <= 0x3f {
            if id == 0x20 {
                Place::Literal(0xffff)
            } else {
                Place::Literal((id - 0x21) as u16)
            }
        } else {
            Place::Literal(0)
        }
    }

    /// The word at `place`.
    pub fn load(&self, place: Place) -> (value: u16)
        requires
            place.valid(),
        ensures
            value == self@.load(place),
    {
        match place {
            Place::Register(i) => self.reg[i],
            Place::Memory(addr) => self.mem[addr as usize],
            Place::StackPointer => self.sp,
            Place::ProgramCounter => self.pc,
            Place::Excess => self.ex,
            Place::Literal(v) => v,
        }
    }

    /// Writes `value` to `place`. A write to a literal is dropped.
    pub fn store(&mut self, place: Place, value: u16)
        requires
            place.valid(),
        ensures
            final(self)@ == old(self)@.store(place, value),
    {
        match place {
            Place::Register(i) => {
                self.reg[i] = value;
            },
            Place::Memory(addr) => {
                self.mem[addr as usize] = value;
            },
            Place::StackPointer => {
                self.sp = value;
            },
            Place::ProgramCounter => {
                self.pc = value;
            },
            Place::Excess => {
                self.ex = value;
            },
            Place::Literal(_) => {},
        }
    }

    /// Resolves the operand `identifier` and reads it.
    pub fn value(&mut self, identifier: usize, is_a: bool) -> (v: u16)
        ensures
            (final(self)@, v) == old(self)@.read_operand(identifier, is_a),
    {
        let place = self.locate(identifier, is_a);
        self.load(place)
    }

    /// Resolves the operand `identifier` and reads it as a signed number.
    pub fn value_signed(&mut self, identifier: usize, is_a: bool) -> (v: i16)
        ensures
            final(self)@ == old(self)@.read_operand(identifier, is_a).0,
            v as int == signed(old(self)@.read_operand(identifier, is_a).1),
    {
        let v = self.value(identifier, is_a);
        to_signed(v)
    }

    /// Resolves the operand `identifier` as a destination and writes
    /// `value` to it.
    pub fn set(&mut self, identifier: usize, value: u16)
        ensures
            final(self)@ == old(self)@.write_operand(identifier, value),
    {
        let place = self.locate(identifier, false);
        self.store(place, value);
    }

    /// Records how a conditional came out.
    pub fn process_conditional(&mut self, truth: bool)
        ensures
            final(self)@ == old(self)@.conditional(truth),
    {
        if !truth {
            self.skip_next = true;
            self.charge(1);
        }
    }

    /// Loads a binary image into memory from address zero on. An image
    /// of odd length or longer than memory is refused and memory stays
    /// as it is.
    pub fn load_image(&mut self, bytes: &Vec<u8>) -> (r: Result<(), ImageError>)
        ensures
            r == if bytes@.len() % 2 != 0 {
                Err::<(), ImageError>(ImageError::OddLength)
            } else if bytes@.len() > 0x20000 {
                Err(ImageError::TooLarge)
            } else {
                Ok(())
            },
            final(self)@ == if r is Ok {
                CpuState { mem: with_block(old(self)@.mem, 0, image_words(bytes@)), ..old(self)@ }
            } else {
                old(self)@
            },
    {
        if bytes.len() % 2 != 0 {
            return Err(ImageError::OddLength);
        }
        if bytes.len() > 0x20000 {
            return Err(ImageError::TooLarge);
        }
        let n = bytes.len() / 2;
        let mut words: Vec<u16> = Vec::new();
        let mut i: usize = 0;
        while i < n
            invariant
                i <= n,
                n == bytes@.len() / 2,
                n <= 0x10000,
                bytes@.len() % 2 == 0,
                words@.len() == i,
                forall|j: int| 0 <= j < i ==> words@[j] == image_words(bytes@)[j],
            decreases n - i,
        {
            words.push((bytes[2 * i] as u16) * 256 + bytes[2 * i + 1] as u16);
            i = i + 1;
        }
        assert(words@ =~= image_words(bytes@));
        self.write_block(0, words.as_slice());
        Ok(())
    }

    /// Writes `data` to memory from `base` on, going round at the end
    /// of memory.
    pub fn write_block(&mut self, base: u16, data: &[u16])
        requires
            data@.len() <= 0x10000,
        ensures
            final(self)@ == (CpuState { mem: with_block(old(self)@.mem, base, data@), ..old(self)@ }),
    {
        let n = data.len();
        let mut i: usize = 0;
        assert(self.mem@ =~= with_block(old(self).mem@, base, data@.subrange(0, 0)));
        while i < n
            invariant
                i <= n,
                n == data@.len(),
                n <= 0x10000,
                self@ == (CpuState {
                    mem: with_block(old(self)@.mem, base, data@.subrange(0, i as int)),
                    ..old(self)@
                }),
            decreases n - i,
        {
            let at = base.wrapping_add(i as u16);
            self.mem[at as usize] = data[i];
            assert(self.mem@ =~= with_block(old(self).mem@, base, data@.subrange(0, i as int + 1)));
            i = i + 1;
        }
        assert(data@.subrange(0, n as int) =~= data@);
    }

    /// The `count` words of memory from `base` on, going round at the
    /// end of memory.
    pub fn read_block(&self, base: u16, count: usize) -> (data: Vec<u16>)
        ensures
            data@ == block(self@.mem, base, count as nat),
    {
        let mut data: Vec<u16> = Vec::new();
        let mut i: usize = 0;
        while i < count
            invariant
                i <= count,
                data@ == block(self@.mem, base, i as nat),
            decreases count - i,
        {
            let at = ((base as usize) + (i % 0x10000)) % 0x10000;
            data.push(self.mem[at]);
            assert(data@ =~= block(self@.mem, base, (i + 1) as nat));
            i = i + 1;
        }
        data
    }

    /// Starts a batch of `cycles` cycles and gives its budget.
    pub fn begin_batch(&mut self, cycles: usize) -> (budget: usize)
        ensures
            budget == batch_budget(old(self)@, cycles),
            final(self)@ == batch_begun(old(self)@, cycles),
    {
        self.inside_run = true;
        if self.overshot_cycles > cycles {
            self.overshot_cycles = self.overshot_cycles - cycles;
            0
        } else {
            let rest = cycles - self.overshot_cycles;
            self.overshot_cycles = 0;
            rest
        }
    }

    /// Ends a batch that was to reach `end_cycle`.
    pub fn end_batch(&mut self, end_cycle: usize)
        ensures
            final(self)@ == batch_ended(old(self)@, end_cycle),
    {
        if self.cycle > end_cycle {
            self.overshot_cycles = self.overshot_cycles.saturating_add(self.cycle - end_cycle);
        }
        if self.cycle > 0xffff {
            self.cycle = (self.cycle - 1) % 0xffff + 1;
        }
        self.inside_run = false;
    }

    /// Pushes `value` on the stack.
    fn push(&mut self, value: u16)
        ensures
            final(self)@ == old(self)@.push(value),
    {
        self.sp = self.sp.wrapping_sub(1);
        self.mem[self.sp as usize] = value;
    }

    /// Executes the basic instruction `opcode`, `pc` being past its word.
    pub fn execute_basic(&mut self, opcode: usize, id_a: usize, id_b: usize)
        ensures
            final(self)@ == old(self)@.execute_basic(opcode, id_a, id_b),
    {
        let conditional = opcode >= 0x10 && opcode <= 0x17;
        let arithmetic = (1 <= opcode && opcode <= 0x0f) || opcode == 0x1a || opcode == 0x1b
            || opcode == 0x1e || opcode == 0x1f;
        if !conditional && !arithmetic {
            return ;
        }
        self.charge(Self::cost(opcode));
        let pa = self.locate(id_a, true);
        let a = self.load(pa);
        let pb = self.locate(id_b, false);
        let b = self.load(pb);
        if conditional {
            let truth = test_condition(opcode, a, b);
            self.process_conditional(truth);
        } else {
            let out = execute_arithmetic(opcode, a, b, self.ex);
            self.ex = out.ex;
            self.store(pb, out.value);
            if opcode == STI {
                self.reg[REG_I] = self.reg[REG_I].wrapping_add(1);
                self.reg[REG_J] = self.reg[REG_J].wrapping_add(1);
            } else if opcode == STD {
                self.reg[REG_I] = self.reg[REG_I].wrapping_sub(1);
                self.reg[REG_J] = self.reg[REG_J].wrapping_sub(1);
            }
        }
    }

    /// Cycles of a basic instruction, before what its operands add.
    pub fn cost(opcode: usize) -> (c: usize)
        ensures
            c == basic_cost(opcode),
    {
        if opcode == 0x01 || (0x0a <= opcode && opcode <= 0x0f) {
            1
        } else if (0x02 <= opcode && opcode <= 0x05) || opcode == 0x1e || opcode == 0x1f || (0x10
            <= opcode && opcode <= 0x17) {
            2
        } else if (0x06 <= opcode && opcode <= 0x09) || opcode == 0x1a || opcode == 0x1b {
            3
        } else {
            0
        }
    }

    /// Passes over one instruction without executing it.
    pub fn skip_one(&mut self)
        ensures
            final(self)@ == old(self)@.skip_one(),
    {
        let at = self.pcplus(true);
        let (opcode, id_b, id_a) = decode(self.mem[at as usize]);
        if Self::takes_next(id_a) {
            self.pcplus(true);
        }
        if opcode != 0 && Self::takes_next(id_b) {
            self.pcplus(true);
        }
        self.skip_next = opcode >= 0x10 && opcode <= 0x17;
        if self.skip_next {
            self.charge(1);
        }
    }

    /// Delivers the oldest queued interrupt, if one may be delivered.
    pub fn dispatch_interrupt(&mut self)
        ensures
            final(self)@ == old(self)@.dispatch(),
    {
        if self.interrupt_queue.len() > 0 && !self.interrupt_queueing {
            let message = self.interrupt_queue.remove(0);
            assert(self.interrupt_queue@ =~= old(self).interrupt_queue@.drop_first());
            self.charge(4);
            if self.ia != 0 {
                self.push(self.pc);
                self.push(self.reg[REG_A]);
                self.interrupt_queueing = true;
                self.pc = self.ia;
                self.reg[REG_A] = message;
            }
        }
    }
}

/// The five words by which a device identifies itself.
pub struct HardwareInfo {
    pub hardware_id_lower: u16,
    pub hardware_id_upper: u16,
    pub version: u16,
    pub manufacturer_id_lower: u16,
    pub manufacturer_id_upper: u16,
}

/// A piece of hardware that can be attached to a [`DCPU`].
///
/// A device is described by its view. What its two entry points do, to
/// itself and to the machine, is a function of that view and of the
/// machine's state: an implementation gives the three functions and is
/// held to them.
pub trait Device: View {
    /// The five info words of a device in state `model`.
    spec fn info(model: Self::V) -> HardwareInfo;

    /// The device and the machine after the device has handled a
    /// hardware interrupt.
    spec fn on_interrupt(model: Self::V, cpu: CpuState) -> (Self::V, CpuState);

    /// The device and the machine after the device has been told that
    /// `cycles` cycles have passed.
    spec fn on_run(model: Self::V, cpu: CpuState, cycles: usize) -> (Self::V, CpuState);

    fn info_hardware_id_upper(&self) -> (r: u16)
        ensures
            r == Self::info(self@).hardware_id_upper,
    ;

    fn info_hardware_id_lower(&self) -> (r: u16)
        ensures
            r == Self::info(self@).hardware_id_lower,
    ;

    fn info_manufacturer_id_upper(&self) -> (r: u16)
        ensures
            r == Self::info(self@).manufacturer_id_upper,
    ;

    fn info_manufacturer_id_lower(&self) -> (r: u16)
        ensures
            r == Self::info(self@).manufacturer_id_lower,
    ;

    fn info_version(&self) -> (r: u16)
        ensures
            r == Self::info(self@).version,
    ;

    /// Handles a hardware interrupt sent by `HWI`.
    fn process_interrupt(&mut self, cpu: &mut Machine)
        ensures
            (final(self)@, final(cpu)@) == Self::on_interrupt(old(self)@, old(cpu)@),
    ;

    /// Called once per batch with the cycles of the batch.
    fn run(&mut self, cpu: &mut Machine, cycles: usize)
        ensures
            (final(self)@, final(cpu)@) == Self::on_run(old(self)@, old(cpu)@, cycles),
    ;
}

/// The state of a machine together with the states of its devices.
pub struct System<M> {
    pub cpu: CpuState,
    pub devices: Seq<M>,
}

/// Cycles of a special instruction, before what its operand adds.
pub open spec fn special_cost(code: usize) -> usize {
    if code == JSR || code == RFI {
        3
    } else if code == IAG || code == IAS {
        1
    } else if code == IAQ || code == HWN {
        2
    } else if code == HWQ || code == HWI {
        4
    } else {
        0
    }
}

/// Registers A, B, C, X, Y loaded with the five info words.
pub open spec fn with_info(cpu: CpuState, info: HardwareInfo) -> CpuState {
    CpuState {
        reg: cpu.reg.update(REG_A as int, info.hardware_id_lower).update(
            REG_B as int,
            info.hardware_id_upper,
        ).update(REG_C as int, info.version).update(
            REG_X as int,
            info.manufacturer_id_lower,
        ).update(REG_Y as int, info.manufacturer_id_upper),
        ..cpu
    }
}

/// The info words of no device.
pub open spec fn no_info() -> HardwareInfo {
    HardwareInfo {
        hardware_id_lower: 0,
        hardware_id_upper: 0,
        version: 0,
        manufacturer_id_lower: 0,
        manufacturer_id_upper: 0,
    }
}

/// The special instruction `code` with operand `id_a`, `pc` already past
/// the instruction word.
///
/// Code zero latches `terminate`. `JSR` lowers `sp`, reads `a`, stores
/// `pc` at `[sp]` and jumps. `INT` queues `a`. `IAG` writes `IA` to `a`;
/// `IAS` reads it from `a`. `RFI` turns queueing off and pops `A`, then
/// `PC`. `IAQ` turns queueing on iff `a` is not zero. `HWN` writes the
/// number of devices to `a`. `HWQ` loads the info words of device `a`,
/// or zeros. `HWI` lets device `a` handle an interrupt. Any other code
/// resolves its operand and does nothing with it.
pub open spec fn execute_special<D: Device>(sys: System<D::V>, code: usize, id_a: usize) -> System<
    D::V,
> {
    let cpu = sys.cpu.charge(special_cost(code));
    if code == 0 {
        System { cpu: CpuState { terminate: true, ..cpu }, ..sys }
    } else if code == JSR {
        let (s, a) = CpuState { sp: cpu.sp.wrapping_sub(1), ..cpu }.read_operand(id_a, true);
        System { cpu: CpuState { mem: s.mem.update(s.sp as int, s.pc), pc: a, ..s }, ..sys }
    } else if code == INT {
        let (s, a) = cpu.read_operand(id_a, true);
        System { cpu: s.enqueue(a), ..sys }
    } else if code == IAG {
        System { cpu: cpu.write_operand(id_a, cpu.ia), ..sys }
    } else if code == IAS {
        let (s, a) = cpu.read_operand(id_a, true);
        System { cpu: CpuState { ia: a, ..s }, ..sys }
    } else if code == RFI {
        let a = cpu.mem[cpu.sp as int];
        let pc = cpu.mem[cpu.sp.wrapping_add(1) as int];
        System {
            cpu: CpuState {
                interrupt_queueing: false,
                reg: cpu.reg.update(REG_A as int, a),
                pc,
                sp: cpu.sp.wrapping_add(1).wrapping_add(1),
                ..cpu
            },
            ..sys
        }
    } else if code == IAQ {
        let (s, a) = cpu.read_operand(id_a, true);
        System { cpu: CpuState { interrupt_queueing: a != 0, ..s }, ..sys }
    } else if code == HWN {
        System { cpu: cpu.write_operand(id_a, (sys.devices.len() % 0x10000) as u16), ..sys }
    } else if code == HWQ {
        let (s, a) = cpu.read_operand(id_a, true);
        if a < sys.devices.len() {
            System { cpu: with_info(s, D::info(sys.devices[a as int])), ..sys }
        } else {
            System { cpu: with_info(s, no_info()), ..sys }
        }
    } else if code == HWI {
        let (s, a) = cpu.read_operand(id_a, true);
        if a < sys.devices.len() {
            let (device, after) = D::on_interrupt(sys.devices[a as int], s);
            System { cpu: after, devices: sys.devices.update(a as int, device) }
        } else {
            System { cpu: s, ..sys }
        }
    } else {
        System { cpu: cpu.read_operand(id_a, true).0, ..sys }
    }
}

/// One instruction fetched and executed.
pub open spec fn step<D: Device>(sys: System<D::V>) -> System<D::V> {
    let word = sys.cpu.next_word();
    let fetched = System { cpu: sys.cpu.advance(), ..sys };
    if opcode_of(word) == 0 {
        execute_special::<D>(fetched, b_field(word), a_field(word))
    } else {
        System {
            cpu: fetched.cpu.execute_basic(opcode_of(word), a_field(word), b_field(word)),
            ..sys
        }
    }
}

/// One tick. A terminated machine stays as it is. Otherwise one
/// instruction is executed (unless a skip is already pending), pending
/// skips are carried out, and, if no skip is left pending, one queued
/// interrupt may be delivered.
pub open spec fn tick<D: Device>(sys: System<D::V>) -> System<D::V> {
    if sys.cpu.terminate {
        sys
    } else {
        let stepped = if sys.cpu.skip_next { sys } else { step::<D>(sys) };
        let skipped = stepped.cpu.skip_chain(SKIP_LIMIT as nat);
        System { cpu: if skipped.skip_next { skipped } else { skipped.dispatch() }, ..stepped }
    }
}

/// The cycle counter brought back into sixteen bits at the end of a
/// batch: sixty-five thousand five hundred and thirty-five is taken off
/// as often as the counter is above it.
pub open spec fn folded_cycle(cycle: usize) -> usize {
    if cycle > 0xffff {
        (((cycle - 1) % 0xffff) + 1) as usize
    } else {
        cycle
    }
}

/// Ticks until the counter reaches `end_cycle` or the machine
/// terminates, but no more than `ticks` of them.
pub open spec fn run_ticks<D: Device>(sys: System<D::V>, end_cycle: usize, ticks: nat) -> System<
    D::V,
>
    decreases ticks,
{
    if ticks == 0 || sys.cpu.cycle >= end_cycle || sys.cpu.terminate {
        sys
    } else {
        run_ticks::<D>(tick::<D>(sys), end_cycle, (ticks - 1) as nat)
    }
}

/// Every device from index `from` on, in order, told that `cycles`
/// cycles have passed.
pub open spec fn run_devices<D: Device>(sys: System<D::V>, cycles: usize, from: nat) -> System<
    D::V,
>
    decreases sys.devices.len() - from,
{
    if from >= sys.devices.len() {
        sys
    } else {
        let (device, cpu) = D::on_run(sys.devices[from as int], sys.cpu, cycles);
        run_devices::<D>(
            System { cpu, devices: sys.devices.update(from as int, device) },
            cycles,
            from + 1,
        )
    }
}

/// The cycles that a batch of `cycles` cycles may spend once what is
/// owed from before has been taken off.
pub open spec fn batch_budget(cpu: CpuState, cycles: usize) -> usize {
    if cpu.overshot_cycles > cycles {
        0
    } else {
        (cycles - cpu.overshot_cycles) as usize
    }
}

/// The machine at the start of a batch: what is owed beyond the batch
/// stays owed.
pub open spec fn batch_begun(cpu: CpuState, cycles: usize) -> CpuState {
    CpuState {
        inside_run: true,
        overshot_cycles: if cpu.overshot_cycles > cycles {
            (cpu.overshot_cycles - cycles) as usize
        } else {
            0
        },
        ..cpu
    }
}

/// The machine at the end of a batch that was to reach `end_cycle`: what
/// the counter is above it is owed by the next batch, and the counter is
/// folded.
pub open spec fn batch_ended(cpu: CpuState, end_cycle: usize) -> CpuState {
    let over = if cpu.cycle > end_cycle { (cpu.cycle - end_cycle) as usize } else { 0 };
    CpuState {
        overshot_cycles: cpu.overshot_cycles.saturating_add(over),
        cycle: folded_cycle(cpu.cycle),
        inside_run: false,
        ..cpu
    }
}

/// One batch of `cycles` cycles.
///
/// Cycles owed from before are taken off the batch first. The rest is
/// the budget: the machine ticks until the counter has gone up by the
/// budget or it terminates, and never more often than the budget has
/// cycles. Then every device is told of the batch, and the batch ends.
pub open spec fn run<D: Device>(sys: System<D::V>, cycles: usize) -> System<D::V> {
    let budget = batch_budget(sys.cpu, cycles);
    let start = batch_begun(sys.cpu, cycles);
    let end_cycle = start.cycle.saturating_add(budget);
    let ticked = run_ticks::<D>(System { cpu: start, ..sys }, end_cycle, budget as nat);
    let served = run_devices::<D>(ticked, cycles, 0);
    System { cpu: batch_ended(served.cpu, end_cycle), ..served }
}

/// The views of a list of devices.
pub open spec fn models<D: Device>(devices: Seq<D>) -> Seq<D::V> {
    Seq::new(devices.len(), |i: int| devices[i]@)
}

/// A machine with its devices.
pub struct DCPU<D> {
    pub core: Machine,
    pub devices: Vec<D>,
}

impl<D: Device> View for DCPU<D> {
    type V = System<D::V>;

    open spec fn view(&self) -> System<D::V> {
        System { cpu: self.core@, devices: models(self.devices@) }
    }
}

impl<D> core::ops::Deref for DCPU<D> {
    type Target = Machine;

    fn deref(&self) -> (r: &Machine)
        ensures
            *r == self.core,
    {
        &self.core
    }
}

impl<D> core::ops::DerefMut for DCPU<D> {
    fn deref_mut(&mut self) -> (r: &mut Machine)
        ensures
            *r == old(self).core,
            final(self).core == *final(r),
            final(self).devices == old(self).devices,
    {
        &mut self.core
    }
}

impl<D: Device> DCPU<D> {
    /// A machine in its initial state with no device attached.
    pub fn new() -> (cpu: DCPU<D>)
        ensures
            cpu@ == (System::<D::V> { cpu: CpuState::initial(), devices: Seq::empty() }),
    {
        let cpu = DCPU { core: Machine::new(), devices: Vec::new() };
        assert(cpu@.devices =~= Seq::<D::V>::empty());
        cpu
    }

    /// The cycle counter.
    pub fn cycle(&self) -> (c: usize)
        ensures
            c == self@.cpu.cycle,
    {
        self.core.cycle
    }

    /// Halts the machine for `cycles` cycles.
    pub fn halt(&mut self, cycles: usize)
        ensures
            final(self)@ == (System { cpu: old(self)@.cpu.halted(cycles), ..old(self)@ }),
    {
        self.core.halt(cycles);
    }

    /// Attaches `device` behind the devices that are there.
    pub fn add_device(&mut self, device: D)
        ensures
            final(self)@ == (System { devices: old(self)@.devices.push(device@), ..old(self)@ }),
    {
        self.devices.push(device);
        assert(models(self.devices@) =~= models(old(self).devices@).push(device@));
    }

    /// Queues an interrupt.
    pub fn interrupt(&mut self, message: u16)
        ensures
            final(self)@ == (System { cpu: old(self)@.cpu.enqueue(message), ..old(self)@ }),
    {
        self.core.interrupt(message);
    }

    /// Puts the machine back into its initial state and detaches the devices.
    pub fn reset(&mut self)
        ensures
            final(self)@ == (System::<D::V> { cpu: CpuState::initial(), devices: Seq::empty() }),
    {
        self.core.reset();
        self.devices = Vec::new();
        assert(self@.devices =~= Seq::<D::V>::empty());
    }

    /// Ticks until the counter reaches `end_cycle` or the machine
    /// terminates, at most `budget` times.
    fn tick_until(&mut self, end_cycle: usize, budget: usize)
        ensures
            final(self)@ == run_ticks::<D>(old(self)@, end_cycle, budget as nat),
    {
        let mut ticks: usize = budget;
        while ticks > 0 && self.core.cycle < end_cycle && !self.core.terminate
            invariant
                run_ticks::<D>(self@, end_cycle, ticks as nat) == run_ticks::<D>(
                    old(self)@,
                    end_cycle,
                    budget as nat,
                ),
            decreases ticks,
        {
            self.tick();
            ticks = ticks - 1;
        }
    }

    /// Tells every device that `cycles` cycles have passed.
    fn serve_devices(&mut self, cycles: usize)
        ensures
            final(self)@ == run_devices::<D>(old(self)@, cycles, 0),
    {
        let mut i: usize = 0;
        while i < self.devices.len()
            invariant
                i <= self.devices.len(),
                run_devices::<D>(self@, cycles, i as nat) == run_devices::<D>(
                    old(self)@,
                    cycles,
                    0,
                ),
            decreases self.devices.len() - i,
        {
            let ghost before = self@;
            self.devices[i].run(&mut self.core, cycles);
            assert(self@.devices =~= before.devices.update(i as int, self.devices@[i as int]@));
            i = i + 1;
        }
    }

    /// Runs one batch of `cycles` cycles.
    pub fn run(&mut self, cycles: usize)
        ensures
            final(self)@ == run::<D>(old(self)@, cycles),
    {
        let budget = self.core.begin_batch(cycles);
        let end_cycle = self.core.cycle.saturating_add(budget);
        self.tick_until(end_cycle, budget);
        self.serve_devices(cycles);
        self.core.end_batch(end_cycle);
    }

    /// Executes the special instruction `spec_opcode`, `pc` being past
    /// its word.
    pub fn process_special_opcode(&mut self, spec_opcode: usize, id_a: usize)
        ensures
            final(self)@ == execute_special::<D>(old(self)@, spec_opcode, id_a),
    {
        if spec_opcode == 0 {
            self.core.terminate = true;
        } else if spec_opcode == JSR {
            self.core.charge(3);
            self.core.sp = self.core.sp.wrapping_sub(1);
            let new_pc = self.core.value(id_a, true);
            self.core.mem[self.core.sp as usize] = self.core.pc;
            self.core.pc = new_pc;
        } else if spec_opcode == INT {
            let message = self.core.value(id_a, true);
            self.core.interrupt(message);
        } else if spec_opcode == IAG {
            self.core.charge(1);
            let ia = self.core.ia;
            self.core.set(id_a, ia);
        } else if spec_opcode == IAS {
            self.core.charge(1);
            let ia = self.core.value(id_a, true);
            self.core.ia = ia;
        } else if spec_opcode == RFI {
            self.core.charge(3);
            self.core.interrupt_queueing = false;
            self.core.reg[REG_A] = self.core.mem[self.core.sp as usize];
            self.core.sp = self.core.sp.wrapping_add(1);
            self.core.pc = self.core.mem[self.core.sp as usize];
            self.core.sp = self.core.sp.wrapping_add(1);
        } else if spec_opcode == IAQ {
            self.core.charge(2);
            let a = self.core.value(id_a, true);
            self.core.interrupt_queueing = a != 0;
        } else if spec_opcode == HWN {
            self.core.charge(2);
            let n_devices = (self.devices.len() % 0x10000) as u16;
            self.core.set(id_a, n_devices);
        } else if spec_opcode == HWQ {
            self.core.charge(4);
            let device_id = self.core.value(id_a, true) as usize;
            if device_id < self.devices.len() {
                let d = &self.devices[device_id];
                let lower = d.info_hardware_id_lower();
                let upper = d.info_hardware_id_upper();
                let version = d.info_version();
                let manufacturer_lower = d.info_manufacturer_id_lower();
                let manufacturer_upper = d.info_manufacturer_id_upper();
                self.core.reg[REG_A] = lower;
                self.core.reg[REG_B] = upper;
                self.core.reg[REG_C] = version;
                self.core.reg[REG_X] = manufacturer_lower;
                self.core.reg[REG_Y] = manufacturer_upper;
            } else {
                self.core.reg[REG_A] = 0;
                self.core.reg[REG_B] = 0;
                self.core.reg[REG_C] = 0;
                self.core.reg[REG_X] = 0;
                self.core.reg[REG_Y] = 0;
            }
        } else if spec_opcode == HWI {
            self.core.charge(4);
            let device_id = self.core.value(id_a, true) as usize;
            if device_id < self.devices.len() {
                self.devices[device_id].process_interrupt(&mut self.core);
                assert(models(self.devices@) =~= models(old(self).devices@).update(
                    device_id as int,
                    self.devices@[device_id as int]@,
                ));
            }
        } else {
            let _ = self.core.value(id_a, true);
        }
    }

    /// Executes one instruction, passes over those that a failed
    /// conditional skips, and delivers at most one queued interrupt.
    pub fn tick(&mut self)
        ensures
            final(self)@ == tick::<D>(old(self)@),
    {
        if self.core.terminate {
            return ;
        }
        if !self.core.skip_next {
            let at = self.core.pcplus(true);
            let (opcode, id_b, id_a) = decode(self.core.mem[at as usize]);
            if opcode == 0 {
                self.process_special_opcode(id_b, id_a);
            } else {
                self.core.execute_basic(opcode, id_a, id_b);
            }
        }
        let ghost stepped = self@;
        let mut left: u32 = SKIP_LIMIT;
        while self.core.skip_next && left > 0
            invariant
                self@.devices == stepped.devices,
                self@.cpu.skip_chain(left as nat) == stepped.cpu.skip_chain(SKIP_LIMIT as nat),
            decreases left,
        {
            self.core.skip_one();
            left = left - 1;
        }
        if !self.core.skip_next {
            self.core.dispatch_interrupt();
        }
    }
}

} // verus!
