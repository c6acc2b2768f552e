use dcpu16::alu::{execute_arithmetic, test_condition, to_signed};
use dcpu16::dcpu::{decode, ImageError, Machine, DCPU};
use dcpu16::devices::clock_generic::DeviceClockGeneric;
use dcpu16::instructions::{
    ADD, ADX, AND, ASR, BOR, DIV, DVI, IFA, IFB, IFC, IFE, IFG, IFL, IFN, IFU, MDI, MLI, MOD, MUL,
    SBX, SET, SHL, SHR, STD, STI, SUB, XOR,
};
use dcpu16::semantics::Place;

fn machine() -> DCPU<DeviceClockGeneric> {
    DCPU::new()
}

fn load(cpu: &mut DCPU<DeviceClockGeneric>, words: &[u16]) {
    for (i, w) in words.iter().enumerate() {
        cpu.mem[i] = *w;
    }
}

fn alu(opcode: usize, a: u16, b: u16, ex: u16) -> (u16, u16) {
    let out = execute_arithmetic(opcode, a, b, ex);
    (out.value, out.ex)
}

#[test]
fn scenario_set_short_literal() {
    let mut cpu = machine();
    load(&mut cpu, &[0x8801]);
    cpu.tick();
    assert_eq!(cpu.reg[0], 1);
    assert_eq!(cpu.pc, 1);
    assert_eq!(cpu.cycle(), 1);
}

#[test]
fn scenario_set_next_word_then_copy() {
    let mut cpu = machine();
    load(&mut cpu, &[0x7c01, 0x0064, 0x00e1]);
    cpu.tick();
    cpu.tick();
    assert_eq!(cpu.reg[0], 100);
    assert_eq!(cpu.reg[7], 100);
    assert_eq!(cpu.pc, 3);
    assert_eq!(cpu.cycle(), 3);
}

#[test]
fn scenario_set_from_label_word() {
    let mut cpu = machine();
    load(&mut cpu, &[0x7c01, 0x0000]);
    cpu.reg[0] = 55;
    cpu.tick();
    assert_eq!(cpu.reg[0], 0);
    assert_eq!(cpu.pc, 2);
}

#[test]
fn scenario_failed_condition_skips_one() {
    let mut cpu = machine();
    // IFE A, 1 / SET A, 2 / SET A, 3
    load(&mut cpu, &[0x8812, 0x8c01, 0x9001]);
    cpu.tick();
    assert_eq!(cpu.reg[0], 0);
    assert_eq!(cpu.pc, 2);
    assert_eq!(cpu.cycle(), 3);
    assert!(!cpu.skip_next);
    cpu.tick();
    assert_eq!(cpu.reg[0], 3);
}

#[test]
fn scenario_chained_skip() {
    let mut cpu = machine();
    // IFE A, 1 / IFE B, 1 / SET A, 9 / SET B, 9
    load(&mut cpu, &[0x8812, 0x8832, 0xa801, 0xa821]);
    cpu.tick();
    assert_eq!(cpu.pc, 3);
    assert_eq!(cpu.reg[0], 0);
    assert_eq!(cpu.reg[1], 0);
    assert_eq!(cpu.cycle(), 4);
    cpu.tick();
    assert_eq!(cpu.reg[0], 0);
    assert_eq!(cpu.reg[1], 9);
}

#[test]
fn condition_that_holds_skips_nothing() {
    let mut cpu = machine();
    // IFE A, 0 / SET A, 2
    load(&mut cpu, &[0x8412, 0x8c01]);
    cpu.tick();
    assert_eq!(cpu.pc, 1);
    assert_eq!(cpu.cycle(), 2);
    cpu.tick();
    assert_eq!(cpu.reg[0], 2);
}

#[test]
fn skip_passes_over_next_words() {
    let mut cpu = machine();
    // IFE A, 1 / SET [0x1000], 0x20 / SET A, 3
    load(&mut cpu, &[0x8812, 0x7fc1, 0x0020, 0x1000, 0x9001]);
    cpu.tick();
    assert_eq!(cpu.pc, 4);
    assert_eq!(cpu.mem[0x1000], 0);
    cpu.tick();
    assert_eq!(cpu.reg[0], 3);
}

#[test]
fn skip_of_a_special_instruction_reads_one_operand() {
    let mut cpu = machine();
    // IFE A, 1 / JSR 0x1234 / SET A, 3
    load(&mut cpu, &[0x8812, 0x7c20, 0x1234, 0x9001]);
    cpu.tick();
    assert_eq!(cpu.pc, 3);
    assert_eq!(cpu.sp, 0);
}

#[test]
fn tick_of_terminated_machine_changes_nothing() {
    let mut cpu = machine();
    load(&mut cpu, &[0x0000, 0x8801]);
    cpu.tick();
    assert!(cpu.terminate);
    assert_eq!(cpu.pc, 1);
    cpu.interrupt(7);
    let cycle = cpu.cycle();
    cpu.tick();
    cpu.tick();
    assert!(cpu.terminate);
    assert_eq!(cpu.pc, 1);
    assert_eq!(cpu.reg[0], 0);
    assert_eq!(cpu.cycle(), cycle);
    assert_eq!(cpu.interrupt_queue, vec![7]);
}

#[test]
fn add_carries_for_chosen_values() {
    for &(a, b) in &[(0u16, 0u16), (1, 0xffff), (0xffff, 0xffff), (0x1234, 0x4321), (0x8000, 0x8000)] {
        let mut cpu = machine();
        load(&mut cpu, &[0x7c01, b, 0x7c02, a]);
        cpu.tick();
        cpu.tick();
        let sum = a as u32 + b as u32;
        assert_eq!(cpu.reg[0], (sum % 0x10000) as u16);
        assert_eq!(cpu.ex, if sum >= 0x10000 { 1 } else { 0 });
    }
}

#[test]
fn sub_borrows_for_chosen_values() {
    for &(a, b) in &[(0u16, 0u16), (1, 0), (0xffff, 0), (5, 9), (9, 5), (0x8000, 0x7fff)] {
        let mut cpu = machine();
        load(&mut cpu, &[0x7c01, b, 0x7c03, a]);
        cpu.tick();
        cpu.tick();
        assert_eq!(cpu.reg[0], b.wrapping_sub(a));
        assert_eq!(cpu.ex, if a > b { 0xffff } else { 0 });
    }
}

#[test]
fn division_by_zero_gives_zero() {
    for &word in &[0x8406u16, 0x8407] {
        let mut cpu = machine();
        load(&mut cpu, &[word]);
        cpu.reg[0] = 1234;
        cpu.ex = 77;
        cpu.tick();
        assert_eq!(cpu.reg[0], 0);
        assert_eq!(cpu.ex, 0);
        assert_eq!(cpu.cycle(), 3);
    }
}

#[test]
fn shr_keeps_the_bits_shifted_out() {
    for s in 0u16..16 {
        for &b in &[0xffffu16, 0x8001, 0x1234, 0] {
            let (value, ex) = alu(SHR, s, b, 0x5555);
            let wide = ((b as u32) << 16) >> s;
            assert_eq!(value, (wide >> 16) as u16);
            assert_eq!(ex, (wide & 0xffff) as u16);
        }
    }
}

#[test]
fn arithmetic_set_add_sub() {
    assert_eq!(alu(SET, 7, 9, 3), (7, 3));
    assert_eq!(alu(ADD, 0xffff, 2, 0), (1, 1));
    assert_eq!(alu(ADD, 1, 2, 9), (3, 0));
    assert_eq!(alu(SUB, 3, 2, 0), (0xffff, 0xffff));
    assert_eq!(alu(SUB, 2, 3, 9), (1, 0));
}

#[test]
fn arithmetic_multiplication() {
    assert_eq!(alu(MUL, 0xffff, 0xffff, 0), (0x0001, 0xfffe));
    assert_eq!(alu(MUL, 3, 4, 9), (12, 0));
    assert_eq!(alu(MLI, 0xffff, 3, 0), (0xfffd, 0xffff));
    assert_eq!(alu(MLI, 0x8000, 0x8000, 0), (0, 0x4000));
    assert_eq!(alu(MLI, 3, 4, 9), (12, 0));
    assert_eq!(alu(MLI, 0xffff, 0xffff, 9), (1, 0));
}

#[test]
fn arithmetic_division() {
    assert_eq!(alu(DIV, 2, 7, 0), (3, 0x8000));
    assert_eq!(alu(DIV, 1, 0x8000, 5), (0x8000, 0));
    assert_eq!(alu(DIV, 0, 7, 5), (0, 0));
    assert_eq!(alu(DIV, 3, 1, 5), (0, 0x5555));
    assert_eq!(alu(DVI, 2, 0xfff9, 0), (0xfffd, 0x8000));
    assert_eq!(alu(DVI, 0xffff, 0x8000, 0), (0x8000, 0));
    assert_eq!(alu(DVI, 0xfffe, 7, 0), (0xfffd, 0x8000));
    assert_eq!(alu(DVI, 0, 7, 5), (0, 0));
}

#[test]
fn arithmetic_remainder() {
    assert_eq!(alu(MOD, 3, 7, 5), (1, 5));
    assert_eq!(alu(MOD, 0, 7, 5), (0, 5));
    assert_eq!(alu(MDI, 16, 0xfff9, 5), (0xfff9, 5));
    assert_eq!(alu(MDI, 0xffff, 0x8000, 5), (0, 5));
    assert_eq!(alu(MDI, 0xfffd, 7, 5), (1, 5));
    assert_eq!(alu(MDI, 0, 7, 5), (0, 5));
}

#[test]
fn arithmetic_bits() {
    assert_eq!(alu(AND, 0x0ff0, 0x3c3c, 5), (0x0c30, 5));
    assert_eq!(alu(BOR, 0x0ff0, 0x3c3c, 5), (0x3ffc, 5));
    assert_eq!(alu(XOR, 0x0ff0, 0x3c3c, 5), (0x33cc, 5));
}

#[test]
fn arithmetic_shifts() {
    assert_eq!(alu(SHR, 1, 0x8001, 0), (0x4000, 0x8000));
    assert_eq!(alu(SHR, 16, 0x8001, 0), (0, 0x8001));
    assert_eq!(alu(SHR, 17, 0x8001, 0), (0, 0x4000));
    assert_eq!(alu(SHR, 32, 0x8001, 7), (0, 0));
    assert_eq!(alu(SHR, 0xffff, 0x8001, 7), (0, 0));
    assert_eq!(alu(ASR, 1, 0x8000, 0), (0xc000, 0));
    assert_eq!(alu(ASR, 1, 0x8001, 0), (0xc000, 0x8000));
    assert_eq!(alu(ASR, 16, 0x8000, 0), (0xffff, 0x8000));
    assert_eq!(alu(ASR, 16, 0x4000, 0), (0, 0x4000));
    assert_eq!(alu(ASR, 40, 0x8000, 0), (0xffff, 0));
    assert_eq!(alu(SHL, 1, 0x8001, 0), (0x0002, 1));
    assert_eq!(alu(SHL, 16, 0x8001, 0), (0, 0x8001));
    assert_eq!(alu(SHL, 17, 0x8001, 0), (0, 0x0002));
    assert_eq!(alu(SHL, 32, 0x8001, 7), (0, 0));
}

#[test]
fn arithmetic_with_carry() {
    assert_eq!(alu(ADX, 1, 0xffff, 1), (1, 1));
    assert_eq!(alu(ADX, 1, 2, 1), (4, 0));
    assert_eq!(alu(SBX, 1, 0, 0), (0xffff, 0xffff));
    assert_eq!(alu(SBX, 3, 5, 1), (3, 0));
    assert_eq!(alu(SBX, 0, 0xffff, 1), (0, 0));
    assert_eq!(alu(STI, 7, 9, 3), (7, 3));
    assert_eq!(alu(STD, 7, 9, 3), (7, 3));
}

#[test]
fn conditions() {
    assert!(test_condition(IFB, 0x0f, 0x18));
    assert!(!test_condition(IFB, 0x0f, 0x10));
    assert!(test_condition(IFC, 0x0f, 0x10));
    assert!(!test_condition(IFC, 0x0f, 0x18));
    assert!(test_condition(IFE, 5, 5));
    assert!(!test_condition(IFE, 5, 6));
    assert!(test_condition(IFN, 5, 6));
    assert!(!test_condition(IFN, 5, 5));
    assert!(test_condition(IFG, 5, 0xffff));
    assert!(!test_condition(IFG, 5, 5));
    assert!(test_condition(IFA, 0xffff, 5));
    assert!(!test_condition(IFA, 5, 0xffff));
    assert!(test_condition(IFL, 0xffff, 5));
    assert!(!test_condition(IFL, 5, 5));
    assert!(test_condition(IFU, 5, 0xffff));
    assert!(!test_condition(IFU, 0xffff, 5));
}

#[test]
fn signed_reading() {
    assert_eq!(to_signed(0), 0);
    assert_eq!(to_signed(0x7fff), 32767);
    assert_eq!(to_signed(0x8000), -32768);
    assert_eq!(to_signed(0xffff), -1);
}

#[test]
fn decode_fields() {
    assert_eq!(decode(0x7fc1), (1, 0x1e, 0x1f));
    assert_eq!(decode(0xffff), (0x1f, 0x1f, 0x3f));
    assert_eq!(decode(0x0020), (0, 1, 0));
}

#[test]
fn basic_costs() {
    assert_eq!(Machine::cost(SET), 1);
    assert_eq!(Machine::cost(ADD), 2);
    assert_eq!(Machine::cost(MLI), 2);
    assert_eq!(Machine::cost(DIV), 3);
    assert_eq!(Machine::cost(MDI), 3);
    assert_eq!(Machine::cost(AND), 1);
    assert_eq!(Machine::cost(SHL), 1);
    assert_eq!(Machine::cost(IFB), 2);
    assert_eq!(Machine::cost(IFU), 2);
    assert_eq!(Machine::cost(ADX), 3);
    assert_eq!(Machine::cost(SBX), 3);
    assert_eq!(Machine::cost(STI), 2);
    assert_eq!(Machine::cost(STD), 2);
    assert_eq!(Machine::cost(0x18), 0);
    assert_eq!(Machine::cost(0), 0);
}

#[test]
fn next_word_modes() {
    for id in 0..0x40usize {
        let expected = (0x10..=0x17).contains(&id) || id == 0x1a || id == 0x1e || id == 0x1f;
        assert_eq!(Machine::takes_next(id), expected);
    }
}

#[test]
fn operand_register_and_memory() {
    let mut m = Machine::new();
    m.reg[3] = 0x2000;
    m.mem[0x2000] = 77;
    assert_eq!(m.value(3, true), 0x2000);
    assert_eq!(m.value(0x0b, true), 77);
    assert_eq!(m.pc, 0);
    assert_eq!(m.cycle(), 0);
}

#[test]
fn operand_register_plus_next_word() {
    let mut m = Machine::new();
    m.reg[3] = 0xfff0;
    m.mem[0] = 0x0020;
    m.mem[0x0010] = 99;
    assert_eq!(m.value(0x13, true), 99);
    assert_eq!(m.pc, 1);
    assert_eq!(m.cycle(), 1);
}

#[test]
fn operand_stack() {
    let mut m = Machine::new();
    m.sp = 0xffff;
    m.mem[0xffff] = 11;
    m.mem[0] = 22;
    // POP reads and then moves sp up, round the end of memory
    assert_eq!(m.value(0x18, true), 11);
    assert_eq!(m.sp, 0);
    // PEEK
    assert_eq!(m.value(0x19, true), 22);
    assert_eq!(m.sp, 0);
    // PUSH moves sp down and then writes
    m.set(0x18, 33);
    assert_eq!(m.sp, 0xffff);
    assert_eq!(m.mem[0xffff], 33);
    // PICK
    m.pc = 0x100;
    m.mem[0x100] = 3;
    m.mem[2] = 44;
    assert_eq!(m.value(0x1a, true), 44);
    assert_eq!(m.pc, 0x101);
}

#[test]
fn operand_special_registers() {
    let mut m = Machine::new();
    m.sp = 1;
    m.pc = 2;
    m.ex = 3;
    assert_eq!(m.value(0x1b, true), 1);
    assert_eq!(m.value(0x1c, true), 2);
    assert_eq!(m.value(0x1d, true), 3);
    m.set(0x1b, 10);
    m.set(0x1d, 30);
    m.set(0x1c, 20);
    assert_eq!((m.sp, m.pc, m.ex), (10, 20, 30));
}

#[test]
fn operand_next_word() {
    let mut m = Machine::new();
    m.mem[0] = 0x3000;
    m.mem[1] = 0x4000;
    m.mem[0x3000] = 5;
    assert_eq!(m.value(0x1e, true), 5);
    assert_eq!(m.value(0x1f, true), 0x4000);
    assert_eq!(m.pc, 2);
    assert_eq!(m.cycle(), 2);
}

#[test]
fn operand_short_literals() {
    let mut m = Machine::new();
    assert_eq!(m.value(0x20, true), 0xffff);
    assert_eq!(m.value(0x21, true), 0);
    assert_eq!(m.value(0x3f, true), 30);
    assert_eq!(m.value(0x20, false), 0);
    assert_eq!(m.value(0x40, true), 0);
    assert_eq!(m.value_signed(0x20, true), -1);
    assert_eq!(m.pc, 0);
}

#[test]
fn write_to_a_literal_is_dropped_and_reads_its_word() {
    let mut m = Machine::new();
    m.mem[0] = 0x1234;
    m.set(0x1f, 9);
    assert_eq!(m.pc, 1);
    assert_eq!(m.cycle(), 1);
    assert_eq!(m.mem[0], 0x1234);
    assert_eq!(m.mem[0x1234], 0);
    m.set(0x25, 9);
    assert_eq!(m.pc, 1);
}

#[test]
fn locate_load_store() {
    let mut m = Machine::new();
    m.reg[1] = 0x500;
    assert!(matches!(m.locate(1, true), Place::Register(1)));
    assert!(matches!(m.locate(9, true), Place::Memory(0x500)));
    assert!(matches!(m.locate(0x1b, false), Place::StackPointer));
    assert!(matches!(m.locate(0x1c, false), Place::ProgramCounter));
    assert!(matches!(m.locate(0x1d, false), Place::Excess));
    assert!(matches!(m.locate(0x22, true), Place::Literal(1)));
    m.store(Place::Memory(0x500), 42);
    assert_eq!(m.load(Place::Memory(0x500)), 42);
    m.store(Place::Literal(3), 42);
    assert_eq!(m.load(Place::Literal(3)), 3);
}

#[test]
fn pcplus_returns_old_pc() {
    let mut m = Machine::new();
    m.pc = 0xffff;
    assert_eq!(m.pcplus(false), 0xffff);
    assert_eq!(m.pc, 0xffff);
    assert_eq!(m.pcplus(true), 0xffff);
    assert_eq!(m.pc, 0);
}

#[test]
fn process_conditional_charges_a_failure() {
    let mut m = Machine::new();
    m.process_conditional(true);
    assert!(!m.skip_next);
    assert_eq!(m.cycle(), 0);
    m.process_conditional(false);
    assert!(m.skip_next);
    assert_eq!(m.cycle(), 1);
}

#[test]
fn operand_a_is_resolved_before_b() {
    let mut cpu = machine();
    // SET PUSH, POP
    load(&mut cpu, &[0x6301]);
    cpu.sp = 0x10;
    cpu.mem[0x10] = 77;
    cpu.tick();
    assert_eq!(cpu.sp, 0x10);
    assert_eq!(cpu.mem[0x10], 77);
    // SET [0x1000], [0x2000]: the first next word belongs to a
    let mut cpu = machine();
    load(&mut cpu, &[0x7bc1, 0x2000, 0x1000]);
    cpu.mem[0x2000] = 5;
    cpu.tick();
    assert_eq!(cpu.mem[0x1000], 5);
    assert_eq!(cpu.pc, 3);
    assert_eq!(cpu.cycle(), 3);
}

#[test]
fn condition_reads_a_before_b() {
    let mut cpu = machine();
    // IFE [0x1000], [0x2000] with a = [0x2000]
    load(&mut cpu, &[0x7bd2, 0x2000, 0x1000, 0x8801]);
    cpu.mem[0x2000] = 5;
    cpu.mem[0x1000] = 5;
    cpu.tick();
    assert_eq!(cpu.pc, 3);
    assert_eq!(cpu.cycle(), 4);
}

#[test]
fn read_modify_write_of_push_moves_sp_once() {
    let mut cpu = machine();
    // ADD PUSH, 1
    load(&mut cpu, &[0x8b02]);
    cpu.sp = 0x20;
    cpu.mem[0x1f] = 4;
    cpu.tick();
    assert_eq!(cpu.sp, 0x1f);
    assert_eq!(cpu.mem[0x1f], 5);
    assert_eq!(cpu.cycle(), 2);
}

#[test]
fn destination_with_next_word_costs_one_cycle() {
    let mut cpu = machine();
    // ADD [0x1000], 1
    load(&mut cpu, &[0x8bc2, 0x1000]);
    cpu.mem[0x1000] = 4;
    cpu.tick();
    assert_eq!(cpu.mem[0x1000], 5);
    assert_eq!(cpu.pc, 2);
    assert_eq!(cpu.cycle(), 3);
    // SET [A], 1 costs nothing for its destination
    let mut cpu = machine();
    load(&mut cpu, &[0x8901]);
    cpu.reg[0] = 0x1000;
    cpu.tick();
    assert_eq!(cpu.mem[0x1000], 1);
    assert_eq!(cpu.cycle(), 1);
}

#[test]
fn ex_is_set_before_the_result_is_written() {
    let mut cpu = machine();
    // ADD EX, 1 with EX = 0xffff
    load(&mut cpu, &[0x8ba2]);
    cpu.ex = 0xffff;
    cpu.tick();
    assert_eq!(cpu.ex, 0);
}

#[test]
fn sti_and_std_move_i_and_j() {
    let mut cpu = machine();
    // STI A, 5 / STD A, 6
    load(&mut cpu, &[0x981e, 0x9c1f]);
    cpu.reg[6] = 0xffff;
    cpu.reg[7] = 10;
    cpu.tick();
    assert_eq!(cpu.reg[0], 5);
    assert_eq!(cpu.reg[6], 0);
    assert_eq!(cpu.reg[7], 11);
    cpu.tick();
    assert_eq!(cpu.reg[0], 6);
    assert_eq!(cpu.reg[6], 0xffff);
    assert_eq!(cpu.reg[7], 10);
    assert_eq!(cpu.cycle(), 4);
}

#[test]
fn reserved_basic_opcode_does_nothing() {
    let mut cpu = machine();
    load(&mut cpu, &[0x7c18, 0x1234]);
    cpu.tick();
    assert_eq!(cpu.pc, 1);
    assert_eq!(cpu.cycle(), 0);
    assert_eq!(cpu.reg, [0; 8]);
}

#[test]
fn reserved_special_opcode_only_resolves_its_operand() {
    let mut cpu = machine();
    // special opcode 0x13 with a next-word operand
    load(&mut cpu, &[0x7e60, 0x1234]);
    cpu.tick();
    assert_eq!(cpu.pc, 2);
    assert_eq!(cpu.cycle(), 1);
    assert_eq!(cpu.reg, [0; 8]);
    assert!(!cpu.terminate);
}

#[test]
fn jsr_pushes_the_return_address() {
    let mut cpu = machine();
    // JSR 0x0100
    load(&mut cpu, &[0x7c20, 0x0100]);
    cpu.tick();
    assert_eq!(cpu.pc, 0x0100);
    assert_eq!(cpu.sp, 0xffff);
    assert_eq!(cpu.mem[0xffff], 2);
    assert_eq!(cpu.cycle(), 4);
}

#[test]
fn ias_and_iag() {
    let mut cpu = machine();
    // IAS 0x0200 / IAG B
    load(&mut cpu, &[0x7d40, 0x0200, 0x0520]);
    cpu.tick();
    assert_eq!(cpu.ia, 0x0200);
    assert_eq!(cpu.cycle(), 2);
    cpu.tick();
    assert_eq!(cpu.reg[1], 0x0200);
    assert_eq!(cpu.cycle(), 3);
}

#[test]
fn interrupt_without_handler_is_dropped() {
    let mut cpu = machine();
    // INT 5
    load(&mut cpu, &[0x9900]);
    cpu.tick();
    assert_eq!(cpu.pc, 1);
    assert!(cpu.interrupt_queue.is_empty());
    assert!(!cpu.interrupt_queueing);
    assert_eq!(cpu.cycle(), 4);
    assert_eq!(cpu.reg[0], 0);
}

#[test]
fn interrupt_with_handler_is_delivered() {
    let mut cpu = machine();
    // INT 5
    load(&mut cpu, &[0x9900]);
    cpu.ia = 0x0300;
    cpu.reg[0] = 0x1111;
    cpu.tick();
    assert_eq!(cpu.pc, 0x0300);
    assert_eq!(cpu.reg[0], 5);
    assert!(cpu.interrupt_queueing);
    assert_eq!(cpu.sp, 0xfffe);
    assert_eq!(cpu.mem[0xffff], 1);
    assert_eq!(cpu.mem[0xfffe], 0x1111);
    assert_eq!(cpu.cycle(), 4);
}

#[test]
fn interrupts_wait_while_queueing() {
    let mut cpu = machine();
    // IAQ 1 / INT 5 / INT 6 / IAQ 0
    load(&mut cpu, &[0x8980, 0x9900, 0x9d00, 0x8580]);
    cpu.ia = 0x0300;
    cpu.tick();
    assert!(cpu.interrupt_queueing);
    assert_eq!(cpu.cycle(), 2);
    cpu.tick();
    cpu.tick();
    assert_eq!(cpu.interrupt_queue, vec![5, 6]);
    assert_eq!(cpu.pc, 3);
    assert_eq!(cpu.cycle(), 2);
    cpu.tick();
    // queueing off: the oldest message is delivered
    assert_eq!(cpu.pc, 0x0300);
    assert_eq!(cpu.reg[0], 5);
    assert_eq!(cpu.interrupt_queue, vec![6]);
    assert!(cpu.interrupt_queueing);
}

#[test]
fn rfi_returns_from_a_handler() {
    let mut cpu = machine();
    load(&mut cpu, &[0x9900]);
    cpu.ia = 0x0300;
    cpu.reg[0] = 0x1111;
    // RFI A at the handler
    cpu.mem[0x0300] = 0x0160;
    cpu.tick();
    cpu.tick();
    assert_eq!(cpu.pc, 1);
    assert_eq!(cpu.reg[0], 0x1111);
    assert_eq!(cpu.sp, 0);
    assert!(!cpu.interrupt_queueing);
    assert_eq!(cpu.cycle(), 7);
}

#[test]
fn no_interrupt_is_delivered_while_a_skip_is_pending() {
    let mut m = Machine::new();
    m.skip_next = true;
    m.interrupt(3);
    m.ia = 0x100;
    // a conditional is passed over and the skip goes on
    m.mem[0] = 0x8812;
    m.skip_one();
    assert!(m.skip_next);
    assert_eq!(m.pc, 1);
    assert_eq!(m.cycle(), 1);
    m.skip_one();
    assert!(!m.skip_next);
    assert_eq!(m.interrupt_queue, vec![3]);
    m.dispatch_interrupt();
    assert_eq!(m.pc, 0x100);
    assert_eq!(m.reg[0], 3);
}

#[test]
fn endless_skip_chain_ends_with_the_skip_pending() {
    let mut cpu = machine();
    for i in 0..0x10000usize {
        cpu.mem[i] = 0x8413; // IFN A, 0
    }
    cpu.tick();
    assert!(cpu.skip_next);
    assert_eq!(cpu.pc, 1);
    assert_eq!(cpu.cycle(), 3 + 0x10000);
    cpu.mem[1] = 0x8801;
    cpu.tick();
    assert!(!cpu.skip_next);
    assert_eq!(cpu.pc, 2);
    assert_eq!(cpu.reg[0], 0);
}

#[test]
fn halt_inside_and_outside_a_batch() {
    let mut m = Machine::new();
    m.halt(10);
    assert_eq!(m.cycle(), 0);
    assert_eq!(m.overshot_cycles, 10);
    m.inside_run = true;
    m.halt(10);
    assert_eq!(m.cycle(), 10);
    assert_eq!(m.overshot_cycles, 10);
    m.halt(usize::MAX);
    assert_eq!(m.cycle(), usize::MAX);
}

#[test]
fn reset_gives_the_initial_state() {
    let mut cpu = machine();
    load(&mut cpu, &[0x8801, 0x0000]);
    cpu.add_device(DeviceClockGeneric::new());
    cpu.tick();
    cpu.tick();
    cpu.interrupt(4);
    cpu.reset();
    assert!(!cpu.terminate);
    assert_eq!(cpu.reg, [0; 8]);
    assert_eq!(cpu.mem[0], 0);
    assert_eq!((cpu.pc, cpu.sp, cpu.ex, cpu.ia), (0, 0, 0, 0));
    assert_eq!(cpu.cycle(), 0);
    assert!(cpu.interrupt_queue.is_empty());
    assert!(cpu.devices.is_empty());
}

#[test]
fn blocks_go_round_the_end_of_memory() {
    let mut m = Machine::new();
    m.write_block(0xfffe, &[1, 2, 3, 4]);
    assert_eq!(m.mem[0xfffe], 1);
    assert_eq!(m.mem[0xffff], 2);
    assert_eq!(m.mem[0], 3);
    assert_eq!(m.mem[1], 4);
    assert_eq!(m.mem[2], 0);
    assert_eq!(m.read_block(0xffff, 3), vec![2, 3, 4]);
    assert_eq!(m.read_block(5, 0), Vec::<u16>::new());
}

#[test]
fn image_is_loaded_high_byte_first() {
    let mut m = Machine::new();
    assert_eq!(m.load_image(&vec![0x7c, 0x01, 0x00, 0x64]), Ok(()));
    assert_eq!(m.mem[0], 0x7c01);
    assert_eq!(m.mem[1], 0x0064);
    assert_eq!(m.mem[2], 0);
    assert_eq!(m.load_image(&vec![0x12, 0x34, 0x56]), Err(ImageError::OddLength));
    assert_eq!(m.mem[0], 0x7c01);
    assert_eq!(m.load_image(&vec![0u8; 0x20002]), Err(ImageError::TooLarge));
    assert_eq!(m.load_image(&vec![0xffu8; 0x20000]), Ok(()));
    assert_eq!(m.mem[0xffff], 0xffff);
}

#[test]
fn batch_runs_until_the_budget_is_spent() {
    let mut cpu = machine();
    // ADD A, 1 everywhere: two cycles each
    for i in 0..0x10000usize {
        cpu.mem[i] = 0x8802;
    }
    cpu.run(9);
    // five instructions reach ten cycles, one more than the budget
    assert_eq!(cpu.reg[0], 5);
    assert_eq!(cpu.cycle(), 10);
    assert_eq!(cpu.overshot_cycles, 1);
    assert!(!cpu.inside_run);
    cpu.run(9);
    // the cycle owed is taken off: eight cycles, four instructions
    assert_eq!(cpu.reg[0], 9);
    assert_eq!(cpu.cycle(), 18);
    assert_eq!(cpu.overshot_cycles, 0);
}

#[test]
fn batch_pays_back_what_is_owed() {
    let mut cpu = machine();
    for i in 0..0x10000usize {
        cpu.mem[i] = 0x8802;
    }
    cpu.halt(25);
    cpu.run(10);
    assert_eq!(cpu.reg[0], 0);
    assert_eq!(cpu.overshot_cycles, 15);
    assert!(!cpu.inside_run);
    cpu.run(10);
    assert_eq!(cpu.reg[0], 0);
    assert_eq!(cpu.overshot_cycles, 5);
    cpu.run(10);
    // five cycles left: three instructions, six cycles, one owed
    assert_eq!(cpu.reg[0], 3);
    assert_eq!(cpu.overshot_cycles, 1);
}

#[test]
fn batch_stops_at_termination_and_folds_the_counter() {
    let mut cpu = machine();
    load(&mut cpu, &[0x8802, 0x0000]);
    cpu.run(1000);
    assert!(cpu.terminate);
    assert_eq!(cpu.reg[0], 1);
    assert_eq!(cpu.pc, 2);
    let mut m = Machine::new();
    m.cycle = 0xffff;
    m.end_batch(usize::MAX);
    assert_eq!(m.cycle(), 0xffff);
    m.cycle = 0x10000;
    m.end_batch(usize::MAX);
    assert_eq!(m.cycle(), 1);
    m.cycle = 0x1fffe;
    m.end_batch(0x1fff0);
    assert_eq!(m.cycle(), 0xffff);
    assert_eq!(m.overshot_cycles, 14);
    assert_eq!(m.begin_batch(20), 6);
    assert_eq!(m.overshot_cycles, 0);
    assert!(m.inside_run);
}

#[test]
fn machine_of_a_dcpu_is_reached_through_it() {
    let mut cpu = machine();
    cpu.halt(3);
    assert_eq!(cpu.overshot_cycles, 3);
    assert_eq!(cpu.core.overshot_cycles, 3);
    cpu.process_special_opcode(0, 0);
    assert!(cpu.terminate);
    let mut m = Machine::new();
    m.execute_basic(ADD, 0x22, 0);
    assert_eq!(m.reg[0], 1);
    assert_eq!(m.cycle(), 2);
}
