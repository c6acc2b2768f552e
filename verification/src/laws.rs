//! Laws of the machine and of the assembler, proved from their models.

use vstd::prelude::*;
use crate::alu::{compute, is_conditional, wrap16};
use crate::assembler::{AsmState, Token, TokenType};
use crate::dcpu::{step, tick, Device, System};
use crate::disassembler::instruction_length;
use crate::instructions::SHR;
use crate::lexer::{
    grown, scan, token_valid, tokens_from, tokens_of, tokens_valid, Scan,
};
use crate::parser::{
    assemble, basic_instruction, data_items, define_label, emit_operand, emit_text, first_pass,
    info_valid, instruction_word, line_of, literal_operand, second_pass, single, unresolved_valid,
    value_of, with_word, ParsingInfo,
};
use crate::semantics::{a_field, b_field, opcode_of, takes_next, CpuState, REG_A};

verus! {

/// A tick of a terminated machine changes nothing, neither in the
/// machine nor in its devices.
pub proof fn law_tick_terminated_is_fixed_point<D: Device>(sys: System<D::V>)
    requires
        sys.cpu.terminate,
    ensures
        tick::<D>(sys) == sys,
{
}

/// Resolving an operand moves `pc` by one word and costs one cycle
/// exactly when its mode takes a next word. Besides that it changes at
/// most `sp`, and that only for `0x18`.
pub proof fn law_operand_takes_its_next_word(s: CpuState, id: usize, is_a: bool)
    ensures
        s.locate(id, is_a).state == (CpuState {
            pc: if takes_next(id) { s.pc.wrapping_add(1) } else { s.pc },
            cycle: if takes_next(id) { s.cycle.saturating_add(1) } else { s.cycle },
            sp: s.locate(id, is_a).state.sp,
            ..s
        }),
        id != 0x18 ==> s.locate(id, is_a).state.sp == s.sp,
{
}

/// An instruction that is passed over changes nothing but `pc`, which
/// moves by the length of the instruction, the pending skip, which goes
/// on exactly over a conditional, and then the cycle counter by one.
pub proof fn law_skip_moves_pc_only(s: CpuState)
    ensures
        s.skip_one() == (CpuState {
            pc: wrap16(s.pc + instruction_length(s.next_word())),
            skip_next: is_conditional(opcode_of(s.next_word())),
            cycle: if is_conditional(opcode_of(s.next_word())) {
                s.cycle.saturating_add(1)
            } else {
                s.cycle
            },
            ..s
        }),
{
}

/// Whether memory holds, from `pc` on, the two-word instruction
/// `SET A, b` followed by the two-word instruction with opcode `opcode`,
/// destination `A` and next-word literal `a`.
pub open spec fn holds_set_then<M>(sys: System<M>, opcode: u16, a: u16, b: u16) -> bool {
    let pc = sys.cpu.pc;
    &&& sys.cpu.well_formed()
    &&& 1 <= opcode <= 0x1f
    &&& sys.cpu.mem[pc as int] == 0x7c01
    &&& sys.cpu.mem[pc.wrapping_add(1) as int] == b
    &&& sys.cpu.mem[pc.wrapping_add(2) as int] == 0x7c00 + opcode
    &&& sys.cpu.mem[pc.wrapping_add(3) as int] == a
}

/// After `SET A, b` and `ADD A, a`, `A` is `a + b` modulo 2^16, and `EX`
/// is 1 if the sum did not fit into sixteen bits, else 0.
pub proof fn law_add_carries<D: Device>(sys: System<D::V>, a: u16, b: u16)
    requires
        holds_set_then(sys, 0x02, a, b),
    ensures
        step::<D>(step::<D>(sys)).cpu.reg[REG_A as int] == (a + b) % 0x10000,
        step::<D>(step::<D>(sys)).cpu.ex == (if a + b >= 0x10000 { 1u16 } else { 0u16 }),
{
    assert(opcode_of(0x7c01) == 1 && a_field(0x7c01) == 0x1f && b_field(0x7c01) == 0)
        by (bit_vector);
    assert(opcode_of(0x7c02) == 2 && a_field(0x7c02) == 0x1f && b_field(0x7c02) == 0)
        by (bit_vector);
}

/// After `SET A, b` and `SUB A, a`, `A` is `b - a` modulo 2^16, and `EX`
/// is 0xffff if `a` is above `b`, else 0.
pub proof fn law_sub_borrows<D: Device>(sys: System<D::V>, a: u16, b: u16)
    requires
        holds_set_then(sys, 0x03, a, b),
    ensures
        step::<D>(step::<D>(sys)).cpu.reg[REG_A as int] == (b - a) % 0x10000,
        step::<D>(step::<D>(sys)).cpu.ex == (if a > b { 0xffffu16 } else { 0u16 }),
{
    assert(opcode_of(0x7c01) == 1 && a_field(0x7c01) == 0x1f && b_field(0x7c01) == 0)
        by (bit_vector);
    assert(opcode_of(0x7c03) == 3 && a_field(0x7c03) == 0x1f && b_field(0x7c03) == 0)
        by (bit_vector);
}

/// `DIV A, 0` and `DVI A, 0` leave zero in `A` and in `EX`, whatever
/// they held.
pub proof fn law_division_by_zero<D: Device>(sys: System<D::V>, signed_variant: bool)
    requires
        sys.cpu.well_formed(),
        sys.cpu.next_word() == (if signed_variant { 0x8407u16 } else { 0x8406u16 }),
    ensures
        step::<D>(sys).cpu.reg[REG_A as int] == 0,
        step::<D>(sys).cpu.ex == 0,
{
    assert(opcode_of(0x8406) == 6 && a_field(0x8406) == 0x21 && b_field(0x8406) == 0)
        by (bit_vector);
    assert(opcode_of(0x8407) == 7 && a_field(0x8407) == 0x21 && b_field(0x8407) == 0)
        by (bit_vector);
}

/// `SHR` by less than sixteen splits the 32-bit value `(b << 16) >> s`:
/// its upper half goes to `b`, its lower half, the bits shifted out, to
/// `EX`, and nothing above bit 15 stays in `EX`.
pub proof fn law_shr_keeps_shifted_out_bits(b: u16, s: u16, ex: u16)
    requires
        s < 16,
    ensures
        ((compute(SHR, s, b, ex).value as u32) << 16) | (compute(SHR, s, b, ex).ex as u32) == ((b as u32)
            << 16) >> (s as u32),
        compute(SHR, s, b, ex).ex as u32 == (((b as u32) << 16) >> (s as u32)) & 0xffff,
        compute(SHR, s, b, ex).ex as u32 == ((b as u32) << ((16 - s) as u32)) & 0xffff,
{
    let value = compute(SHR, s, b, ex).value;
    let out = compute(SHR, s, b, ex).ex;
    assert(value == b >> s);
    assert(out == ((((b as u32) << 16) >> (s as u32)) & 0xffff) as u16);
    assert(s < 16 ==> ((((b >> s) as u32) << 16) | ((((((b as u32) << 16) >> (s as u32)) & 0xffff) as u16) as u32)
        == ((b as u32) << 16) >> (s as u32))) by (bit_vector);
    assert((((((b as u32) << 16) >> (s as u32)) & 0xffff) as u16) as u32 == (((b as u32) << 16) >> (
    s as u32)) & 0xffff) by (bit_vector);
    assert(s < 16 ==> (((b as u32) << 16) >> (s as u32)) & 0xffff == ((b as u32) << ((16 - s) as u32))
        & 0xffff) by (bit_vector);
}

/// A number as source operand goes into the operand itself exactly when
/// it is 0xffff or at most 30, and then with the identifier
/// `0x20 + (value + 1) mod 64` and without a next word. Every other
/// number, and every number as destination, takes a next word.
pub proof fn law_short_literal_is_inline(value: u16)
    ensures
        (value == 0xffff || value <= 0x1e) ==> literal_operand(value, true) == single(
            (0x20 + (value + 1) % 64) as u16,
        ),
        !(value == 0xffff || value <= 0x1e) ==> literal_operand(value, true) == with_word(
            0x1f,
            value,
        ),
        literal_operand(value, false) == with_word(0x1f, value),
{
}

/// Whether `tokens` are `opcode register , last`.
pub open spec fn is_register_line(tokens: Seq<Token>, opcode: usize, register: u16, last: TokenType) -> bool {
    &&& tokens.len() == 4
    &&& tokens[0].ttype == TokenType::BasicOpcode(opcode)
    &&& tokens[1].ttype == TokenType::Registry(register)
    &&& tokens[2].ttype == TokenType::Comma
    &&& tokens[3].ttype == last
}

/// An instruction whose source is a number that is 0xffff or at most 30
/// emits exactly one word.
pub proof fn law_short_literal_emits_one_word(
    line_no: usize,
    tokens: Seq<Token>,
    state: AsmState,
    opcode: usize,
    register: u16,
    value: u16,
)
    requires
        is_register_line(tokens, opcode, register, TokenType::NumericLiteral(value)),
        value == 0xffff || value <= 0x1e,
    ensures
        line_of(line_no, tokens, 0, state).error is None,
        line_of(line_no, tokens, 0, state).state == state.emit(
            instruction_word(opcode, literal_operand(value, true).operand, register),
        ),
        line_of(line_no, tokens, 0, state).state.pc == state.pc.wrapping_add(1),
{
}

/// An instruction whose source is a label emits exactly two words,
/// whether the label is defined or not and wherever it is.
pub proof fn law_label_emits_two_words(
    line_no: usize,
    tokens: Seq<Token>,
    state: AsmState,
    opcode: usize,
    register: u16,
    id: u16,
)
    requires
        state.well_formed(),
        is_register_line(tokens, opcode, register, TokenType::Label(id)),
    ensures
        line_of(line_no, tokens, 0, state).error is None,
        line_of(line_no, tokens, 0, state).state.pc == state.pc.wrapping_add(1).wrapping_add(1),
        line_of(line_no, tokens, 0, state).state.mem[state.pc as int] == instruction_word(
            opcode,
            0x1f,
            register,
        ),
{
}

/// The fields of an instruction word are the opcode and the operands
/// that it was made of.
pub proof fn lemma_instruction_word_fields(opcode: usize, a: u16, b: u16)
    requires
        opcode <= 0x1f,
        a <= 0x3f,
        b <= 0x1f,
    ensures
        opcode_of(instruction_word(opcode, a, b)) == opcode,
        a_field(instruction_word(opcode, a, b)) == a,
        b_field(instruction_word(opcode, a, b)) == b,
{
    let op = opcode as u16;
    let w = instruction_word(opcode, a, b);
    assert(w == (a * 1024 + b * 32 + op) as u16);
    assert(a <= 0x3f && b <= 0x1f && op <= 0x1f ==> ({
        let w = (a * 1024 + b * 32 + op) as u16;
        w & 0x1f == op && (w >> 5) & 0x1f == b && (w >> 10) & 0x3f == a
    })) by (bit_vector);
}

/// One if the operand takes a next word, else zero.
pub open spec fn next_words(operand: u16) -> int {
    if takes_next(operand as usize) {
        1
    } else {
        0
    }
}

/// An operand parsed from valid tokens has a next word exactly when its
/// identifier is one that takes a next word.
pub proof fn lemma_operand_has_word_iff_mode_takes_one(
    line_no: usize,
    tokens: Seq<Token>,
    cur: int,
    state: AsmState,
    lvalue: bool,
)
    requires
        0 <= cur,
        tokens_valid(tokens, state),
    ensures
        value_of(line_no, tokens, cur, state, lvalue) matches Ok(p) ==> (p.info.extra_byte is Some
            <==> takes_next(p.info.operand as usize)) && info_valid(p.info, state, lvalue) && cur
            < p.next <= tokens.len(),
{
    if cur < tokens.len() {
        assert(token_valid(tokens[cur], state));
        if tokens[cur].ttype == TokenType::LeftBracket {
            let at = cur + 1;
            if at < tokens.len() {
                assert(token_valid(tokens[at], state));
                if at + 2 < tokens.len() {
                    assert(token_valid(tokens[at + 2], state));
                }
            }
        }
    }
}

/// The words that the items of a `DAT` from token `cur` on emit: one
/// for a number, one for each character of a string literal.
pub open spec fn data_words(tokens: Seq<Token>, cur: int, first: bool, strings: Seq<Seq<char>>) -> int
    decreases tokens.len() - cur,
{
    if cur < 0 || cur >= tokens.len() {
        0
    } else if !first && tokens[cur].ttype != TokenType::Comma {
        0
    } else {
        let at = if first { cur } else { cur + 1 };
        if at >= tokens.len() {
            0
        } else {
            match tokens[at].ttype {
                TokenType::NumericLiteral(_) => 1 + data_words(tokens, at + 1, false, strings),
                TokenType::StringLiteral(id) => strings[id as int].len() + data_words(
                    tokens,
                    at + 1,
                    false,
                    strings,
                ),
                _ => 0,
            }
        }
    }
}

/// The count of the words of a `DAT` is not negative.
proof fn lemma_data_words_not_negative(tokens: Seq<Token>, cur: int, first: bool, strings: Seq<Seq<char>>)
    ensures
        data_words(tokens, cur, first, strings) >= 0,
    decreases tokens.len() - cur,
{
    if 0 <= cur < tokens.len() && (first || tokens[cur].ttype == TokenType::Comma) {
        let at = if first { cur } else { cur + 1 };
        if at < tokens.len() {
            lemma_data_words_not_negative(tokens, at + 1, false, strings);
        }
    }
}

/// The words that a line emits from token `cur` on, counted from the
/// operand modes: an instruction is one word and one more for each
/// operand whose mode takes a next word.
pub open spec fn line_words(line_no: usize, tokens: Seq<Token>, cur: int, state: AsmState) -> int
    decreases tokens.len() - cur,
{
    if cur < 0 || cur >= tokens.len() {
        0
    } else {
        match tokens[cur].ttype {
            TokenType::BasicOpcode(_) => match value_of(line_no, tokens, cur + 1, state, true) {
                Ok(b) => match value_of(line_no, tokens, b.next + 1, state, false) {
                    Ok(a) => 1 + next_words(a.info.operand) + next_words(b.info.operand),
                    Err(_) => 0,
                },
                Err(_) => 0,
            },
            TokenType::SpecialOpcode(_) => match value_of(line_no, tokens, cur + 1, state, false) {
                Ok(a) => 1 + next_words(a.info.operand),
                Err(_) => 0,
            },
            TokenType::DataOpcode => data_words(tokens, cur + 1, true, state.strings),
            TokenType::Colon => if cur + 1 >= tokens.len() {
                0
            } else {
                match tokens[cur + 1].ttype {
                    TokenType::Label(id) => line_words(
                        line_no,
                        tokens,
                        cur + 2,
                        define_label(state, id),
                    ),
                    _ => 0,
                }
            },
            _ => 0,
        }
    }
}

/// Emitting an operand moves `pc` by one if it has a next word, and
/// changes neither labels nor string literals.
proof fn lemma_emit_operand_moves(state: AsmState, info: ParsingInfo)
    ensures
        emit_operand(state, info).pc == wrap16(
            state.pc + if info.extra_byte is Some { 1int } else { 0int },
        ),
        emit_operand(state, info).labels == state.labels,
        emit_operand(state, info).strings == state.strings,
{
}

/// Emitting a text moves `pc` by the number of its characters.
proof fn lemma_emit_text_moves(state: AsmState, text: Seq<char>, k: int)
    requires
        0 <= k <= text.len(),
    ensures
        emit_text(state, text, k).pc == wrap16(state.pc + text.len() - k),
        emit_text(state, text, k).labels == state.labels,
        emit_text(state, text, k).strings == state.strings,
        emit_text(state, text, k).unresolved == state.unresolved,
    decreases text.len() - k,
{
    if k < text.len() {
        lemma_emit_text_moves(state.emit(crate::parser::char_word(text[k])), text, k + 1);
    }
}

/// Tokens that are valid for one state are valid for every state with
/// as many labels and string literals.
proof fn lemma_valid_for_same_tables(tokens: Seq<Token>, one: AsmState, other: AsmState)
    requires
        tokens_valid(tokens, one),
        one.labels.len() == other.labels.len(),
        one.strings.len() == other.strings.len(),
    ensures
        tokens_valid(tokens, other),
{
    assert forall|k: int| 0 <= k < tokens.len() implies token_valid(#[trigger] tokens[k], other) by {
        assert(token_valid(tokens[k], one));
    }
}

/// Moving on by `a` and then by `b`, each time going round at the end
/// of memory, is moving on by their sum.
proof fn lemma_wrap_twice(pc: u16, a: int, b: int)
    requires
        a >= 0,
        b >= 0,
    ensures
        wrap16(wrap16(pc + a) + b) == wrap16(pc + a + b),
{
    vstd::arithmetic::div_mod::lemma_add_mod_noop(pc + a, b, 0x10000);
    vstd::arithmetic::div_mod::lemma_small_mod((b % 0x10000) as nat, 0x10000);
    vstd::arithmetic::div_mod::lemma_mod_twice(pc + a, 0x10000);
    vstd::arithmetic::div_mod::lemma_add_mod_noop((pc + a) % 0x10000, b, 0x10000);
}

/// The items of a `DAT` that is without error move `pc` by the number
/// of words counted for them.
#[verifier::rlimit(50)]
proof fn lemma_data_items_move(
    line_no: usize,
    tokens: Seq<Token>,
    cur: int,
    first: bool,
    state: AsmState,
)
    requires
        0 <= cur,
        tokens_valid(tokens, state),
    ensures
        data_items(line_no, tokens, cur, first, state).error is None ==> data_items(
            line_no,
            tokens,
            cur,
            first,
            state,
        ).state.pc == wrap16(state.pc + data_words(tokens, cur, first, state.strings)),
        data_items(line_no, tokens, cur, first, state).state.labels == state.labels,
        data_items(line_no, tokens, cur, first, state).state.strings == state.strings,
        data_items(line_no, tokens, cur, first, state).state.unresolved == state.unresolved,
    decreases tokens.len() - cur,
{
    if cur < tokens.len() && (first || tokens[cur].ttype == TokenType::Comma) {
        let at = if first { cur } else { cur + 1 };
        if at < tokens.len() {
            assert(token_valid(tokens[at], state));
            lemma_data_words_not_negative(tokens, at + 1, false, state.strings);
            match tokens[at].ttype {
                TokenType::NumericLiteral(v) => {
                    let next = state.emit(v);
                    lemma_valid_for_same_tables(tokens, state, next);
                    lemma_data_items_move(line_no, tokens, at + 1, false, next);
                    lemma_wrap_twice(
                        state.pc,
                        1,
                        data_words(tokens, at + 1, false, state.strings),
                    );
                },
                TokenType::StringLiteral(id) => {
                    let text = state.strings[id as int];
                    let next = emit_text(state, text, 0);
                    lemma_emit_text_moves(state, text, 0);
                    lemma_valid_for_same_tables(tokens, state, next);
                    lemma_data_items_move(line_no, tokens, at + 1, false, next);
                    lemma_wrap_twice(
                        state.pc,
                        text.len() as int,
                        data_words(tokens, at + 1, false, state.strings),
                    );
                },
                _ => {},
            }
        }
    }
}

/// Binding a label keeps the tokens valid.
proof fn lemma_define_label_keeps(tokens: Seq<Token>, state: AsmState, id: u16)
    requires
        tokens_valid(tokens, state),
        unresolved_valid(state),
        id < state.labels.len(),
    ensures
        tokens_valid(tokens, define_label(state, id)),
        unresolved_valid(define_label(state, id)),
        define_label(state, id).pc == state.pc,
        define_label(state, id).strings == state.strings,
        define_label(state, id).labels.len() == state.labels.len(),
{
    assert forall|k: int| 0 <= k < tokens.len() implies token_valid(
        #[trigger] tokens[k],
        define_label(state, id),
    ) by {
        assert(token_valid(tokens[k], state));
    }
}

/// A line that is assembled without error moves `pc` by the number of
/// words counted from the operand modes of its instruction, or from
/// the items of its `DAT`; an instruction's word holds the modes that
/// the count was made from.
pub proof fn law_line_emits_counted_words(
    line_no: usize,
    tokens: Seq<Token>,
    cur: int,
    state: AsmState,
)
    requires
        0 <= cur,
        tokens_valid(tokens, state),
        unresolved_valid(state),
    ensures
        line_of(line_no, tokens, cur, state).error is None ==> line_of(
            line_no,
            tokens,
            cur,
            state,
        ).state.pc == wrap16(state.pc + line_words(line_no, tokens, cur, state)),
        unresolved_valid(line_of(line_no, tokens, cur, state).state),
        line_of(line_no, tokens, cur, state).state.labels.len() == state.labels.len(),
        line_of(line_no, tokens, cur, state).state.strings == state.strings,
    decreases tokens.len() - cur,
{
    if cur < tokens.len() {
        assert(token_valid(tokens[cur], state));
        match tokens[cur].ttype {
            TokenType::BasicOpcode(opcode) => {
                lemma_operand_has_word_iff_mode_takes_one(line_no, tokens, cur + 1, state, true);
                match value_of(line_no, tokens, cur + 1, state, true) {
                    Ok(b) => {
                        lemma_operand_has_word_iff_mode_takes_one(
                            line_no,
                            tokens,
                            b.next + 1,
                            state,
                            false,
                        );
                        match value_of(line_no, tokens, b.next + 1, state, false) {
                            Ok(a) => {
                                let word = instruction_word(
                                    opcode,
                                    a.info.operand,
                                    b.info.operand,
                                );
                                let s1 = state.emit(word);
                                lemma_emit_operand_moves(s1, a.info);
                                lemma_emit_operand_moves(emit_operand(s1, a.info), b.info);
                            },
                            Err(_) => {},
                        }
                    },
                    Err(_) => {},
                }
            },
            TokenType::SpecialOpcode(opcode) => {
                lemma_operand_has_word_iff_mode_takes_one(line_no, tokens, cur + 1, state, false);
                match value_of(line_no, tokens, cur + 1, state, false) {
                    Ok(a) => {
                        let word = instruction_word(0, a.info.operand, opcode as u16);
                        lemma_emit_operand_moves(state.emit(word), a.info);
                    },
                    Err(_) => {},
                }
            },
            TokenType::DataOpcode => {
                lemma_data_items_move(line_no, tokens, cur + 1, true, state);
            },
            TokenType::Colon => {
                if cur + 1 < tokens.len() {
                    assert(token_valid(tokens[cur + 1], state));
                    match tokens[cur + 1].ttype {
                        TokenType::Label(id) => {
                            lemma_define_label_keeps(tokens, state, id);
                            law_line_emits_counted_words(
                                line_no,
                                tokens,
                                cur + 2,
                                define_label(state, id),
                            );
                        },
                        _ => {},
                    }
                }
            },
            _ => {},
        }
    }
}

/// A basic instruction that is assembled without error emits as many
/// words as the machine finds in it when it reads the modes of its two
/// operands back from the instruction word.
pub proof fn law_instruction_has_the_length_of_its_modes(
    line_no: usize,
    tokens: Seq<Token>,
    cur: int,
    state: AsmState,
)
    requires
        state.well_formed(),
        0 <= cur < tokens.len(),
        tokens[cur].ttype is BasicOpcode,
        tokens_valid(tokens, state),
        basic_instruction(line_no, tokens, cur, state).error is None,
    ensures
        basic_instruction(line_no, tokens, cur, state).state.pc == wrap16(
            state.pc + instruction_length(
                basic_instruction(line_no, tokens, cur, state).state.mem[state.pc as int],
            ),
        ),
{
    assert(token_valid(tokens[cur], state));
    lemma_operand_has_word_iff_mode_takes_one(line_no, tokens, cur + 1, state, true);
    let b = value_of(line_no, tokens, cur + 1, state, true)->Ok_0;
    lemma_operand_has_word_iff_mode_takes_one(line_no, tokens, b.next + 1, state, false);
    let a = value_of(line_no, tokens, b.next + 1, state, false)->Ok_0;
    let opcode = tokens[cur].ttype->BasicOpcode_0;
    lemma_instruction_word_fields(opcode, a.info.operand, b.info.operand);
    let word = instruction_word(opcode, a.info.operand, b.info.operand);
    let s1 = state.emit(word);
    lemma_emit_operand_moves(s1, a.info);
    lemma_emit_operand_moves(emit_operand(s1, a.info), b.info);
}

/// A label that is found is in the table.
proof fn lemma_found_label_is_in_table(state: AsmState, name: Seq<char>, from: int)
    requires
        0 <= from,
    ensures
        state.find_label_from(name, from) matches Some(id) ==> from <= id < state.labels.len(),
    decreases state.labels.len() - from,
{
    if from < state.labels.len() && state.labels[from].name != name {
        lemma_found_label_is_in_table(state, name, from + 1);
    }
}

/// A token that the tokenizer finds is valid for the tables as it
/// leaves them, and the tables have at most grown.
proof fn lemma_scanned_token_is_valid(line_no: usize, line: Seq<char>, i: int, state: AsmState)
    ensures
        scan(line_no, line, i, state) matches Scan::Found { token, next, state: after }
            ==> token_valid(token, after) && grown(state, after),
{
    if 0 <= i < line.len() {
        let end = crate::lexer::word_end(line, i);
        lemma_found_label_is_in_table(state, line.subrange(i, end), 0);
    }
}

/// Tokens stay valid when the tables grow.
proof fn lemma_valid_after_growth(tokens: Seq<Token>, before: AsmState, after: AsmState)
    requires
        tokens_valid(tokens, before),
        grown(before, after),
    ensures
        tokens_valid(tokens, after),
{
    assert forall|k: int| 0 <= k < tokens.len() implies token_valid(#[trigger] tokens[k], after) by {
        assert(token_valid(tokens[k], before));
    }
}

/// The tokens of a line are valid for the tables as the tokenizer
/// leaves them, and the tables have at most grown.
proof fn lemma_tokens_are_valid(
    line_no: usize,
    line: Seq<char>,
    i: int,
    found: Seq<Token>,
    state: AsmState,
)
    requires
        tokens_valid(found, state),
    ensures
        grown(state, tokens_from(line_no, line, i, found, state).state),
        tokens_from(line_no, line, i, found, state).result matches Ok(tokens) ==> tokens_valid(
            tokens,
            tokens_from(line_no, line, i, found, state).state,
        ),
    decreases line.len() - i,
{
    if 0 <= i < line.len() {
        lemma_scanned_token_is_valid(line_no, line, i, state);
        match scan(line_no, line, i, state) {
            Scan::Blank { next } => {
                if i < next {
                    lemma_tokens_are_valid(line_no, line, next, found, state);
                }
            },
            Scan::Found { token, next, state: after } => {
                lemma_valid_after_growth(found, state, after);
                let more = found.push(token);
                assert forall|k: int| 0 <= k < more.len() implies token_valid(
                    #[trigger] more[k],
                    after,
                ) by {
                    if k < found.len() {
                        assert(more[k] == found[k]);
                        assert(token_valid(found[k], after));
                    }
                }
                if i < next <= line.len() {
                    lemma_tokens_are_valid(line_no, line, next, more, after);
                }
            },
            _ => {},
        }
    }
}

/// The count of the words of a line is not negative.
proof fn lemma_line_words_not_negative(line_no: usize, tokens: Seq<Token>, cur: int, state: AsmState)
    ensures
        line_words(line_no, tokens, cur, state) >= 0,
    decreases tokens.len() - cur,
{
    if 0 <= cur < tokens.len() {
        match tokens[cur].ttype {
            TokenType::DataOpcode => {
                lemma_data_words_not_negative(tokens, cur + 1, true, state.strings);
            },
            TokenType::Colon => {
                if cur + 1 < tokens.len() {
                    match tokens[cur + 1].ttype {
                        TokenType::Label(id) => {
                            lemma_line_words_not_negative(
                                line_no,
                                tokens,
                                cur + 2,
                                define_label(state, id),
                            );
                        },
                        _ => {},
                    }
                }
            },
            _ => {},
        }
    }
}

/// The words that the lines from line `k` on emit, line by line, as
/// long as the lines are without error.
pub open spec fn program_words(lines: Seq<Seq<char>>, k: int, state: AsmState) -> int
    decreases lines.len() - k,
{
    if k < 0 || k >= lines.len() {
        0
    } else if lines[k].len() == 0 {
        program_words(lines, k + 1, state)
    } else {
        let lexed = tokens_of(k as usize, lines[k], state);
        match lexed.result {
            Err(_) => 0,
            Ok(tokens) => {
                let line = line_of(k as usize, tokens, 0, lexed.state);
                if line.error is Some {
                    0
                } else {
                    line_words(k as usize, tokens, 0, lexed.state) + program_words(
                        lines,
                        k + 1,
                        line.state,
                    )
                }
            },
        }
    }
}

/// The first pass, where it is without error, moves `pc` by the words
/// counted line by line.
proof fn lemma_first_pass_moves(lines: Seq<Seq<char>>, k: int, state: AsmState)
    requires
        0 <= k,
        unresolved_valid(state),
    ensures
        program_words(lines, k, state) >= 0,
        first_pass(lines, k, state).error is None ==> first_pass(lines, k, state).state.pc
            == wrap16(state.pc + program_words(lines, k, state)),
    decreases lines.len() - k,
{
    if k < lines.len() {
        if lines[k].len() == 0 {
            lemma_first_pass_moves(lines, k + 1, state);
        } else {
            let lexed = tokens_of(k as usize, lines[k], state);
            lemma_tokens_are_valid(k as usize, lines[k], 0, Seq::empty(), state);
            match lexed.result {
                Err(_) => {},
                Ok(tokens) => {
                    let line = line_of(k as usize, tokens, 0, lexed.state);
                    law_line_emits_counted_words(k as usize, tokens, 0, lexed.state);
                    lemma_line_words_not_negative(k as usize, tokens, 0, lexed.state);
                    if line.error is None {
                        lemma_first_pass_moves(lines, k + 1, line.state);
                        lemma_wrap_twice(
                            state.pc,
                            line_words(k as usize, tokens, 0, lexed.state),
                            program_words(lines, k + 1, line.state),
                        );
                    }
                },
            }
        }
    }
}

/// The second pass leaves `pc` where it is.
proof fn lemma_second_pass_keeps_pc(state: AsmState, k: int)
    ensures
        second_pass(state, k).state.pc == state.pc,
    decreases state.unresolved.len() - k,
{
    if 0 <= k < state.unresolved.len() {
        let entry = state.unresolved[k];
        match state.label_addr(entry.label) {
            Some(addr) => {
                lemma_second_pass_keeps_pc(
                    AsmState {
                        mem: state.mem.update(entry.addr as int, entry.offset.wrapping_add(addr)),
                        ..state
                    },
                    k + 1,
                );
            },
            None => {},
        }
    }
}

/// A program that is assembled without error has emitted as many words,
/// modulo 2^16, as its lines count together: for each instruction one
/// word and one more for each operand whose mode takes a next word, and
/// for each `DAT` the words of its items.
pub proof fn law_program_emits_counted_words(lines: Seq<Seq<char>>, state: AsmState)
    requires
        unresolved_valid(state),
    ensures
        assemble(lines, state).error is None ==> assemble(lines, state).state.pc == wrap16(
            program_words(lines, 0, AsmState { pc: 0, ..state }),
        ),
{
    let start = AsmState { pc: 0, ..state };
    lemma_first_pass_moves(lines, 0, start);
    lemma_second_pass_keeps_pc(first_pass(lines, 0, start).state, 0);
}

/// The result of an assembly depends on nothing but the lines and the
/// state it starts from: it is the value of one function of the two.
pub proof fn law_assembly_is_a_function(lines: Seq<Seq<char>>, other: Seq<Seq<char>>, state: AsmState)
    requires
        lines =~~= other,
    ensures
        assemble(lines, state) == assemble(other, state),
{
}

} // verus!
