//! The parser: the tokens of a line to the words they emit.

use vstd::prelude::*;
use crate::assembler::{
    AsmState, LabelModel, PCPU, ParsingError, ParsingErrorType, Token, TokenType, UnassignedLabel,
};
use crate::lexer::{token_valid, tokenize, tokens_of, tokens_valid};

verus! {

/// How an operand is encoded: its six-bit identifier, the word that
/// follows the instruction for it, if any, and, where that word waits
/// for a label (`unassigned`), the label's identifier in `extra_byte`
/// and the offset to add to the label's address.
#[derive(Clone, Copy, PartialEq, Eq, Structural, Debug)]
pub struct ParsingInfo {
    pub operand: u16,
    pub extra_byte: Option<u16>,
    pub unassigned: bool,
    pub offset: u16,
}

/// An operand without a next word.
pub open spec fn single(operand: u16) -> ParsingInfo {
    ParsingInfo { operand, extra_byte: None, unassigned: false, offset: 0 }
}

/// An operand with a next word that is known.
pub open spec fn with_word(operand: u16, extra: u16) -> ParsingInfo {
    ParsingInfo { operand, extra_byte: Some(extra), unassigned: false, offset: 0 }
}

impl ParsingInfo {
    pub fn new() -> (r: ParsingInfo)
        ensures
            r == single(0),
    {
        ParsingInfo { operand: 0, extra_byte: None, unassigned: false, offset: 0 }
    }

    pub fn new_single(operand: u16) -> (r: ParsingInfo)
        ensures
            r == single(operand),
    {
        ParsingInfo { operand, extra_byte: None, unassigned: false, offset: 0 }
    }

    pub fn new_extra(operand: u16, extra: u16) -> (r: ParsingInfo)
        ensures
            r == with_word(operand, extra),
    {
        ParsingInfo { operand, extra_byte: Some(extra), unassigned: false, offset: 0 }
    }
}

/// Every word that waits for a label names a label of the table.
pub open spec fn unresolved_valid(state: AsmState) -> bool {
    forall|k: int|
        0 <= k < state.unresolved.len() ==> (#[trigger] state.unresolved[k]).label
            < state.labels.len()
}

/// The error `etype` at token `cur`.
pub open spec fn error_on(line_no: usize, tokens: Seq<Token>, cur: int, etype: ParsingErrorType) -> ParsingError {
    ParsingError { line: line_no, col: tokens[cur].col, len: tokens[cur].len, global: false, etype }
}

/// The error for a line that ends too early: it points at the last token.
pub open spec fn end_of_tokens(line_no: usize, tokens: Seq<Token>) -> ParsingError {
    error_on(line_no, tokens, tokens.len() - 1, ParsingErrorType::EndOfTokens)
}

/// The encoding of the number `value`. In the `a` position
/// (`allow_inline`) the values 0xffff and 0 to 30 go into the operand
/// itself; everything else takes a next word.
pub open spec fn literal_operand(value: u16, allow_inline: bool) -> ParsingInfo {
    if allow_inline && value == 0xffff {
        single(0x20)
    } else if allow_inline && value <= 0x1e {
        single((value + 0x21) as u16)
    } else {
        with_word(0x1f, value)
    }
}

/// The encoding of an operand whose next word is the address of label
/// `id` plus `offset`: the address itself if the label is defined,
/// else the label's identifier as a placeholder, to be patched.
pub open spec fn label_operand(state: AsmState, operand: u16, id: u16, offset: u16) -> ParsingInfo {
    match state.label_addr(id) {
        Some(addr) => with_word(operand, addr.wrapping_add(offset)),
        None => ParsingInfo { operand, extra_byte: Some(id), unassigned: true, offset },
    }
}

/// What can stand between brackets.
#[derive(Clone, Copy, PartialEq, Eq, Structural, Debug)]
pub enum Term {
    Register(u16),
    Number(u16),
    Name(u16),
}

pub open spec fn term_of(ttype: TokenType) -> Option<Term> {
    match ttype {
        TokenType::Registry(r) => Some(Term::Register(r)),
        TokenType::NumericLiteral(v) => Some(Term::Number(v)),
        TokenType::Label(id) => Some(Term::Name(id)),
        _ => None,
    }
}

/// Whether `second` may be added to `first`: the two are of different
/// kinds, and a register, a number and a label are the three kinds.
pub open spec fn may_follow(first: Term, second: Term) -> bool {
    match (first, second) {
        (Term::Register(_), Term::Register(_)) => false,
        (Term::Number(_), Term::Number(_)) => false,
        (Term::Name(_), Term::Name(_)) => false,
        _ => true,
    }
}

pub open spec fn register_in(first: Term, second: Option<Term>) -> Option<u16> {
    match (first, second) {
        (Term::Register(r), _) => Some(r),
        (_, Some(Term::Register(r))) => Some(r),
        _ => None,
    }
}

pub open spec fn number_in(first: Term, second: Option<Term>) -> Option<u16> {
    match (first, second) {
        (Term::Number(v), _) => Some(v),
        (_, Some(Term::Number(v))) => Some(v),
        _ => None,
    }
}

pub open spec fn name_in(first: Term, second: Option<Term>) -> Option<u16> {
    match (first, second) {
        (Term::Name(id), _) => Some(id),
        (_, Some(Term::Name(id))) => Some(id),
        _ => None,
    }
}

/// The encoding of `[first]` or `[first + second]`. A register alone is
/// `0x08 + r`; a register with a number or a label is `0x10 + r` with
/// that as next word; without a register the operand is `0x1e` and the
/// next word is the number, the label's address or their sum.
pub open spec fn address_operand(state: AsmState, first: Term, second: Option<Term>) -> ParsingInfo {
    let number: u16 = match number_in(first, second) {
        Some(v) => v,
        None => 0,
    };
    match register_in(first, second) {
        Some(r) => match name_in(first, second) {
            Some(id) => label_operand(state, (0x10 + r) as u16, id, 0),
            None => match second {
                Some(_) => with_word((0x10 + r) as u16, number),
                None => single((0x08 + r) as u16),
            },
        },
        None => match name_in(first, second) {
            Some(id) => label_operand(state, 0x1e, id, number),
            None => with_word(0x1e, number),
        },
    }
}

/// A parsed operand and the index of the token after it.
pub struct Parsed {
    pub info: ParsingInfo,
    pub next: int,
}

/// The operand between brackets whose first term is token `cur`.
pub open spec fn address_of(line_no: usize, tokens: Seq<Token>, cur: int, state: AsmState) -> Result<
    Parsed,
    ParsingError,
> {
    if cur >= tokens.len() {
        Err(end_of_tokens(line_no, tokens))
    } else {
        match term_of(tokens[cur].ttype) {
            None => Err(error_on(line_no, tokens, cur, ParsingErrorType::ExpectingLiteral)),
            Some(first) => if cur + 1 >= tokens.len() {
                Err(end_of_tokens(line_no, tokens))
            } else if tokens[cur + 1].ttype == TokenType::RightBracket {
                Ok(Parsed { info: address_operand(state, first, None), next: cur + 2 })
            } else if tokens[cur + 1].ttype == TokenType::Addition {
                if cur + 2 >= tokens.len() {
                    Err(end_of_tokens(line_no, tokens))
                } else {
                    match term_of(tokens[cur + 2].ttype) {
                        Some(second) => if !may_follow(first, second) {
                            Err(
                                error_on(
                                    line_no,
                                    tokens,
                                    cur + 2,
                                    ParsingErrorType::ExpectingLiteral,
                                ),
                            )
                        } else if cur + 3 >= tokens.len() {
                            Err(end_of_tokens(line_no, tokens))
                        } else if tokens[cur + 3].ttype == TokenType::RightBracket {
                            Ok(
                                Parsed {
                                    info: address_operand(state, first, Some(second)),
                                    next: cur + 4,
                                },
                            )
                        } else {
                            Err(
                                error_on(
                                    line_no,
                                    tokens,
                                    cur + 3,
                                    ParsingErrorType::ExpectingRightBracket,
                                ),
                            )
                        },
                        None => Err(
                            error_on(line_no, tokens, cur + 2, ParsingErrorType::ExpectingLiteral),
                        ),
                    }
                }
            } else {
                Err(error_on(line_no, tokens, cur + 1, ParsingErrorType::ExpectingRightBracket))
            },
        }
    }
}

/// The operand that starts at token `cur`, as destination (`lvalue`,
/// the `b` position) or as source (the `a` position).
///
/// A number is encoded by `literal_operand`, inline only as a source. A
/// label always takes a next word. `PUSH` stands only as destination,
/// `POP` only as source.
pub open spec fn value_of(
    line_no: usize,
    tokens: Seq<Token>,
    cur: int,
    state: AsmState,
    lvalue: bool,
) -> Result<Parsed, ParsingError> {
    if cur >= tokens.len() {
        Err(end_of_tokens(line_no, tokens))
    } else {
        match tokens[cur].ttype {
            TokenType::NumericLiteral(v) => Ok(
                Parsed { info: literal_operand(v, !lvalue), next: cur + 1 },
            ),
            TokenType::Label(id) => Ok(
                Parsed { info: label_operand(state, 0x1f, id, 0), next: cur + 1 },
            ),
            TokenType::Registry(r) => Ok(Parsed { info: single(r), next: cur + 1 }),
            TokenType::Pick => if cur + 1 >= tokens.len() {
                Err(end_of_tokens(line_no, tokens))
            } else {
                match tokens[cur + 1].ttype {
                    TokenType::NumericLiteral(v) => Ok(
                        Parsed { info: with_word(0x1a, v), next: cur + 2 },
                    ),
                    _ => Err(
                        error_on(line_no, tokens, cur + 1, ParsingErrorType::ExpectingLiteral),
                    ),
                }
            },
            TokenType::Peek => Ok(Parsed { info: single(0x19), next: cur + 1 }),
            TokenType::Push => if lvalue {
                Ok(Parsed { info: single(0x18), next: cur + 1 })
            } else {
                Err(error_on(line_no, tokens, cur, ParsingErrorType::IncorrectPushPop))
            },
            TokenType::Pop => if !lvalue {
                Ok(Parsed { info: single(0x18), next: cur + 1 })
            } else {
                Err(error_on(line_no, tokens, cur, ParsingErrorType::IncorrectPushPop))
            },
            TokenType::SP => Ok(Parsed { info: single(0x1b), next: cur + 1 }),
            TokenType::PC => Ok(Parsed { info: single(0x1c), next: cur + 1 }),
            TokenType::EX => Ok(Parsed { info: single(0x1d), next: cur + 1 }),
            TokenType::LeftBracket => address_of(line_no, tokens, cur + 1, state),
            _ => Err(error_on(line_no, tokens, cur, ParsingErrorType::ExpectingOperand)),
        }
    }
}

/// The comma that must stand at token `cur`.
pub open spec fn comma_at(line_no: usize, tokens: Seq<Token>, cur: int) -> Option<ParsingError> {
    if cur >= tokens.len() {
        Some(end_of_tokens(line_no, tokens))
    } else if tokens[cur].ttype == TokenType::Comma {
        None
    } else {
        Some(error_on(line_no, tokens, cur, ParsingErrorType::ExpectingComma))
    }
}

/// The error for tokens left over from `cur` on: it spans from token
/// `cur` to the end of the last token.
pub open spec fn extra_tokens(line_no: usize, tokens: Seq<Token>, cur: int) -> ParsingError {
    ParsingError {
        line: line_no,
        col: tokens[cur].col,
        len: tokens.last().col.saturating_sub(tokens[cur].col).saturating_add(tokens.last().len),
        global: false,
        etype: ParsingErrorType::ExtraTokens,
    }
}

/// The state after the next word of an operand, if it has one, has been
/// emitted, and recorded for patching where it waits for a label.
pub open spec fn emit_operand(state: AsmState, info: ParsingInfo) -> AsmState {
    match info.extra_byte {
        Some(word) => if info.unassigned {
            AsmState {
                unresolved: state.unresolved.push(
                    UnassignedLabel { addr: state.pc, label: word, offset: info.offset },
                ),
                ..state
            }.emit(word)
        } else {
            state.emit(word)
        },
        None => state,
    }
}

/// The instruction word `aaaaaabbbbbooooo`.
pub open spec fn instruction_word(opcode: usize, a: u16, b: u16) -> u16 {
    (a * 1024 + b * 32 + opcode) as u16
}

/// The outcome of a line or of a program: the state afterwards, with
/// what was emitted before an error, and the error if there was one.
pub struct Assembled {
    pub state: AsmState,
    pub error: Option<ParsingError>,
}

pub open spec fn failed(state: AsmState, error: ParsingError) -> Assembled {
    Assembled { state, error: Some(error) }
}

pub open spec fn done(state: AsmState) -> Assembled {
    Assembled { state, error: None }
}

/// The basic instruction whose opcode is token `cur`: `b`, a comma, `a`
/// and nothing more. It emits the instruction word, then the next word
/// of `a`, then that of `b`. A line with an error emits nothing.
pub open spec fn basic_instruction(
    line_no: usize,
    tokens: Seq<Token>,
    cur: int,
    state: AsmState,
) -> Assembled {
    match tokens[cur].ttype {
        TokenType::BasicOpcode(opcode) => match value_of(line_no, tokens, cur + 1, state, true) {
            Err(e) => failed(state, e),
            Ok(b) => match comma_at(line_no, tokens, b.next) {
                Some(e) => failed(state, e),
                None => match value_of(line_no, tokens, b.next + 1, state, false) {
                    Err(e) => failed(state, e),
                    Ok(a) => if a.next < tokens.len() {
                        failed(state, extra_tokens(line_no, tokens, a.next))
                    } else {
                        done(
                            emit_operand(
                                emit_operand(
                                    state.emit(
                                        instruction_word(opcode, a.info.operand, b.info.operand),
                                    ),
                                    a.info,
                                ),
                                b.info,
                            ),
                        )
                    },
                },
            },
        },
        _ => done(state),
    }
}

/// The special instruction whose opcode is token `cur`: `a` and nothing
/// more. The opcode stands in the `b` field.
pub open spec fn special_instruction(
    line_no: usize,
    tokens: Seq<Token>,
    cur: int,
    state: AsmState,
) -> Assembled {
    match tokens[cur].ttype {
        TokenType::SpecialOpcode(opcode) => match value_of(line_no, tokens, cur + 1, state, false) {
            Err(e) => failed(state, e),
            Ok(a) => if a.next < tokens.len() {
                failed(state, extra_tokens(line_no, tokens, a.next))
            } else {
                done(
                    emit_operand(
                        state.emit(instruction_word(0, a.info.operand, opcode as u16)),
                        a.info,
                    ),
                )
            },
        },
        _ => done(state),
    }
}

/// The word of a character of a string literal: its low sixteen bits.
pub open spec fn char_word(c: char) -> u16 {
    ((c as u32) & 0xffff) as u16
}

/// The characters of `text` from index `k` on, emitted one word each.
pub open spec fn emit_text(state: AsmState, text: Seq<char>, k: int) -> AsmState
    decreases text.len() - k,
{
    if k < 0 || k >= text.len() {
        state
    } else {
        emit_text(state.emit(char_word(text[k])), text, k + 1)
    }
}

/// The items of a `DAT` from token `cur` on; `first` says that no item
/// has been read yet, so that no comma is due. Each item is emitted as
/// soon as it is read, so items before an error stay emitted.
pub open spec fn data_items(
    line_no: usize,
    tokens: Seq<Token>,
    cur: int,
    first: bool,
    state: AsmState,
) -> Assembled
    decreases tokens.len() - cur,
{
    if cur < 0 || cur >= tokens.len() {
        done(state)
    } else if !first && tokens[cur].ttype != TokenType::Comma {
        failed(state, error_on(line_no, tokens, cur, ParsingErrorType::ExpectingComma))
    } else {
        let at = if first { cur } else { cur + 1 };
        if at >= tokens.len() {
            failed(state, end_of_tokens(line_no, tokens))
        } else {
            match tokens[at].ttype {
                TokenType::NumericLiteral(v) => data_items(
                    line_no,
                    tokens,
                    at + 1,
                    false,
                    state.emit(v),
                ),
                TokenType::StringLiteral(id) => data_items(
                    line_no,
                    tokens,
                    at + 1,
                    false,
                    emit_text(state, state.strings[id as int], 0),
                ),
                _ => failed(
                    state,
                    error_on(line_no, tokens, at, ParsingErrorType::ExpectingLiteral),
                ),
            }
        }
    }
}

/// Label `id` bound to the current address, unless it is bound already.
pub open spec fn define_label(state: AsmState, id: u16) -> AsmState {
    let entry = state.labels[id as int];
    if entry.addr is Some {
        state
    } else {
        AsmState {
            labels: state.labels.update(
                id as int,
                LabelModel { addr: Some(state.pc), ..entry },
            ),
            ..state
        }
    }
}

/// The line from token `cur` on: nothing, or label definitions
/// `: name` followed by nothing or by one instruction or `DAT`.
pub open spec fn line_of(line_no: usize, tokens: Seq<Token>, cur: int, state: AsmState) -> Assembled
    decreases tokens.len() - cur,
{
    if cur < 0 || cur >= tokens.len() {
        done(state)
    } else {
        match tokens[cur].ttype {
            TokenType::BasicOpcode(_) => basic_instruction(line_no, tokens, cur, state),
            TokenType::SpecialOpcode(_) => special_instruction(line_no, tokens, cur, state),
            TokenType::DataOpcode => data_items(line_no, tokens, cur + 1, true, state),
            TokenType::Colon => if cur + 1 >= tokens.len() {
                failed(state, end_of_tokens(line_no, tokens))
            } else {
                match tokens[cur + 1].ttype {
                    TokenType::Label(id) => line_of(
                        line_no,
                        tokens,
                        cur + 2,
                        define_label(state, id),
                    ),
                    _ => failed(
                        state,
                        error_on(line_no, tokens, cur + 1, ParsingErrorType::ExpectingLabel),
                    ),
                }
            },
            _ => failed(
                state,
                error_on(line_no, tokens, cur, ParsingErrorType::IllegalLineStart),
            ),
        }
    }
}

/// One line tokenized and parsed.
pub open spec fn line_step(line_no: usize, line: Seq<char>, state: AsmState) -> Assembled {
    let lexed = tokens_of(line_no, line, state);
    match lexed.result {
        Err(e) => failed(lexed.state, e),
        Ok(tokens) => line_of(line_no, tokens, 0, lexed.state),
    }
}

/// The first pass over the lines from line `k` on. Empty lines are
/// passed over; the first error ends the pass.
pub open spec fn first_pass(lines: Seq<Seq<char>>, k: int, state: AsmState) -> Assembled
    decreases lines.len() - k,
{
    if k < 0 || k >= lines.len() {
        done(state)
    } else if lines[k].len() == 0 {
        first_pass(lines, k + 1, state)
    } else {
        let line = line_step(k as usize, lines[k], state);
        if line.error is Some {
            line
        } else {
            first_pass(lines, k + 1, line.state)
        }
    }
}

/// The error for a label that was used and never defined: it points at
/// the place where the label was first seen.
pub open spec fn unknown_label(state: AsmState, id: u16) -> ParsingError {
    let entry = state.labels[id as int];
    ParsingError {
        line: entry.line,
        col: entry.col,
        len: entry.len,
        global: false,
        etype: ParsingErrorType::UnknownLabel(id),
    }
}

/// The second pass over the words that wait for a label, from entry `k`
/// on: each gets the label's address plus its offset, modulo 2^16. The
/// first entry whose label is not defined ends the pass.
pub open spec fn second_pass(state: AsmState, k: int) -> Assembled
    decreases state.unresolved.len() - k,
{
    if k < 0 || k >= state.unresolved.len() {
        done(state)
    } else {
        let entry = state.unresolved[k];
        match state.label_addr(entry.label) {
            Some(addr) => second_pass(
                AsmState {
                    mem: state.mem.update(entry.addr as int, entry.offset.wrapping_add(addr)),
                    ..state
                },
                k + 1,
            ),
            None => failed(state, unknown_label(state, entry.label)),
        }
    }
}

/// The assembly of `lines` from `state`: emission starts at address
/// zero; after a first pass without error comes the second pass.
pub open spec fn assemble(lines: Seq<Seq<char>>, state: AsmState) -> Assembled {
    let first = first_pass(lines, 0, AsmState { pc: 0, ..state });
    if first.error is Some {
        first
    } else {
        second_pass(first.state, 0)
    }
}

/// The lines as sequences of characters.
pub open spec fn lines_view(lines: Seq<String>) -> Seq<Seq<char>> {
    Seq::new(lines.len(), |i: int| lines[i]@)
}

/// The type of token `cur`, or the error for a line that ends too early.
pub fn get_token_type(line_no: usize, tokens: &Vec<Token>, cur: usize) -> (r: Result<
    TokenType,
    ParsingError,
>)
    requires
        tokens.len() > 0,
    ensures
        r == if cur >= tokens.len() {
            Err::<TokenType, ParsingError>(end_of_tokens(line_no, tokens@))
        } else {
            Ok(tokens@[cur as int].ttype)
        },
{
    if cur >= tokens.len() {
        let last = tokens.len() - 1;
        return Err(
            ParsingError {
                line: line_no,
                col: tokens[last].col,
                len: tokens[last].len,
                global: false,
                etype: ParsingErrorType::EndOfTokens,
            },
        );
    }
    Ok(tokens[cur].ttype)
}

/// The error `etype` at token `cur`.
fn error_here(line_no: usize, tokens: &Vec<Token>, cur: usize, etype: ParsingErrorType) -> (e:
    ParsingError)
    requires
        cur < tokens.len(),
    ensures
        e == error_on(line_no, tokens@, cur as int, etype),
{
    ParsingError { line: line_no, col: tokens[cur].col, len: tokens[cur].len, global: false, etype }
}

/// Encodes the number `value`, inline where that is allowed and possible.
pub fn process_value(value: u16, allow_inline: bool) -> (r: Result<ParsingInfo, ParsingError>)
    ensures
        r == Ok::<ParsingInfo, ParsingError>(literal_operand(value, allow_inline)),
{
    let info = if value == 0xffff && allow_inline {
        ParsingInfo::new_single(0x20)
    } else if value <= 0x1e && allow_inline {
        ParsingInfo::new_single(value + 0x21)
    } else {
        ParsingInfo::new_extra(0x1f, value)
    };
    Ok(info)
}

/// Encodes an operand whose next word is a label's address plus `offset`.
fn label_info(cpu: &PCPU, operand: u16, id: u16, offset: u16) -> (r: ParsingInfo)
    ensures
        r == label_operand(cpu@, operand, id, offset),
{
    if (id as usize) < cpu.labels.len() {
        match cpu.labels[id as usize].addr {
            Some(addr) => {
                return ParsingInfo::new_extra(operand, addr.wrapping_add(offset));
            },
            None => {},
        }
    }
    ParsingInfo { operand, extra_byte: Some(id), unassigned: true, offset }
}

fn term(ttype: TokenType) -> (r: Option<Term>)
    ensures
        r == term_of(ttype),
{
    match ttype {
        TokenType::Registry(r) => Some(Term::Register(r)),
        TokenType::NumericLiteral(v) => Some(Term::Number(v)),
        TokenType::Label(id) => Some(Term::Name(id)),
        _ => None,
    }
}

/// Whether an operand is one that valid tokens give: its identifier
/// fits its position, and a word that waits for a label names a label
/// of the table.
pub open spec fn info_valid(info: ParsingInfo, state: AsmState, lvalue: bool) -> bool {
    &&& info.operand <= 0x3f
    &&& lvalue ==> info.operand <= 0x1f
    &&& info.unassigned ==> info.extra_byte is Some && info.extra_byte->0 < state.labels.len()
}

/// Encodes `[first]` or `[first + second]`.
fn address_info(cpu: &PCPU, first: Term, second: Option<Term>) -> (r: ParsingInfo)
    requires
        first matches Term::Register(r) ==> r < 8,
        second matches Some(Term::Register(r)) ==> r < 8,
        first matches Term::Name(id) ==> id < cpu@.labels.len(),
        second matches Some(Term::Name(id)) ==> id < cpu@.labels.len(),
    ensures
        r == address_operand(cpu@, first, second),
        info_valid(r, cpu@, true),
{
    let register: Option<u16> = match (first, second) {
        (Term::Register(r), _) => Some(r),
        (_, Some(Term::Register(r))) => Some(r),
        _ => None,
    };
    let number: u16 = match (first, second) {
        (Term::Number(v), _) => v,
        (_, Some(Term::Number(v))) => v,
        _ => 0,
    };
    let name: Option<u16> = match (first, second) {
        (Term::Name(id), _) => Some(id),
        (_, Some(Term::Name(id))) => Some(id),
        _ => None,
    };
    match register {
        Some(r) => match name {
            Some(id) => label_info(cpu, 0x10 + r, id, 0),
            None => match second {
                Some(_) => ParsingInfo::new_extra(0x10 + r, number),
                None => ParsingInfo::new_single(0x08 + r),
            },
        },
        None => match name {
            Some(id) => label_info(cpu, 0x1e, id, number),
            None => ParsingInfo::new_extra(0x1e, number),
        },
    }
}

fn different_kinds(first: Term, second: Term) -> (r: bool)
    ensures
        r == may_follow(first, second),
{
    match (first, second) {
        (Term::Register(_), Term::Register(_)) => false,
        (Term::Number(_), Term::Number(_)) => false,
        (Term::Name(_), Term::Name(_)) => false,
        _ => true,
    }
}

/// Whether `r`, with the cursor moved from `before` to `after`, is what
/// `expected` says: on success the operand, valid, and the cursor behind
/// it; on failure the error and the cursor where it was.
pub open spec fn parsed_as(
    r: Result<ParsingInfo, ParsingError>,
    before: usize,
    after: usize,
    expected: Result<Parsed, ParsingError>,
    len: usize,
) -> bool {
    match expected {
        Ok(p) => r == Ok::<ParsingInfo, ParsingError>(p.info) && after == p.next && before < after
            <= len,
        Err(e) => r == Err::<ParsingInfo, ParsingError>(e) && after == before,
    }
}

/// Parses the operand between brackets whose first term is token `cur`.
fn parse_address(line_no: usize, tokens: &Vec<Token>, cur: usize, cpu: &PCPU) -> (r: Result<
    (ParsingInfo, usize),
    ParsingError,
>)
    requires
        tokens.len() > 0,
        cur <= tokens.len(),
        tokens_valid(tokens@, cpu@),
    ensures
        match address_of(line_no, tokens@, cur as int, cpu@) {
            Ok(p) => r == Ok::<(ParsingInfo, usize), ParsingError>((p.info, p.next as usize))
                && cur < p.next <= tokens.len() && info_valid(p.info, cpu@, true),
            Err(e) => r == Err::<(ParsingInfo, usize), ParsingError>(e),
        },
{
    let n = tokens.len();
    if cur >= n {
        return Err(error_here(line_no, tokens, n - 1, ParsingErrorType::EndOfTokens));
    }
    let first = match term(tokens[cur].ttype) {
        Some(t) => t,
        None => {
            return Err(error_here(line_no, tokens, cur, ParsingErrorType::ExpectingLiteral));
        },
    };
    assert(token_valid(tokens@[cur as int], cpu@));
    if cur + 1 >= n {
        return Err(error_here(line_no, tokens, n - 1, ParsingErrorType::EndOfTokens));
    }
    match tokens[cur + 1].ttype {
        TokenType::RightBracket => {
            return Ok((address_info(cpu, first, None), cur + 2));
        },
        TokenType::Addition => {},
        _ => {
            return Err(
                error_here(line_no, tokens, cur + 1, ParsingErrorType::ExpectingRightBracket),
            );
        },
    }
    if cur + 2 >= n {
        return Err(error_here(line_no, tokens, n - 1, ParsingErrorType::EndOfTokens));
    }
    let second = match term(tokens[cur + 2].ttype) {
        Some(t) => t,
        None => {
            return Err(error_here(line_no, tokens, cur + 2, ParsingErrorType::ExpectingLiteral));
        },
    };
    assert(token_valid(tokens@[cur + 2], cpu@));
    if !different_kinds(first, second) {
        return Err(error_here(line_no, tokens, cur + 2, ParsingErrorType::ExpectingLiteral));
    }
    if cur + 3 >= n {
        return Err(error_here(line_no, tokens, n - 1, ParsingErrorType::EndOfTokens));
    }
    match tokens[cur + 3].ttype {
        TokenType::RightBracket => Ok((address_info(cpu, first, Some(second)), cur + 4)),
        _ => Err(error_here(line_no, tokens, cur + 3, ParsingErrorType::ExpectingRightBracket)),
    }
}

/// Parses the operand that starts at token `*cur` and moves `*cur`
/// behind it. `lvalue` says that the operand is a destination.
pub fn parse_value(
    line_no: usize,
    tokens: &Vec<Token>,
    cur: &mut usize,
    cpu: &PCPU,
    lvalue: bool,
) -> (r: Result<ParsingInfo, ParsingError>)
    requires
        tokens.len() > 0,
        tokens_valid(tokens@, cpu@),
    ensures
        parsed_as(
            r,
            *old(cur),
            *final(cur),
            value_of(line_no, tokens@, *old(cur) as int, cpu@, lvalue),
            tokens.len(),
        ),
        r matches Ok(info) ==> info_valid(info, cpu@, lvalue),
{
    let n = tokens.len();
    let at = *cur;
    if at >= n {
        return Err(error_here(line_no, tokens, n - 1, ParsingErrorType::EndOfTokens));
    }
    assert(token_valid(tokens@[at as int], cpu@));
    match tokens[at].ttype {
        TokenType::NumericLiteral(value) => {
            *cur = at + 1;
            process_value(value, !lvalue)
        },
        TokenType::Label(id) => {
            *cur = at + 1;
            Ok(label_info(cpu, 0x1f, id, 0))
        },
        TokenType::Registry(reg) => {
            *cur = at + 1;
            Ok(ParsingInfo::new_single(reg))
        },
        TokenType::Pick => {
            if at + 1 >= n {
                return Err(error_here(line_no, tokens, n - 1, ParsingErrorType::EndOfTokens));
            }
            match tokens[at + 1].ttype {
                TokenType::NumericLiteral(v) => {
                    *cur = at + 2;
                    Ok(ParsingInfo::new_extra(0x1a, v))
                },
                _ => Err(error_here(line_no, tokens, at + 1, ParsingErrorType::ExpectingLiteral)),
            }
        },
        TokenType::Peek => {
            *cur = at + 1;
            Ok(ParsingInfo::new_single(0x19))
        },
        TokenType::Push => {
            if !lvalue {
                Err(error_here(line_no, tokens, at, ParsingErrorType::IncorrectPushPop))
            } else {
                *cur = at + 1;
                Ok(ParsingInfo::new_single(0x18))
            }
        },
        TokenType::Pop => {
            if lvalue {
                Err(error_here(line_no, tokens, at, ParsingErrorType::IncorrectPushPop))
            } else {
                *cur = at + 1;
                Ok(ParsingInfo::new_single(0x18))
            }
        },
        TokenType::SP => {
            *cur = at + 1;
            Ok(ParsingInfo::new_single(0x1b))
        },
        TokenType::PC => {
            *cur = at + 1;
            Ok(ParsingInfo::new_single(0x1c))
        },
        TokenType::EX => {
            *cur = at + 1;
            Ok(ParsingInfo::new_single(0x1d))
        },
        TokenType::LeftBracket => {
            match parse_address(line_no, tokens, at + 1, cpu) {
                Ok((info, next)) => {
                    *cur = next;
                    Ok(info)
                },
                Err(e) => Err(e),
            }
        },
        _ => Err(error_here(line_no, tokens, at, ParsingErrorType::ExpectingOperand)),
    }
}

/// Passes the comma at token `*cur`.
pub fn check_comma(line_no: usize, tokens: &Vec<Token>, cur: &mut usize) -> (r: Result<
    (),
    ParsingError,
>)
    requires
        tokens.len() > 0,
    ensures
        match comma_at(line_no, tokens@, *old(cur) as int) {
            None => r is Ok && *final(cur) == *old(cur) + 1 && *final(cur) <= tokens.len(),
            Some(e) => r == Err::<(), ParsingError>(e) && *final(cur) == *old(cur),
        },
{
    let at = *cur;
    if at >= tokens.len() {
        return Err(error_here(line_no, tokens, tokens.len() - 1, ParsingErrorType::EndOfTokens));
    }
    match tokens[at].ttype {
        TokenType::Comma => {
            *cur = at + 1;
            Ok(())
        },
        _ => Err(error_here(line_no, tokens, at, ParsingErrorType::ExpectingComma)),
    }
}

/// Checks that no token is left from `*cur` on.
pub fn check_end_of_line(line_no: usize, tokens: &Vec<Token>, cur: &mut usize) -> (r: Result<
    (),
    ParsingError,
>)
    ensures
        *final(cur) == *old(cur),
        r == if *old(cur) < tokens.len() {
            Err::<(), ParsingError>(extra_tokens(line_no, tokens@, *old(cur) as int))
        } else {
            Ok(())
        },
{
    if tokens.len() <= *cur {
        Ok(())
    } else {
        let last = tokens.len() - 1;
        Err(
            ParsingError {
                line: line_no,
                col: tokens[*cur].col,
                len: tokens[last].col.saturating_sub(tokens[*cur].col).saturating_add(
                    tokens[last].len,
                ),
                global: false,
                etype: ParsingErrorType::ExtraTokens,
            },
        )
    }
}

/// Emits the next word of an operand, if it has one.
fn emit_extra(cpu: &mut PCPU, info: ParsingInfo)
    ensures
        final(cpu)@ == emit_operand(old(cpu)@, info),
{
    match info.extra_byte {
        Some(word) => {
            if info.unassigned {
                cpu.unassigned_addresses.push(
                    UnassignedLabel { addr: cpu.pc, label: word, offset: info.offset },
                );
            }
            cpu.emit(word);
        },
        None => {},
    }
}

/// Whether `r` with the state left as `after` is what `expected` says.
pub open spec fn assembled_as(r: Result<(), ParsingError>, after: AsmState, expected: Assembled) -> bool {
    &&& after == expected.state
    &&& match expected.error {
        None => r is Ok,
        Some(e) => r == Err::<(), ParsingError>(e),
    }
}

/// Parses the basic instruction whose opcode is token `*cur` and emits it.
pub fn parse_basic_opcode(line_no: usize, tokens: &Vec<Token>, cur: &mut usize, cpu: &mut PCPU) -> (r:
    Result<(), ParsingError>)
    requires
        *old(cur) < tokens.len(),
        tokens_valid(tokens@, old(cpu)@),
        unresolved_valid(old(cpu)@),
    ensures
        assembled_as(r, final(cpu)@, basic_instruction(line_no, tokens@, *old(cur) as int, old(cpu)@)),
        unresolved_valid(final(cpu)@),
        final(cpu)@.labels == old(cpu)@.labels,
        final(cpu)@.strings == old(cpu)@.strings,
        *old(cur) <= *final(cur) <= tokens.len(),
{
    assert(token_valid(tokens@[*old(cur) as int], cpu@));
    match tokens[*cur].ttype {
        TokenType::BasicOpcode(opcode) => {
            let mut at = *cur + 1;
            let b = parse_value(line_no, tokens, &mut at, cpu, true)?;
            check_comma(line_no, tokens, &mut at)?;
            let a = parse_value(line_no, tokens, &mut at, cpu, false)?;
            check_end_of_line(line_no, tokens, &mut at)?;
            *cur = at;
            cpu.emit(a.operand * 1024 + b.operand * 32 + opcode as u16);
            emit_extra(cpu, a);
            emit_extra(cpu, b);
            Ok(())
        },
        _ => Ok(()),
    }
}

/// Parses the special instruction whose opcode is token `*cur` and emits it.
pub fn parse_special_opcode(line_no: usize, tokens: &Vec<Token>, cur: &mut usize, cpu: &mut PCPU) -> (r:
    Result<(), ParsingError>)
    requires
        *old(cur) < tokens.len(),
        tokens_valid(tokens@, old(cpu)@),
        unresolved_valid(old(cpu)@),
    ensures
        assembled_as(
            r,
            final(cpu)@,
            special_instruction(line_no, tokens@, *old(cur) as int, old(cpu)@),
        ),
        unresolved_valid(final(cpu)@),
        final(cpu)@.labels == old(cpu)@.labels,
        final(cpu)@.strings == old(cpu)@.strings,
        *old(cur) <= *final(cur) <= tokens.len(),
{
    assert(token_valid(tokens@[*old(cur) as int], cpu@));
    match tokens[*cur].ttype {
        TokenType::SpecialOpcode(opcode) => {
            let mut at = *cur + 1;
            let a = parse_value(line_no, tokens, &mut at, cpu, false)?;
            check_end_of_line(line_no, tokens, &mut at)?;
            *cur = at;
            cpu.emit(a.operand * 1024 + (opcode as u16) * 32);
            emit_extra(cpu, a);
            Ok(())
        },
        _ => Ok(()),
    }
}

/// The word of a character of a string literal.
fn word_of_char(c: char) -> (w: u16)
    ensures
        w == char_word(c),
{
    let code: u32 = c as u32;
    let wide: u32 = code & 0xffff;
    assert(wide <= 0xffff) by (bit_vector)
        requires
            wide == code & 0xffff,
    ;
    wide as u16
}

/// Emits string literal `id`, one word for each character.
fn emit_string(cpu: &mut PCPU, id: usize)
    requires
        id < old(cpu)@.strings.len(),
    ensures
        final(cpu)@ == emit_text(old(cpu)@, old(cpu)@.strings[id as int], 0),
        final(cpu)@.labels == old(cpu)@.labels,
        final(cpu)@.strings == old(cpu)@.strings,
        final(cpu)@.unresolved == old(cpu)@.unresolved,
{
    let n = cpu.string_literals[id].len();
    let ghost text = cpu@.strings[id as int];
    let mut k: usize = 0;
    while k < n
        invariant
            k <= n,
            n == text.len(),
            id < cpu@.strings.len(),
            cpu@.strings[id as int] == text,
            cpu@.labels == old(cpu)@.labels,
            cpu@.strings == old(cpu)@.strings,
            cpu@.unresolved == old(cpu)@.unresolved,
            emit_text(cpu@, text, k as int) == emit_text(old(cpu)@, text, 0),
        decreases n - k,
    {
        let c = cpu.string_literals[id][k];
        cpu.emit(word_of_char(c));
        k = k + 1;
    }
}

/// Parses the items of the `DAT` at token `*cur` and emits them.
pub fn parse_data_opcode(line_no: usize, tokens: &Vec<Token>, cur: &mut usize, cpu: &mut PCPU) -> (r:
    Result<ParsingInfo, ParsingError>)
    requires
        *old(cur) < tokens.len(),
        tokens_valid(tokens@, old(cpu)@),
    ensures
        final(cpu)@ == data_items(line_no, tokens@, *old(cur) + 1, true, old(cpu)@).state,
        match data_items(line_no, tokens@, *old(cur) + 1, true, old(cpu)@).error {
            None => r == Ok::<ParsingInfo, ParsingError>(single(0)),
            Some(e) => r == Err::<ParsingInfo, ParsingError>(e),
        },
        final(cpu)@.labels == old(cpu)@.labels,
        final(cpu)@.strings == old(cpu)@.strings,
        final(cpu)@.unresolved == old(cpu)@.unresolved,
        *old(cur) <= *final(cur) <= tokens.len(),
{
    let n = tokens.len();
    let ghost start = *cur + 1;
    let mut at = *cur + 1;
    let mut first = true;
    while at < n
        invariant
            n == tokens.len(),
            start == *old(cur) + 1,
            *cur == *old(cur),
            *old(cur) < at <= n,
            tokens_valid(tokens@, cpu@),
            cpu@.labels == old(cpu)@.labels,
            cpu@.strings == old(cpu)@.strings,
            cpu@.unresolved == old(cpu)@.unresolved,
            data_items(line_no, tokens@, at as int, first, cpu@) == data_items(
                line_no,
                tokens@,
                start,
                true,
                old(cpu)@,
            ),
        decreases n - at,
    {
        if !first {
            match tokens[at].ttype {
                TokenType::Comma => {},
                _ => {
                    return Err(error_here(line_no, tokens, at, ParsingErrorType::ExpectingComma));
                },
            }
            at = at + 1;
        }
        if at >= n {
            return Err(error_here(line_no, tokens, n - 1, ParsingErrorType::EndOfTokens));
        }
        assert(token_valid(tokens@[at as int], cpu@));
        match tokens[at].ttype {
            TokenType::NumericLiteral(value) => {
                cpu.emit(value);
            },
            TokenType::StringLiteral(id) => {
                emit_string(cpu, id as usize);
            },
            _ => {
                return Err(error_here(line_no, tokens, at, ParsingErrorType::ExpectingLiteral));
            },
        }
        first = false;
        at = at + 1;
    }
    *cur = at;
    Ok(ParsingInfo::new())
}

/// Binds label `id` to the current address, unless it is bound already.
fn bind_label(cpu: &mut PCPU, id: usize)
    requires
        id < old(cpu)@.labels.len(),
        id <= 0xffff,
    ensures
        final(cpu)@ == define_label(old(cpu)@, id as u16),
{
    if cpu.labels[id].addr.is_none() {
        cpu.labels[id].addr = Some(cpu.pc);
        assert(cpu@.labels =~= old(cpu)@.labels.update(
            id as int,
            LabelModel { addr: Some(old(cpu)@.pc), ..old(cpu)@.labels[id as int] },
        ));
    }
}

/// Parses the line from token `*cur` on and emits what it stands for.
pub fn parse_line(line_no: usize, tokens: &Vec<Token>, cpu: &mut PCPU, cur: &mut usize) -> (r: Result<
    (),
    ParsingError,
>)
    requires
        tokens_valid(tokens@, old(cpu)@),
        unresolved_valid(old(cpu)@),
    ensures
        assembled_as(r, final(cpu)@, line_of(line_no, tokens@, *old(cur) as int, old(cpu)@)),
        unresolved_valid(final(cpu)@),
        final(cpu)@.labels.len() == old(cpu)@.labels.len(),
        final(cpu)@.strings == old(cpu)@.strings,
{
    let n = tokens.len();
    while *cur < n
        invariant
            n == tokens.len(),
            tokens_valid(tokens@, cpu@),
            unresolved_valid(cpu@),
            cpu@.labels.len() == old(cpu)@.labels.len(),
            cpu@.strings == old(cpu)@.strings,
            line_of(line_no, tokens@, *cur as int, cpu@) == line_of(
                line_no,
                tokens@,
                *old(cur) as int,
                old(cpu)@,
            ),
        decreases n - *cur,
    {
        assert(token_valid(tokens@[*cur as int], cpu@));
        match tokens[*cur].ttype {
            TokenType::BasicOpcode(_) => {
                return parse_basic_opcode(line_no, tokens, cur, cpu);
            },
            TokenType::SpecialOpcode(_) => {
                return parse_special_opcode(line_no, tokens, cur, cpu);
            },
            TokenType::DataOpcode => {
                return match parse_data_opcode(line_no, tokens, cur, cpu) {
                    Ok(_) => Ok(()),
                    Err(e) => Err(e),
                };
            },
            TokenType::Colon => {
                if *cur + 1 >= n {
                    return Err(error_here(line_no, tokens, n - 1, ParsingErrorType::EndOfTokens));
                }
                assert(token_valid(tokens@[*cur + 1], cpu@));
                match tokens[*cur + 1].ttype {
                    TokenType::Label(id) => {
                        bind_label(cpu, id as usize);
                        *cur = *cur + 2;
                    },
                    _ => {
                        return Err(
                            error_here(line_no, tokens, *cur + 1, ParsingErrorType::ExpectingLabel),
                        );
                    },
                }
            },
            _ => {
                return Err(error_here(line_no, tokens, *cur, ParsingErrorType::IllegalLineStart));
            },
        }
    }
    Ok(())
}

/// Tokenizes and parses one line and emits what it stands for.
pub fn assemble_line(line_no: usize, line: &str, cpu: &mut PCPU) -> (r: Result<(), ParsingError>)
    requires
        unresolved_valid(old(cpu)@),
    ensures
        assembled_as(r, final(cpu)@, line_step(line_no, line@, old(cpu)@)),
        unresolved_valid(final(cpu)@),
{
    match tokenize(line_no, line, cpu) {
        Err(e) => Err(e),
        Ok(tokens) => {
            let mut cur: usize = 0;
            parse_line(line_no, &tokens, cpu, &mut cur)
        },
    }
}

/// Writes to each word that waits for a label the label's address plus
/// the word's offset.
pub fn resolve_labels(cpu: &mut PCPU) -> (r: Result<(), ParsingError>)
    requires
        unresolved_valid(old(cpu)@),
    ensures
        assembled_as(r, final(cpu)@, second_pass(old(cpu)@, 0)),
{
    let n = cpu.unassigned_addresses.len();
    let mut k: usize = 0;
    while k < n
        invariant
            k <= n,
            n == cpu@.unresolved.len(),
            unresolved_valid(cpu@),
            second_pass(cpu@, k as int) == second_pass(old(cpu)@, 0),
        decreases n - k,
    {
        let entry = cpu.unassigned_addresses[k];
        let id = entry.label as usize;
        assert(cpu@.unresolved[k as int].label < cpu@.labels.len());
        match cpu.labels[id].addr {
            Some(addr) => {
                cpu.mem[entry.addr as usize] = entry.offset.wrapping_add(addr);
            },
            None => {
                return Err(
                    ParsingError {
                        line: cpu.labels[id].line,
                        col: cpu.labels[id].col,
                        len: cpu.labels[id].len,
                        global: false,
                        etype: ParsingErrorType::UnknownLabel(entry.label),
                    },
                );
            },
        }
        k = k + 1;
    }
    Ok(())
}

/// Assembles `lines` into the image of `cpu`, from address zero.
///
/// On success every label that was used has been defined and every word
/// that waited for one holds its address. The error is the first of the
/// first pass or, after a clean first pass, that of the first word whose
/// label has no definition, reported where the label was first seen.
pub fn parse(lines: &Vec<String>, cpu: &mut PCPU) -> (r: Result<(), ParsingError>)
    requires
        unresolved_valid(old(cpu)@),
    ensures
        assembled_as(r, final(cpu)@, assemble(lines_view(lines@), old(cpu)@)),
{
    cpu.pc = 0;
    let ghost start = cpu@;
    let ghost text = lines_view(lines@);
    let mut line_no: usize = 0;
    while line_no < lines.len()
        invariant
            line_no <= lines.len(),
            text == lines_view(lines@),
            start == (AsmState { pc: 0, ..old(cpu)@ }),
            unresolved_valid(cpu@),
            first_pass(text, line_no as int, cpu@) == first_pass(text, 0, start),
        decreases lines.len() - line_no,
    {
        let line = lines[line_no].as_str();
        if !line.is_empty() {
            match assemble_line(line_no, line, cpu) {
                Err(e) => {
                    return Err(e);
                },
                Ok(_) => {},
            }
        }
        line_no = line_no + 1;
    }
    resolve_labels(cpu)
}

} // verus!
