//! The disassembler: the instruction at `pc` as text.

use vstd::prelude::*;
use vstd::string::StringExecFns;
use crate::dcpu::{decode, Machine};
use crate::instructions::{
    ADD, ADX, AND, ASR, BOR, DIV, DVI, HWI, HWN, HWQ, IAG, IAQ, IAS, IFA, IFB, IFC, IFE, IFG, IFL,
    IFN, IFU, INT, JSR, MDI, MLI, MOD, MUL, OUT, RFI, SBX, SET, SHL, SHR, STD, STI, SUB, XOR,
};
use crate::semantics::{a_field, b_field, opcode_of, takes_next, CpuState};

verus! {

/// The colours of a terminal.
#[derive(Clone, Copy, PartialEq, Eq, Structural, Debug)]
pub enum ShellColor {
    Default,
    Blue,
    Green,
    Cyan,
    Red,
    Purple,
    Brown,
    LightGray,
    DarkGray,
    LightBlue,
    LightGreen,
    LightCyan,
    LightRed,
    LightPurple,
    White,
    Yellow,
}

/// The escape sequence that switches a terminal to `color`; nothing for
/// the default colour.
pub open spec fn color_code(color: ShellColor) -> Seq<char> {
    match color {
        ShellColor::Default => ""@,
        ShellColor::Blue => "\x1b[0;34m"@,
        ShellColor::Green => "\x1b[0;32m"@,
        ShellColor::Cyan => "\x1b[0;36m"@,
        ShellColor::Red => "\x1b[0;31m"@,
        ShellColor::Purple => "\x1b[0;35m"@,
        ShellColor::Brown => "\x1b[0;33m"@,
        ShellColor::LightGray => "\x1b[0;37m"@,
        ShellColor::DarkGray => "\x1b[1;30m"@,
        ShellColor::LightBlue => "\x1b[1;34m"@,
        ShellColor::LightGreen => "\x1b[1;32m"@,
        ShellColor::LightCyan => "\x1b[1;36m"@,
        ShellColor::LightRed => "\x1b[1;31m"@,
        ShellColor::LightPurple => "\x1b[1;35m"@,
        ShellColor::White => "\x1b[1;37m"@,
        ShellColor::Yellow => "\x1b[1;33m"@,
    }
}

/// `text` in `color`: between the colour's escape sequence and the one
/// that resets the terminal. In the default colour it is `text` itself.
pub open spec fn colored(text: Seq<char>, color: ShellColor) -> Seq<char> {
    if color == ShellColor::Default {
        text
    } else {
        color_code(color) + text + "\x1b[0m"@
    }
}

/// `text` in `color` if `enable`, else `text` itself.
pub open spec fn painted(text: Seq<char>, color: ShellColor, enable: bool) -> Seq<char> {
    if enable {
        colored(text, color)
    } else {
        text
    }
}

/// The character of a digit below sixteen.
pub open spec fn digit_char(d: int) -> char {
    if d < 10 {
        ('0' as int + d) as char
    } else {
        ('a' as int + d - 10) as char
    }
}

/// `n` in decimal.
pub open spec fn decimal(n: nat) -> Seq<char>
    decreases n,
{
    if n < 10 {
        seq![digit_char(n as int)]
    } else {
        decimal(n / 10).push(digit_char((n % 10) as int))
    }
}

/// `n` in decimal, with a minus sign if it is negative.
pub open spec fn signed_decimal(n: int) -> Seq<char> {
    if n < 0 {
        seq!['-'] + decimal((-n) as nat)
    } else {
        decimal(n as nat)
    }
}

/// `v` as `0x` and four hexadecimal digits.
pub open spec fn hex_word(v: u16) -> Seq<char> {
    seq![
        '0',
        'x',
        digit_char(v as int / 4096),
        digit_char((v as int / 256) % 16),
        digit_char((v as int / 16) % 16),
        digit_char(v as int % 16),
    ]
}

/// The name of register `reg`; a question mark from eight on.
pub open spec fn register_name(reg: usize) -> Seq<char> {
    if reg == 0 {
        "A"@
    } else if reg == 1 {
        "B"@
    } else if reg == 2 {
        "C"@
    } else if reg == 3 {
        "X"@
    } else if reg == 4 {
        "Y"@
    } else if reg == 5 {
        "Z"@
    } else if reg == 6 {
        "I"@
    } else if reg == 7 {
        "J"@
    } else {
        "?"@
    }
}

/// The mnemonic of the basic instruction `opcode`, if it is one.
pub open spec fn opcode_name(opcode: usize) -> Option<Seq<char>> {
    if opcode == SET {
        Some("SET"@)
    } else if opcode == ADD {
        Some("ADD"@)
    } else if opcode == SUB {
        Some("SUB"@)
    } else if opcode == MUL {
        Some("MUL"@)
    } else if opcode == MLI {
        Some("MLI"@)
    } else if opcode == DIV {
        Some("DIV"@)
    } else if opcode == DVI {
        Some("DVI"@)
    } else if opcode == MOD {
        Some("MOD"@)
    } else if opcode == MDI {
        Some("MDI"@)
    } else if opcode == AND {
        Some("AND"@)
    } else if opcode == BOR {
        Some("BOR"@)
    } else if opcode == XOR {
        Some("XOR"@)
    } else if opcode == SHR {
        Some("SHR"@)
    } else if opcode == ASR {
        Some("ASR"@)
    } else if opcode == SHL {
        Some("SHL"@)
    } else if opcode == IFB {
        Some("IFB"@)
    } else if opcode == IFC {
        Some("IFC"@)
    } else if opcode == IFE {
        Some("IFE"@)
    } else if opcode == IFN {
        Some("IFN"@)
    } else if opcode == IFG {
        Some("IFG"@)
    } else if opcode == IFA {
        Some("IFA"@)
    } else if opcode == IFL {
        Some("IFL"@)
    } else if opcode == IFU {
        Some("IFU"@)
    } else if opcode == ADX {
        Some("ADX"@)
    } else if opcode == SBX {
        Some("SBX"@)
    } else if opcode == STI {
        Some("STI"@)
    } else if opcode == STD {
        Some("STD"@)
    } else {
        None
    }
}

/// The mnemonic of the special instruction `opcode`, if it is one.
pub open spec fn special_opcode_name(opcode: usize) -> Option<Seq<char>> {
    if opcode == JSR {
        Some("JSR"@)
    } else if opcode == INT {
        Some("INT"@)
    } else if opcode == IAG {
        Some("IAG"@)
    } else if opcode == IAS {
        Some("IAS"@)
    } else if opcode == RFI {
        Some("RFI"@)
    } else if opcode == IAQ {
        Some("IAQ"@)
    } else if opcode == HWN {
        Some("HWN"@)
    } else if opcode == HWQ {
        Some("HWQ"@)
    } else if opcode == HWI {
        Some("HWI"@)
    } else if opcode == OUT {
        Some("OUT"@)
    } else {
        None
    }
}

pub const COLOR_INSTRUCTION: ShellColor = ShellColor::White;
pub const COLOR_NUM_LITERAL: ShellColor = ShellColor::LightPurple;
pub const COLOR_REGISTRY: ShellColor = ShellColor::Yellow;
pub const COLOR_NAMED: ShellColor = ShellColor::LightCyan;

/// The text of the operand `value`, whose next word, if it has one, is
/// `offset` words behind `pc`. `lvalue` says that it is a destination.
pub open spec fn value_text(
    cpu: CpuState,
    value: usize,
    offset: u16,
    lvalue: bool,
    use_color: bool,
) -> Seq<char> {
    let next = cpu.mem[cpu.pc.wrapping_add(offset) as int];
    if value <= 0x07 {
        painted(register_name(value), COLOR_REGISTRY, use_color)
    } else if value <= 0x0f {
        "["@ + painted(register_name((value - 0x08) as usize), COLOR_REGISTRY, use_color) + "]"@
    } else if value <= 0x17 {
        "["@ + painted(register_name((value - 0x10) as usize), COLOR_REGISTRY, use_color) + "+"@
            + painted(decimal(next as nat), COLOR_NUM_LITERAL, use_color) + "]"@
    } else if value == 0x18 {
        if lvalue {
            painted("PUSH"@, COLOR_NAMED, use_color)
        } else {
            painted("POP"@, COLOR_NAMED, use_color)
        }
    } else if value == 0x19 {
        painted("PEEK"@, COLOR_NAMED, use_color)
    } else if value == 0x1a {
        painted("PICK n"@, COLOR_NAMED, use_color)
    } else if value == 0x1b {
        painted("SP"@, COLOR_NAMED, use_color)
    } else if value == 0x1c {
        painted("PC"@, COLOR_NAMED, use_color)
    } else if value == 0x1d {
        painted("EX"@, COLOR_NAMED, use_color)
    } else if value == 0x1e {
        "["@ + painted(hex_word(next), COLOR_NUM_LITERAL, use_color) + "]"@
    } else if value == 0x1f {
        painted(hex_word(next), COLOR_NUM_LITERAL, use_color)
    } else {
        painted(signed_decimal(value as int - 0x21), COLOR_NUM_LITERAL, use_color)
    }
}

/// The text for a word that is no instruction: `DAT` and the word.
pub open spec fn data_text(word: u16, use_color: bool) -> Seq<char> {
    painted("DAT"@, COLOR_INSTRUCTION, use_color) + " "@ + painted(
        hex_word(word),
        COLOR_NUM_LITERAL,
        use_color,
    )
}

/// The number of words of the instruction `word`: one and one for each
/// operand that takes a next word. A special instruction has one
/// operand only.
pub open spec fn instruction_length(word: u16) -> u16 {
    let a: u16 = if takes_next(a_field(word)) { 1 } else { 0 };
    let b: u16 = if opcode_of(word) != 0 && takes_next(b_field(word)) { 1 } else { 0 };
    (1 + a + b) as u16
}

/// The text of the instruction at `pc`: `MNEMONIC b, a` for a basic
/// one, `MNEMONIC a` for a special one, `DAT` and the word for anything
/// else.
pub open spec fn instruction_text(cpu: CpuState, use_color: bool) -> Seq<char> {
    let word = cpu.mem[cpu.pc as int];
    let a = a_field(word);
    let b = b_field(word);
    let a_text = value_text(cpu, a, 1, false, use_color);
    let b_offset: u16 = if takes_next(a) { 2 } else { 1 };
    if opcode_of(word) == 0 {
        match special_opcode_name(b) {
            Some(name) => painted(name, COLOR_INSTRUCTION, use_color) + " "@ + a_text,
            None => data_text(word, use_color),
        }
    } else {
        match opcode_name(opcode_of(word)) {
            Some(name) => painted(name, COLOR_INSTRUCTION, use_color) + " "@ + value_text(
                cpu,
                b,
                b_offset,
                true,
                use_color,
            ) + ", "@ + a_text,
            None => data_text(word, use_color),
        }
    }
}

/// `s` in `color` if `enable`.
pub fn maybe_colorize(s: String, color: ShellColor, enable: bool) -> (r: String)
    ensures
        r@ == painted(s@, color, enable),
{
    if enable {
        colorize(s, color)
    } else {
        s
    }
}

/// `s` in `color`.
pub fn colorize(s: String, color: ShellColor) -> (r: String)
    ensures
        r@ == colored(s@, color),
{
    let code = match color {
        ShellColor::Default => {
            return s;
        },
        ShellColor::Blue => "\x1b[0;34m",
        ShellColor::Green => "\x1b[0;32m",
        ShellColor::Cyan => "\x1b[0;36m",
        ShellColor::Red => "\x1b[0;31m",
        ShellColor::Purple => "\x1b[0;35m",
        ShellColor::Brown => "\x1b[0;33m",
        ShellColor::LightGray => "\x1b[0;37m",
        ShellColor::DarkGray => "\x1b[1;30m",
        ShellColor::LightBlue => "\x1b[1;34m",
        ShellColor::LightGreen => "\x1b[1;32m",
        ShellColor::LightCyan => "\x1b[1;36m",
        ShellColor::LightRed => "\x1b[1;31m",
        ShellColor::LightPurple => "\x1b[1;35m",
        ShellColor::White => "\x1b[1;37m",
        ShellColor::Yellow => "\x1b[1;33m",
    };
    let mut r = code.to_owned();
    r.append(s.as_str());
    r.append("\x1b[0m");
    r
}

/// The mnemonic of the basic instruction `opcode`.
pub fn opcode_str(opcode: usize) -> (r: Result<&'static str, ()>)
    ensures
        match r {
            Ok(name) => opcode_name(opcode) == Some(name@),
            Err(_) => opcode_name(opcode) is None,
        },
{
    if opcode == SET {
        Ok("SET")
    } else if opcode == ADD {
        Ok("ADD")
    } else if opcode == SUB {
        Ok("SUB")
    } else if opcode == MUL {
        Ok("MUL")
    } else if opcode == MLI {
        Ok("MLI")
    } else if opcode == DIV {
        Ok("DIV")
    } else if opcode == DVI {
        Ok("DVI")
    } else if opcode == MOD {
        Ok("MOD")
    } else if opcode == MDI {
        Ok("MDI")
    } else if opcode == AND {
        Ok("AND")
    } else if opcode == BOR {
        Ok("BOR")
    } else if opcode == XOR {
        Ok("XOR")
    } else if opcode == SHR {
        Ok("SHR")
    } else if opcode == ASR {
        Ok("ASR")
    } else if opcode == SHL {
        Ok("SHL")
    } else if opcode == IFB {
        Ok("IFB")
    } else if opcode == IFC {
        Ok("IFC")
    } else if opcode == IFE {
        Ok("IFE")
    } else if opcode == IFN {
        Ok("IFN")
    } else if opcode == IFG {
        Ok("IFG")
    } else if opcode == IFA {
        Ok("IFA")
    } else if opcode == IFL {
        Ok("IFL")
    } else if opcode == IFU {
        Ok("IFU")
    } else if opcode == ADX {
        Ok("ADX")
    } else if opcode == SBX {
        Ok("SBX")
    } else if opcode == STI {
        Ok("STI")
    } else if opcode == STD {
        Ok("STD")
    } else {
        Err(())
    }
}

/// The mnemonic of the special instruction `opcode`.
pub fn special_opcode_str(opcode: usize) -> (r: Result<&'static str, ()>)
    ensures
        match r {
            Ok(name) => special_opcode_name(opcode) == Some(name@),
            Err(_) => special_opcode_name(opcode) is None,
        },
{
    if opcode == JSR {
        Ok("JSR")
    } else if opcode == INT {
        Ok("INT")
    } else if opcode == IAG {
        Ok("IAG")
    } else if opcode == IAS {
        Ok("IAS")
    } else if opcode == RFI {
        Ok("RFI")
    } else if opcode == IAQ {
        Ok("IAQ")
    } else if opcode == HWN {
        Ok("HWN")
    } else if opcode == HWQ {
        Ok("HWQ")
    } else if opcode == HWI {
        Ok("HWI")
    } else if opcode == OUT {
        Ok("OUT")
    } else {
        Err(())
    }
}

/// The name of register `reg`.
pub fn registry_str(reg: usize) -> (r: &'static str)
    ensures
        r@ == register_name(reg),
{
    if reg == 0 {
        "A"
    } else if reg == 1 {
        "B"
    } else if reg == 2 {
        "C"
    } else if reg == 3 {
        "X"
    } else if reg == 4 {
        "Y"
    } else if reg == 5 {
        "Z"
    } else if reg == 6 {
        "I"
    } else if reg == 7 {
        "J"
    } else {
        "?"
    }
}

/// The digit `d` as text.
pub fn digit_str(d: u128) -> (r: &'static str)
    requires
        d < 16,
    ensures
        r@ == seq![digit_char(d as int)],
{
    proof {
        reveal_strlit("0");
        reveal_strlit("1");
        reveal_strlit("2");
        reveal_strlit("3");
        reveal_strlit("4");
        reveal_strlit("5");
        reveal_strlit("6");
        reveal_strlit("7");
        reveal_strlit("8");
        reveal_strlit("9");
        reveal_strlit("a");
        reveal_strlit("b");
        reveal_strlit("c");
        reveal_strlit("d");
        reveal_strlit("e");
        reveal_strlit("f");
    }
    let r = if d == 0 {
        "0"
    } else if d == 1 {
        "1"
    } else if d == 2 {
        "2"
    } else if d == 3 {
        "3"
    } else if d == 4 {
        "4"
    } else if d == 5 {
        "5"
    } else if d == 6 {
        "6"
    } else if d == 7 {
        "7"
    } else if d == 8 {
        "8"
    } else if d == 9 {
        "9"
    } else if d == 10 {
        "a"
    } else if d == 11 {
        "b"
    } else if d == 12 {
        "c"
    } else if d == 13 {
        "d"
    } else if d == 14 {
        "e"
    } else {
        "f"
    };
    assert(r@ =~= seq![digit_char(d as int)]);
    r
}

/// Appends `n` in decimal to `text`.
pub fn append_decimal(text: &mut String, n: u128)
    ensures
        final(text)@ == old(text)@ + decimal(n as nat),
    decreases n,
{
    if n >= 10 {
        append_decimal(text, n / 10);
    }
    text.append(digit_str(n % 10));
    assert(text@ =~= old(text)@ + decimal(n as nat));
}

/// `n` in decimal.
pub fn decimal_string(n: u16) -> (text: String)
    ensures
        text@ == decimal(n as nat),
{
    let mut text = "".to_owned();
    proof {
        reveal_strlit("");
    }
    append_decimal(&mut text, n as u128);
    assert(text@ =~= decimal(n as nat));
    text
}

/// `n` in decimal, with a minus sign if it is negative.
pub fn signed_decimal_string(n: i16) -> (text: String)
    ensures
        text@ == signed_decimal(n as int),
{
    if n < 0 {
        let mut text = "-".to_owned();
        proof {
            reveal_strlit("-");
        }
        append_decimal(&mut text, (-(n as i32)) as u128);
        assert(text@ =~= signed_decimal(n as int));
        text
    } else {
        decimal_string(n as u16)
    }
}

/// `v` as `0x` and four hexadecimal digits.
pub fn hex_string(v: u16) -> (text: String)
    ensures
        text@ == hex_word(v),
{
    let mut text = "0x".to_owned();
    proof {
        reveal_strlit("0x");
    }
    let w = v as u128;
    text.append(digit_str(w / 4096));
    text.append(digit_str((w / 256) % 16));
    text.append(digit_str((w / 16) % 16));
    text.append(digit_str(w % 16));
    assert(text@ =~= hex_word(v));
    text
}

/// `first`, then `second`.
fn joined(first: &str, second: String) -> (r: String)
    ensures
        r@ == first@ + second@,
{
    let mut r = first.to_owned();
    r.append(second.as_str());
    r
}

/// The text of the operand `value` and, in `*offset`, one more if the
/// operand has a next word.
pub fn value_str(cpu: &Machine, value: usize, offset: &mut u16, lvalue: bool, use_color: bool) -> (r:
    String)
    requires
        value <= 0x3f,
    ensures
        r@ == value_text(cpu@, value, *old(offset), lvalue, use_color),
        *final(offset) == if takes_next(value) { old(offset).wrapping_add(1) } else { *old(offset) },
{
    let next = cpu.mem[cpu.pc.wrapping_add(*offset) as usize];
    if value <= 0x07 {
        maybe_colorize(registry_str(value).to_owned(), COLOR_REGISTRY, use_color)
    } else if value <= 0x0f {
        let ss = maybe_colorize(registry_str(value - 0x08).to_owned(), COLOR_REGISTRY, use_color);
        let mut r = joined("[", ss);
        r.append("]");
        r
    } else if value <= 0x17 {
        let ss = maybe_colorize(registry_str(value - 0x10).to_owned(), COLOR_REGISTRY, use_color);
        let vv = maybe_colorize(decimal_string(next), COLOR_NUM_LITERAL, use_color);
        *offset = offset.wrapping_add(1);
        let mut r = joined("[", ss);
        r.append("+");
        r.append(vv.as_str());
        r.append("]");
        r
    } else if value == 0x18 {
        if lvalue {
            maybe_colorize("PUSH".to_owned(), COLOR_NAMED, use_color)
        } else {
            maybe_colorize("POP".to_owned(), COLOR_NAMED, use_color)
        }
    } else if value == 0x19 {
        maybe_colorize("PEEK".to_owned(), COLOR_NAMED, use_color)
    } else if value == 0x1a {
        *offset = offset.wrapping_add(1);
        maybe_colorize("PICK n".to_owned(), COLOR_NAMED, use_color)
    } else if value == 0x1b {
        maybe_colorize("SP".to_owned(), COLOR_NAMED, use_color)
    } else if value == 0x1c {
        maybe_colorize("PC".to_owned(), COLOR_NAMED, use_color)
    } else if value == 0x1d {
        maybe_colorize("EX".to_owned(), COLOR_NAMED, use_color)
    } else if value == 0x1e {
        let ss = maybe_colorize(hex_string(next), COLOR_NUM_LITERAL, use_color);
        *offset = offset.wrapping_add(1);
        let mut r = joined("[", ss);
        r.append("]");
        r
    } else if value == 0x1f {
        *offset = offset.wrapping_add(1);
        maybe_colorize(hex_string(next), COLOR_NUM_LITERAL, use_color)
    } else {
        maybe_colorize(
            signed_decimal_string((value as i16) - 0x21),
            COLOR_NUM_LITERAL,
            use_color,
        )
    }
}

/// The text for a word that is no instruction.
fn data_str(word: u16, use_color: bool) -> (r: String)
    ensures
        r@ == data_text(word, use_color),
{
    let mut r = maybe_colorize("DAT".to_owned(), COLOR_INSTRUCTION, use_color);
    let vv = maybe_colorize(hex_string(word), COLOR_NUM_LITERAL, use_color);
    r.append(" ");
    r.append(vv.as_str());
    r
}

/// The instruction at `pc`: its length in words and its text.
pub fn disassemble_instruction(cpu: &Machine, use_color: bool) -> (r: (u16, String))
    ensures
        r.0 == instruction_length(cpu@.mem[cpu@.pc as int]),
        r.1@ == instruction_text(cpu@, use_color),
{
    let mut offset = 1u16;
    let word = cpu.mem[cpu.pc as usize];
    let (opcode, id_b, id_a) = decode(word);
    if opcode == 0 {
        let s_a = value_str(cpu, id_a, &mut offset, false, use_color);
        match special_opcode_str(id_b) {
            Ok(s) => {
                let mut text = maybe_colorize(s.to_owned(), COLOR_INSTRUCTION, use_color);
                text.append(" ");
                text.append(s_a.as_str());
                (offset, text)
            },
            Err(_) => (offset, data_str(word, use_color)),
        }
    } else {
        let s_a = value_str(cpu, id_a, &mut offset, false, use_color);
        let s_b = value_str(cpu, id_b, &mut offset, true, use_color);
        match opcode_str(opcode) {
            Ok(s) => {
                let mut text = maybe_colorize(s.to_owned(), COLOR_INSTRUCTION, use_color);
                text.append(" ");
                text.append(s_b.as_str());
                text.append(", ");
                text.append(s_a.as_str());
                (offset, text)
            },
            Err(_) => (offset, data_str(word, use_color)),
        }
    }
}

} // verus!
