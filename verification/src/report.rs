//! Text for people: a token by name, an error with the line it is in.

use vstd::prelude::*;
use vstd::string::StringExecFns;
use crate::assembler::{error_text, format_error, AsmState, PCPU, ParsingError, TokenType};
use crate::dcpu::Machine;
use crate::disassembler::{append_decimal, decimal, digit_char, digit_str};
use crate::semantics::CpuState;

verus! {

/// `name`, then `n` in decimal between brackets.
pub open spec fn numbered_text(name: Seq<char>, n: nat) -> Seq<char> {
    name + "("@ + decimal(n) + ")"@
}

/// The name of a kind of token and, where it has one, the number it
/// carries, in brackets behind the name.
pub open spec fn token_text(ttype: TokenType) -> Seq<char> {
    match ttype {
        TokenType::NumericLiteral(i) => numbered_text("NumericLiteral"@, i as nat),
        TokenType::StringLiteral(i) => numbered_text("StringLiteral"@, i as nat),
        TokenType::BasicOpcode(i) => numbered_text("BasicOpcode"@, i as nat),
        TokenType::SpecialOpcode(i) => numbered_text("SpecialOpcode"@, i as nat),
        TokenType::DataOpcode => "DataOpcode"@,
        TokenType::Label(i) => numbered_text("Label"@, i as nat),
        TokenType::Registry(i) => numbered_text("Registry"@, i as nat),
        TokenType::Pick => "Pick"@,
        TokenType::Peek => "Peek"@,
        TokenType::Push => "Push"@,
        TokenType::Pop => "Pop"@,
        TokenType::PC => "PC"@,
        TokenType::SP => "SP"@,
        TokenType::EX => "EX"@,
        TokenType::Addition => "Addition"@,
        TokenType::LeftBracket => "LeftBracket"@,
        TokenType::RightBracket => "RightBracket"@,
        TokenType::Comma => "Comma"@,
        TokenType::Colon => "Colon"@,
    }
}

/// `name`, then `n` in decimal between brackets.
fn numbered(name: &str, n: u128) -> (r: String)
    ensures
        r@ == numbered_text(name@, n as nat),
{
    let mut r = name.to_owned();
    r.append("(");
    append_decimal(&mut r, n);
    r.append(")");
    r
}

impl TokenType {
    /// The token's kind by name, with the number it carries.
    pub fn describe(&self) -> (r: String)
        ensures
            r@ == token_text(*self),
    {
        match self {
            TokenType::NumericLiteral(i) => numbered("NumericLiteral", *i as u128),
            TokenType::StringLiteral(i) => numbered("StringLiteral", *i as u128),
            TokenType::BasicOpcode(i) => numbered("BasicOpcode", *i as u128),
            TokenType::SpecialOpcode(i) => numbered("SpecialOpcode", *i as u128),
            TokenType::DataOpcode => "DataOpcode".to_owned(),
            TokenType::Label(i) => numbered("Label", *i as u128),
            TokenType::Registry(i) => numbered("Registry", *i as u128),
            TokenType::Pick => "Pick".to_owned(),
            TokenType::Peek => "Peek".to_owned(),
            TokenType::Push => "Push".to_owned(),
            TokenType::Pop => "Pop".to_owned(),
            TokenType::PC => "PC".to_owned(),
            TokenType::SP => "SP".to_owned(),
            TokenType::EX => "EX".to_owned(),
            TokenType::Addition => "Addition".to_owned(),
            TokenType::LeftBracket => "LeftBracket".to_owned(),
            TokenType::RightBracket => "RightBracket".to_owned(),
            TokenType::Comma => "Comma".to_owned(),
            TokenType::Colon => "Colon".to_owned(),
        }
    }
}

/// `count` times `c`.
pub open spec fn repeated(c: char, count: nat) -> Seq<char> {
    Seq::new(count, |i: int| c)
}

/// The marker under the part of a line that an error refers to: blanks
/// up to the column, a caret in red, and a tilde for each further
/// character.
pub open spec fn marker(col: usize, len: usize) -> Seq<char> {
    repeated(' ', col as nat) + "\x1b[1;31m^"@ + repeated(
        '~',
        if len > 1 { (len - 1) as nat } else { 0 },
    ) + "\x1b[0m"@
}

/// The report of an error: a heading and the message; for an error in
/// a line also the line's number, counted from one, the line itself and
/// the marker under it. Every line of the report ends in a line feed.
pub open spec fn report_text(state: AsmState, line: Seq<char>, err: ParsingError) -> Seq<char> {
    let message = "\x1b[1;31merror:\x1b[1;37m "@ + error_text(err.etype, state) + "\x1b[0m\n"@;
    if err.global {
        "Parse failed\n"@ + message
    } else {
        "Parse failed\n:"@ + decimal((err.line + 1) as nat) + " "@ + message + line + "\n"@
            + marker(err.col, err.len) + "\n"@
    }
}

/// Appends `count` times the one character of `piece`.
fn append_repeated(text: &mut String, piece: &str, count: usize, Ghost(c): Ghost<char>)
    requires
        piece@ == seq![c],
    ensures
        final(text)@ == old(text)@ + repeated(c, count as nat),
{
    let mut i: usize = 0;
    assert(text@ =~= old(text)@ + repeated(c, 0));
    while i < count
        invariant
            i <= count,
            piece@ == seq![c],
            text@ == old(text)@ + repeated(c, i as nat),
        decreases count - i,
    {
        text.append(piece);
        assert(text@ =~= old(text)@ + repeated(c, (i + 1) as nat));
        i = i + 1;
    }
}

/// The report of the error `err`, which was found in `line`.
pub fn render_parse_error(cpu: &PCPU, line: &str, err: ParsingError) -> (text: String)
    ensures
        text@ == report_text(cpu@, line@, err),
{
    let message = format_error(&err.etype, cpu);
    if err.global {
        let mut text = "Parse failed\n".to_owned();
        text.append("\x1b[1;31merror:\x1b[1;37m ");
        text.append(message.as_str());
        text.append("\x1b[0m\n");
        assert(text@ =~= report_text(cpu@, line@, err));
        text
    } else {
        let mut text = "Parse failed\n:".to_owned();
        append_decimal(&mut text, err.line as u128 + 1);
        text.append(" ");
        text.append("\x1b[1;31merror:\x1b[1;37m ");
        text.append(message.as_str());
        text.append("\x1b[0m\n");
        text.append(line);
        text.append("\n");
        proof {
            reveal_strlit(" ");
            reveal_strlit("~");
            assert(" "@ =~= seq![' ']);
            assert("~"@ =~= seq!['~']);
        }
        append_repeated(&mut text, " ", err.col, Ghost(' '));
        text.append("\x1b[1;31m^");
        append_repeated(&mut text, "~", if err.len > 1 { err.len - 1 } else { 0 }, Ghost('~'));
        text.append("\x1b[0m");
        text.append("\n");
        assert(text@ =~= report_text(cpu@, line@, err));
        text
    }
}

/// `v` as four hexadecimal digits.
pub open spec fn hex4(v: u16) -> Seq<char> {
    seq![
        digit_char(v as int / 4096),
        digit_char((v as int / 256) % 16),
        digit_char((v as int / 16) % 16),
        digit_char(v as int % 16),
    ]
}

/// `n` in decimal, with blanks before it up to a width of `width`.
pub open spec fn padded_decimal(n: nat, width: nat) -> Seq<char> {
    let digits = decimal(n);
    if digits.len() >= width {
        digits
    } else {
        repeated(' ', (width - digits.len()) as nat) + digits
    }
}

/// The registers and the cycle counter, in four lines.
pub open spec fn register_text(cpu: CpuState) -> Seq<char> {
    "PC "@ + hex4(cpu.pc) + " SP "@ + hex4(cpu.sp) + " IA "@ + hex4(cpu.ia) + " EX "@ + hex4(cpu.ex)
        + "\nA  "@ + hex4(cpu.reg[0]) + " B  "@ + hex4(cpu.reg[1]) + " C  "@ + hex4(cpu.reg[2])
        + "\nX  "@ + hex4(cpu.reg[3]) + " Y  "@ + hex4(cpu.reg[4]) + " Z  "@ + hex4(cpu.reg[5])
        + "\nI  "@ + hex4(cpu.reg[6]) + " J  "@ + hex4(cpu.reg[7]) + "                cycles: "@
        + padded_decimal(cpu.cycle as nat, 6) + "\n"@
}

/// The word at `addr` and a blank; the word at `pc` is shown in green.
pub open spec fn cell_text(cpu: CpuState, addr: int) -> Seq<char> {
    if cpu.pc == addr {
        "\x1b[32m"@ + hex4(cpu.mem[addr]) + "\x1b[0m "@
    } else {
        hex4(cpu.mem[addr]) + " "@
    }
}

/// The first `count` words of the row of eight that starts at `start`.
pub open spec fn cells_text(cpu: CpuState, start: int, count: nat) -> Seq<char>
    decreases count,
{
    if count == 0 {
        Seq::empty()
    } else {
        cells_text(cpu, start, (count - 1) as nat) + cell_text(cpu, start + count - 1)
    }
}

/// Row `row` of memory: its address, a colon and its eight words.
pub open spec fn row_text(cpu: CpuState, row: int) -> Seq<char> {
    hex4((row * 8) as u16) + ": "@ + cells_text(cpu, row * 8, 8) + "\n"@
}

/// The first of the three rows of memory that are shown: the one
/// before the row of `pc`, but not before the first row nor so that the
/// third would lie behind the last.
pub open spec fn first_row(pc: u16) -> int {
    if pc / 8 < 1 {
        0
    } else if pc / 8 >= 8191 {
        8189
    } else {
        pc / 8 - 1
    }
}

/// The state of the machine as text: the registers and the three rows
/// of memory around `pc`.
pub open spec fn state_text(cpu: CpuState) -> Seq<char> {
    register_text(cpu) + row_text(cpu, first_row(cpu.pc)) + row_text(cpu, first_row(cpu.pc) + 1)
        + row_text(cpu, first_row(cpu.pc) + 2)
}

/// Appends `v` as four hexadecimal digits.
fn append_hex4(text: &mut String, v: u16)
    ensures
        final(text)@ == old(text)@ + hex4(v),
{
    let w = v as u128;
    text.append(digit_str(w / 4096));
    text.append(digit_str((w / 256) % 16));
    text.append(digit_str((w / 16) % 16));
    text.append(digit_str(w % 16));
    assert(text@ =~= old(text)@ + hex4(v));
}

/// The number of digits of `n` in decimal.
fn decimal_width(n: u128) -> (width: u128)
    ensures
        width == decimal(n as nat).len(),
        1 <= width <= n + 1,
    decreases n,
{
    if n < 10 {
        1
    } else {
        decimal_width(n / 10) + 1
    }
}

/// Appends `n` in decimal, with blanks before it up to a width of six.
fn append_padded(text: &mut String, n: u128)
    ensures
        final(text)@ == old(text)@ + padded_decimal(n as nat, 6),
{
    let width = decimal_width(n);
    proof {
        reveal_strlit(" ");
        assert(" "@ =~= seq![' ']);
    }
    if width < 6 {
        append_repeated(text, " ", (6 - width) as usize, Ghost(' '));
    }
    append_decimal(text, n);
    assert(text@ =~= old(text)@ + padded_decimal(n as nat, 6));
}

/// Appends row `row` of memory.
fn append_row(text: &mut String, cpu: &Machine, row: usize)
    requires
        row < 8192,
    ensures
        final(text)@ == old(text)@ + row_text(cpu@, row as int),
{
    append_hex4(text, (row * 8) as u16);
    text.append(": ");
    let ghost start = text@;
    let mut j: usize = 0;
    assert(text@ =~= start + cells_text(cpu@, row * 8, 0));
    while j < 8
        invariant
            j <= 8,
            row < 8192,
            text@ == start + cells_text(cpu@, row * 8, j as nat),
        decreases 8 - j,
    {
        let addr = row * 8 + j;
        if cpu.pc as usize == addr {
            text.append("\x1b[32m");
            append_hex4(text, cpu.mem[addr]);
            text.append("\x1b[0m ");
        } else {
            append_hex4(text, cpu.mem[addr]);
            text.append(" ");
        }
        assert(text@ =~= start + cells_text(cpu@, row * 8, (j + 1) as nat));
        j = j + 1;
    }
    text.append("\n");
    assert(text@ =~= old(text)@ + row_text(cpu@, row as int));
}

/// The state of the machine as text.
pub fn render_state(cpu: &Machine) -> (text: String)
    ensures
        text@ == state_text(cpu@),
{
    let mut text = "PC ".to_owned();
    append_hex4(&mut text, cpu.pc);
    text.append(" SP ");
    append_hex4(&mut text, cpu.sp);
    text.append(" IA ");
    append_hex4(&mut text, cpu.ia);
    text.append(" EX ");
    append_hex4(&mut text, cpu.ex);
    text.append("\nA  ");
    append_hex4(&mut text, cpu.reg[0]);
    text.append(" B  ");
    append_hex4(&mut text, cpu.reg[1]);
    text.append(" C  ");
    append_hex4(&mut text, cpu.reg[2]);
    text.append("\nX  ");
    append_hex4(&mut text, cpu.reg[3]);
    text.append(" Y  ");
    append_hex4(&mut text, cpu.reg[4]);
    text.append(" Z  ");
    append_hex4(&mut text, cpu.reg[5]);
    text.append("\nI  ");
    append_hex4(&mut text, cpu.reg[6]);
    text.append(" J  ");
    append_hex4(&mut text, cpu.reg[7]);
    text.append("                cycles: ");
    append_padded(&mut text, cpu.cycle as u128);
    text.append("\n");
    assert(text@ =~= register_text(cpu@));
    let cur_row = (cpu.pc / 8) as usize;
    let from = if cur_row < 1 {
        0
    } else if cur_row >= 8191 {
        8189
    } else {
        cur_row - 1
    };
    append_row(&mut text, cpu, from);
    append_row(&mut text, cpu, from + 1);
    append_row(&mut text, cpu, from + 2);
    assert(text@ =~= state_text(cpu@));
    text
}

} // verus!
