//! The assembler: its state, its tokens and errors, and the two passes
//! that turn lines of assembly into a memory image.

use vstd::prelude::*;
use vstd::string::StringExecFns;

pub use crate::lexer::tokenize;
pub use crate::parser::parse;

verus! {

/// What a token is. Numbers carry their value, string literals and
/// labels the index under which the assembler state holds them, opcodes
/// their code, registers their number.
#[derive(Clone, Copy, PartialEq, Eq, Structural, Debug)]
pub enum TokenType {
    NumericLiteral(u16),
    StringLiteral(u16),
    BasicOpcode(usize),
    SpecialOpcode(usize),
    DataOpcode,
    Label(u16),
    Registry(u16),
    Pick,
    Peek,
    Push,
    Pop,
    PC,
    SP,
    EX,
    Addition,
    LeftBracket,
    RightBracket,
    Comma,
    Colon,
}

/// A token with the column where it starts and its length.
#[derive(Clone, Copy, PartialEq, Eq, Structural, Debug)]
pub struct Token {
    pub ttype: TokenType,
    pub col: usize,
    pub len: usize,
}

/// Why a line could not be assembled.
#[derive(Clone, Copy, PartialEq, Eq, Structural, Debug)]
pub enum ParsingErrorType {
    InvalidLiteral,
    UnclosedStringLiteral,
    IllegalCharacter,
    IllegalLineStart,
    IllegalLvalue,
    ExpectingComma,
    ExpectingOperand,
    ExpectingLiteral,
    ExpectingRightBracket,
    ExpectingLabel,
    EndOfTokens,
    ExtraTokens,
    IncorrectPushPop,
    UnknownLabel(u16),
    /// More than 65536 labels or more than 65536 string literals.
    TooManySymbols,
}

/// An error with the place it refers to: line, column and length.
#[derive(Clone, Copy, PartialEq, Eq, Structural, Debug)]
pub struct ParsingError {
    pub line: usize,
    pub col: usize,
    pub len: usize,
    pub global: bool,
    pub etype: ParsingErrorType,
}

/// A label: its name, the address it is bound to once it has been
/// defined, and where it was first seen.
pub struct Label {
    pub name: String,
    pub addr: Option<u16>,
    pub line: usize,
    pub col: usize,
    pub len: usize,
}

/// The view of a [`Label`].
pub struct LabelModel {
    pub name: Seq<char>,
    pub addr: Option<u16>,
    pub line: usize,
    pub col: usize,
    pub len: usize,
}

impl View for Label {
    type V = LabelModel;

    open spec fn view(&self) -> LabelModel {
        LabelModel {
            name: self.name@,
            addr: self.addr,
            line: self.line,
            col: self.col,
            len: self.len,
        }
    }
}

/// An emitted word that waits for the address of a label: the word's
/// address, the label, and what is to be added to the label's address.
#[derive(Clone, Copy, PartialEq, Eq, Structural, Debug)]
pub struct UnassignedLabel {
    pub addr: u16,
    pub label: u16,
    pub offset: u16,
}

/// The state of an assembly: the image, the next address to emit at, and
/// the tables of labels, of words to patch and of string literals.
pub struct PCPU {
    pub mem: [u16; 0x10000],
    pub pc: u16,
    /// The labels; a label's identifier is its index.
    pub labels: Vec<Label>,
    pub unassigned_addresses: Vec<UnassignedLabel>,
    /// The decoded string literals; a literal's identifier is its index.
    pub string_literals: Vec<Vec<char>>,
}

/// The view of a [`PCPU`].
pub struct AsmState {
    pub mem: Seq<u16>,
    pub pc: u16,
    pub labels: Seq<LabelModel>,
    pub unresolved: Seq<UnassignedLabel>,
    pub strings: Seq<Seq<char>>,
}

/// The views of the labels of a table.
pub open spec fn label_models(labels: Seq<Label>) -> Seq<LabelModel> {
    Seq::new(labels.len(), |i: int| labels[i]@)
}

/// The string literals of a table as sequences of characters.
pub open spec fn texts(strings: Seq<Vec<char>>) -> Seq<Seq<char>> {
    Seq::new(strings.len(), |i: int| strings[i]@)
}

impl View for PCPU {
    type V = AsmState;

    open spec fn view(&self) -> AsmState {
        AsmState {
            mem: self.mem@,
            pc: self.pc,
            labels: label_models(self.labels@),
            unresolved: self.unassigned_addresses@,
            strings: texts(self.string_literals@),
        }
    }
}

/// The largest number of labels, and of string literals, that an
/// assembly can hold: their identifiers are 16-bit.
pub const SYMBOL_LIMIT: usize = 0x10000;

impl AsmState {
    /// The state of an assembly that has not begun.
    pub open spec fn initial() -> AsmState {
        AsmState {
            mem: Seq::new(0x10000, |i: int| 0u16),
            pc: 0,
            labels: Seq::empty(),
            unresolved: Seq::empty(),
            strings: Seq::empty(),
        }
    }

    /// The image has its size.
    pub open spec fn well_formed(self) -> bool {
        self.mem.len() == 0x10000
    }

    /// The index of the first label called `name`, looking from `from` on.
    pub open spec fn find_label_from(self, name: Seq<char>, from: int) -> Option<int>
        decreases self.labels.len() - from,
    {
        if from < 0 || from >= self.labels.len() {
            None
        } else if self.labels[from].name == name {
            Some(from)
        } else {
            self.find_label_from(name, from + 1)
        }
    }

    /// The identifier of the label called `name`, if there is one.
    pub open spec fn find_label(self, name: Seq<char>) -> Option<int> {
        self.find_label_from(name, 0)
    }

    /// The address that label `id` is bound to, if it is defined.
    pub open spec fn label_addr(self, id: u16) -> Option<u16> {
        if id < self.labels.len() {
            self.labels[id as int].addr
        } else {
            None
        }
    }

    /// A new label at the end of the table, first seen at the given place.
    pub open spec fn with_new_label(self, name: Seq<char>, line: usize, col: usize, len: usize) -> AsmState {
        AsmState {
            labels: self.labels.push(LabelModel { name, addr: None, line, col, len }),
            ..self
        }
    }

    /// A new string literal at the end of the table.
    pub open spec fn with_new_string(self, text: Seq<char>) -> AsmState {
        AsmState { strings: self.strings.push(text), ..self }
    }

    /// `word` emitted at `pc`, which moves on by one and wraps at the end
    /// of memory.
    pub open spec fn emit(self, word: u16) -> AsmState {
        AsmState { mem: self.mem.update(self.pc as int, word), pc: self.pc.wrapping_add(1), ..self }
    }
}

/// The first `count` words of `mem` as bytes, the high byte of each
/// word first.
pub open spec fn image_bytes(mem: Seq<u16>, count: nat) -> Seq<u8> {
    Seq::new(
        2 * count,
        |k: int| if k % 2 == 0 { (mem[k / 2] / 256) as u8 } else { (mem[k / 2] % 256) as u8 },
    )
}

impl PCPU {
    /// The assembled image, from address zero up to `pc`, as the bytes
    /// of a binary file.
    pub fn to_bytes(&self) -> (bytes: Vec<u8>)
        ensures
            bytes@ == image_bytes(self@.mem, self@.pc as nat),
    {
        let mut bytes: Vec<u8> = Vec::new();
        let mut i: usize = 0;
        while i < self.pc as usize
            invariant
                i <= self.pc,
                bytes@ == image_bytes(self@.mem, i as nat),
            decreases self.pc - i,
        {
            let v = self.mem[i];
            bytes.push((v / 256) as u8);
            bytes.push((v % 256) as u8);
            assert(bytes@ =~= image_bytes(self@.mem, (i + 1) as nat));
            i = i + 1;
        }
        bytes
    }

    /// The state of an assembly that has not begun: an image of zeros
    /// and empty tables.
    pub fn new() -> (cpu: PCPU)
        ensures
            cpu@ == AsmState::initial(),
    {
        let cpu = PCPU {
            mem: [0u16; 0x10000],
            pc: 0,
            labels: Vec::new(),
            unassigned_addresses: Vec::new(),
            string_literals: Vec::new(),
        };
        assert forall|i: int| 0 <= i < 0x10000 implies #[trigger] cpu.mem@[i] == 0u16 by {
        }
        assert(cpu@.mem =~= AsmState::initial().mem);
        assert(cpu@.labels =~= AsmState::initial().labels);
        assert(cpu@.strings =~= AsmState::initial().strings);
        cpu
    }

    /// Emits `word` at `pc`.
    pub fn emit(&mut self, word: u16)
        ensures
            final(self)@ == old(self)@.emit(word),
    {
        self.mem[self.pc as usize] = word;
        self.pc = self.pc.wrapping_add(1);
    }
}

/// The message for an error of kind `etype`. For an unknown label it
/// names the label.
pub open spec fn error_text(etype: ParsingErrorType, state: AsmState) -> Seq<char> {
    match etype {
        ParsingErrorType::InvalidLiteral => "Invalid literal"@,
        ParsingErrorType::UnclosedStringLiteral => "Unclosed string literal"@,
        ParsingErrorType::IllegalCharacter => "Illegal character"@,
        ParsingErrorType::IllegalLineStart => "Line must start with an instruction or a label"@,
        ParsingErrorType::IllegalLvalue => "Illegal L-value; unable to assign to numeric literal"@,
        ParsingErrorType::ExpectingComma => "Expecting comma"@,
        ParsingErrorType::ExpectingOperand => "Expecting operand"@,
        ParsingErrorType::ExpectingLiteral => "Expecting literal or label"@,
        ParsingErrorType::ExpectingRightBracket => "Expecting closing bracket"@,
        ParsingErrorType::ExpectingLabel => "Expecting label name"@,
        ParsingErrorType::EndOfTokens => "Expecting more tokens after this one"@,
        ParsingErrorType::ExtraTokens => "Extra tokens found after successfully parsed line"@,
        ParsingErrorType::IncorrectPushPop => "Push cannot be used as a-operand / Pop cannot be used as b-operand"@,
        ParsingErrorType::UnknownLabel(label) => if label < state.labels.len() {
            "Label definition not found: "@ + state.labels[label as int].name
        } else {
            "Unknown label definition not found"@
        },
        ParsingErrorType::TooManySymbols => "Too many labels or string literals"@,
    }
}

/// The message for an error of kind `etype`.
pub fn format_error(etype: &ParsingErrorType, cpu: &PCPU) -> (text: String)
    ensures
        text@ == error_text(*etype, cpu@),
{
    match etype {
        ParsingErrorType::InvalidLiteral => "Invalid literal".to_owned(),
        ParsingErrorType::UnclosedStringLiteral => "Unclosed string literal".to_owned(),
        ParsingErrorType::IllegalCharacter => "Illegal character".to_owned(),
        ParsingErrorType::IllegalLineStart => "Line must start with an instruction or a label".to_owned(),
        ParsingErrorType::IllegalLvalue => "Illegal L-value; unable to assign to numeric literal".to_owned(),
        ParsingErrorType::ExpectingComma => "Expecting comma".to_owned(),
        ParsingErrorType::ExpectingOperand => "Expecting operand".to_owned(),
        ParsingErrorType::ExpectingLiteral => "Expecting literal or label".to_owned(),
        ParsingErrorType::ExpectingRightBracket => "Expecting closing bracket".to_owned(),
        ParsingErrorType::ExpectingLabel => "Expecting label name".to_owned(),
        ParsingErrorType::EndOfTokens => "Expecting more tokens after this one".to_owned(),
        ParsingErrorType::ExtraTokens => "Extra tokens found after successfully parsed line".to_owned(),
        ParsingErrorType::IncorrectPushPop => "Push cannot be used as a-operand / Pop cannot be used as b-operand".to_owned(),
        ParsingErrorType::UnknownLabel(label) => {
            if (*label as usize) < cpu.labels.len() {
                let mut text = "Label definition not found: ".to_owned();
                text.append(cpu.labels[*label as usize].name.as_str());
                text
            } else {
                "Unknown label definition not found".to_owned()
            }
        },
        ParsingErrorType::TooManySymbols => "Too many labels or string literals".to_owned(),
    }
}

} // verus!
