//! The tokenizer: one line of assembly to its tokens.

use vstd::prelude::*;
use vstd::string::StrSliceExecFns;
use crate::assembler::{
    AsmState, Label, PCPU, ParsingError, ParsingErrorType, Token, TokenType, SYMBOL_LIMIT,
};
use crate::instructions::{
    ADD, ADX, AND, ASR, BOR, DIV, DVI, HWI, HWN, HWQ, IAG, IAQ, IAS, IFA, IFB, IFC, IFE, IFG, IFL,
    IFN, IFU, INT, JSR, MDI, MLI, MOD, MUL, OUT, RFI, SBX, SET, SHL, SHR, STD, STI, SUB, XOR,
};
use crate::alu::wrap16;

verus! {

/// Letters, digits and the underscore: what a name or a number is made of.
pub open spec fn is_label_char(c: char) -> bool {
    ('A' <= c && c <= 'Z') || ('a' <= c && c <= 'z') || c == '_' || ('0' <= c && c <= '9')
}

/// The number of the register that the letter names, in either case.
pub open spec fn register_of(c: char) -> Option<u16> {
    if c == 'A' || c == 'a' {
        Some(0u16)
    } else if c == 'B' || c == 'b' {
        Some(1u16)
    } else if c == 'C' || c == 'c' {
        Some(2u16)
    } else if c == 'X' || c == 'x' {
        Some(3u16)
    } else if c == 'Y' || c == 'y' {
        Some(4u16)
    } else if c == 'Z' || c == 'z' {
        Some(5u16)
    } else if c == 'I' || c == 'i' {
        Some(6u16)
    } else if c == 'J' || c == 'j' {
        Some(7u16)
    } else {
        None
    }
}

/// Whether `c` is the capital letter `upper` or its small form.
pub open spec fn same_letter(c: char, upper: char) -> bool {
    c == upper || c as u32 == upper as u32 + 32
}

/// Whether `word` spells `name`, which is in capitals, in any mix of cases.
pub open spec fn word_is(word: Seq<char>, name: Seq<char>) -> bool {
    word.len() == name.len() && forall|k: int|
        0 <= k < name.len() ==> same_letter(#[trigger] word[k], name[k])
}

/// The reserved word that `word` spells, if any.
pub open spec fn keyword_of(word: Seq<char>) -> Option<TokenType> {
    if word_is(word, "PICK"@) {
        Some(TokenType::Pick)
    } else if word_is(word, "PEEK"@) {
        Some(TokenType::Peek)
    } else if word_is(word, "PUSH"@) {
        Some(TokenType::Push)
    } else if word_is(word, "POP"@) {
        Some(TokenType::Pop)
    } else if word_is(word, "PC"@) {
        Some(TokenType::PC)
    } else if word_is(word, "SP"@) {
        Some(TokenType::SP)
    } else if word_is(word, "EX"@) {
        Some(TokenType::EX)
    } else {
        None
    }
}

/// The code of the basic instruction that `word` spells, if any.
pub open spec fn basic_opcode_of(word: Seq<char>) -> Option<usize> {
    if word_is(word, "SET"@) {
        Some(SET)
    } else if word_is(word, "ADD"@) {
        Some(ADD)
    } else if word_is(word, "SUB"@) {
        Some(SUB)
    } else if word_is(word, "MUL"@) {
        Some(MUL)
    } else if word_is(word, "MLI"@) {
        Some(MLI)
    } else if word_is(word, "DIV"@) {
        Some(DIV)
    } else if word_is(word, "DVI"@) {
        Some(DVI)
    } else if word_is(word, "MOD"@) {
        Some(MOD)
    } else if word_is(word, "MDI"@) {
        Some(MDI)
    } else if word_is(word, "AND"@) {
        Some(AND)
    } else if word_is(word, "BOR"@) {
        Some(BOR)
    } else if word_is(word, "XOR"@) {
        Some(XOR)
    } else if word_is(word, "SHR"@) {
        Some(SHR)
    } else if word_is(word, "ASR"@) {
        Some(ASR)
    } else if word_is(word, "SHL"@) {
        Some(SHL)
    } else if word_is(word, "IFB"@) {
        Some(IFB)
    } else if word_is(word, "IFC"@) {
        Some(IFC)
    } else if word_is(word, "IFE"@) {
        Some(IFE)
    } else if word_is(word, "IFN"@) {
        Some(IFN)
    } else if word_is(word, "IFG"@) {
        Some(IFG)
    } else if word_is(word, "IFA"@) {
        Some(IFA)
    } else if word_is(word, "IFL"@) {
        Some(IFL)
    } else if word_is(word, "IFU"@) {
        Some(IFU)
    } else if word_is(word, "ADX"@) {
        Some(ADX)
    } else if word_is(word, "SBX"@) {
        Some(SBX)
    } else if word_is(word, "STI"@) {
        Some(STI)
    } else if word_is(word, "STD"@) {
        Some(STD)
    } else {
        None
    }
}

/// The code of the special instruction that `word` spells, if any.
pub open spec fn special_opcode_of(word: Seq<char>) -> Option<usize> {
    if word_is(word, "JSR"@) {
        Some(JSR)
    } else if word_is(word, "INT"@) {
        Some(INT)
    } else if word_is(word, "IAG"@) {
        Some(IAG)
    } else if word_is(word, "IAS"@) {
        Some(IAS)
    } else if word_is(word, "RFI"@) {
        Some(RFI)
    } else if word_is(word, "IAQ"@) {
        Some(IAQ)
    } else if word_is(word, "HWN"@) {
        Some(HWN)
    } else if word_is(word, "HWQ"@) {
        Some(HWQ)
    } else if word_is(word, "HWI"@) {
        Some(HWI)
    } else if word_is(word, "OUT"@) {
        Some(OUT)
    } else {
        None
    }
}

/// What a word is when it is no label: a register, a reserved word, an
/// opcode or `DAT`, tried in that order.
pub open spec fn fixed_word(word: Seq<char>) -> Option<TokenType> {
    if word.len() == 1 && register_of(word[0]) is Some {
        Some(TokenType::Registry(register_of(word[0])->0))
    } else if keyword_of(word) is Some {
        keyword_of(word)
    } else if basic_opcode_of(word) is Some {
        Some(TokenType::BasicOpcode(basic_opcode_of(word)->0))
    } else if special_opcode_of(word) is Some {
        Some(TokenType::SpecialOpcode(special_opcode_of(word)->0))
    } else if word_is(word, "DAT"@) {
        Some(TokenType::DataOpcode)
    } else {
        None
    }
}

/// The first index from `i` on that holds no label character, or the
/// length of the line.
pub open spec fn word_end(line: Seq<char>, i: int) -> int
    decreases line.len() - i,
{
    if 0 <= i < line.len() && is_label_char(line[i]) {
        word_end(line, i + 1)
    } else {
        i
    }
}

/// The character that follows a backslash in a string literal stands
/// for; `None` for a character that stands for nothing, which is dropped
/// together with the backslash.
pub open spec fn unescape(c: char) -> Option<char> {
    if c == 'n' {
        Some('\n')
    } else if c == 'r' {
        Some('\r')
    } else if c == 't' {
        Some('\t')
    } else if c == '"' {
        Some('"')
    } else if c == '\\' {
        Some('\\')
    } else {
        None
    }
}

/// How the scan of a string literal ended: the decoded text, whether the
/// closing quote was found, and where (the index of that quote, or the
/// length of the line).
pub struct StringScan {
    pub text: Seq<char>,
    pub closed: bool,
    pub end: int,
}

/// Scans a string literal from index `i`, which is past the opening
/// quote. `escaped` says that the character before was a backslash;
/// `text` is what has been decoded so far.
pub open spec fn scan_string(line: Seq<char>, i: int, escaped: bool, text: Seq<char>) -> StringScan
    decreases line.len() - i,
{
    if i < 0 || i >= line.len() {
        StringScan { text, closed: false, end: i }
    } else if escaped {
        match unescape(line[i]) {
            Some(c) => scan_string(line, i + 1, false, text.push(c)),
            None => scan_string(line, i + 1, false, text),
        }
    } else if line[i] == '"' {
        StringScan { text, closed: true, end: i }
    } else if line[i] == '\\' {
        scan_string(line, i + 1, true, text)
    } else {
        scan_string(line, i + 1, false, text.push(line[i]))
    }
}

/// The value of the digit `c` in base `radix` (10 or 16), if it is one.
pub open spec fn digit_of(c: char, radix: int) -> Option<int> {
    if '0' <= c && c <= '9' {
        Some(c as int - '0' as int)
    } else if radix == 16 && 'a' <= c && c <= 'f' {
        Some(c as int - 'a' as int + 10)
    } else if radix == 16 && 'A' <= c && c <= 'F' {
        Some(c as int - 'A' as int + 10)
    } else {
        None
    }
}

/// Whether every character is a digit of base `radix`.
pub open spec fn digits_valid(digits: Seq<char>, radix: int) -> bool {
    forall|k: int| 0 <= k < digits.len() ==> (#[trigger] digit_of(digits[k], radix)) is Some
}

/// The number that the digits denote in base `radix`.
pub open spec fn digits_number(digits: Seq<char>, radix: int) -> int
    decreases digits.len(),
{
    if digits.len() == 0 {
        0
    } else {
        digits_number(digits.drop_last(), radix) * radix + match digit_of(digits.last(), radix) {
            Some(d) => d,
            None => 0,
        }
    }
}

/// The number that a literal's digits denote: there is at least one
/// digit, each is a digit of the base, and the number is not above the
/// largest `isize`.
pub open spec fn literal_value(digits: Seq<char>, radix: int) -> Option<int> {
    if digits.len() > 0 && digits_valid(digits, radix) && digits_number(digits, radix)
        <= isize::MAX {
        Some(digits_number(digits, radix))
    } else {
        None
    }
}

/// What stands at one position of a line.
pub enum Scan {
    /// The line, or its part before a comment, has ended.
    End,
    /// White space; scanning goes on at `next`.
    Blank { next: int },
    /// A token; scanning goes on at `next`, with the tables as in `state`.
    Found { token: Token, next: int, state: AsmState },
    /// Something that is no token.
    Failed { error: ParsingError },
}

pub open spec fn error_at(line_no: usize, col: int, len: int, etype: ParsingErrorType) -> ParsingError {
    ParsingError { line: line_no, col: col as usize, len: len as usize, global: false, etype }
}

pub open spec fn token_at(ttype: TokenType, col: int, len: int) -> Token {
    Token { ttype, col: col as usize, len: len as usize }
}

/// The numeric literal that starts at `i` with a digit or a minus sign.
///
/// After an optional `-` and an optional `0x` or `0X` come the digits,
/// up to the first character that is no label character. The token's
/// value is the number, negated after `-`, modulo 2^16; its length counts
/// the sign and the digits, not the prefix.
pub open spec fn scan_number(line_no: usize, line: Seq<char>, i: int, state: AsmState) -> Scan {
    let minus = line[i] == '-';
    let p = if minus { i + 1 } else { i };
    let hex = p + 1 < line.len() && line[p] == '0' && (line[p + 1] == 'x' || line[p + 1] == 'X');
    let first = if hex { p + 2 } else { p };
    let end = word_end(line, first);
    let sign_len: int = if minus { 1 } else { 0 };
    match literal_value(line.subrange(first, end), if hex { 16 } else { 10 }) {
        Some(v) => Scan::Found {
            token: token_at(
                TokenType::NumericLiteral(wrap16(if minus { -v } else { v })),
                i,
                end - first + sign_len,
            ),
            next: end,
            state,
        },
        None => Scan::Failed {
            error: error_at(
                line_no,
                i,
                if end < line.len() { end - 1 - i } else { end - i },
                ParsingErrorType::InvalidLiteral,
            ),
        },
    }
}

/// The string literal whose opening quote is at `i`. Its token's length
/// is that of the decoded text and two more.
pub open spec fn scan_literal(line_no: usize, line: Seq<char>, i: int, state: AsmState) -> Scan {
    let s = scan_string(line, i + 1, false, Seq::empty());
    if !s.closed {
        Scan::Failed {
            error: error_at(
                line_no,
                i,
                (s.text.len() + 1) as int,
                ParsingErrorType::UnclosedStringLiteral,
            ),
        }
    } else if state.strings.len() >= SYMBOL_LIMIT {
        Scan::Failed {
            error: error_at(
                line_no,
                i,
                (s.text.len() + 2) as int,
                ParsingErrorType::TooManySymbols,
            ),
        }
    } else {
        Scan::Found {
            token: token_at(
                TokenType::StringLiteral(state.strings.len() as u16),
                i,
                (s.text.len() + 2) as int,
            ),
            next: s.end + 1,
            state: state.with_new_string(s.text),
        }
    }
}

/// The word that starts at `i`: a register, a reserved word, an opcode,
/// `DAT`, or else a label, which gets the next free identifier when its
/// name is seen for the first time.
pub open spec fn scan_word(line_no: usize, line: Seq<char>, i: int, state: AsmState) -> Scan {
    let end = word_end(line, i);
    let word = line.subrange(i, end);
    if end == i {
        Scan::Failed { error: error_at(line_no, i, 0, ParsingErrorType::IllegalCharacter) }
    } else if fixed_word(word) is Some {
        Scan::Found { token: token_at(fixed_word(word)->0, i, end - i), next: end, state }
    } else {
        match state.find_label(word) {
            Some(id) => Scan::Found {
                token: token_at(TokenType::Label(id as u16), i, end - i),
                next: end,
                state,
            },
            None => if state.labels.len() >= SYMBOL_LIMIT {
                Scan::Failed {
                    error: error_at(line_no, i, end - i, ParsingErrorType::TooManySymbols),
                }
            } else {
                Scan::Found {
                    token: token_at(TokenType::Label(state.labels.len() as u16), i, end - i),
                    next: end,
                    state: state.with_new_label(word, line_no, i as usize, (end - i) as usize),
                }
            },
        }
    }
}

/// What stands at index `i` of `line`.
pub open spec fn scan(line_no: usize, line: Seq<char>, i: int, state: AsmState) -> Scan {
    if i < 0 || i >= line.len() {
        Scan::End
    } else {
        let c = line[i];
        if c == '[' {
            Scan::Found { token: token_at(TokenType::LeftBracket, i, 1), next: i + 1, state }
        } else if c == ']' {
            Scan::Found { token: token_at(TokenType::RightBracket, i, 1), next: i + 1, state }
        } else if c == '+' {
            Scan::Found { token: token_at(TokenType::Addition, i, 1), next: i + 1, state }
        } else if c == ',' {
            Scan::Found { token: token_at(TokenType::Comma, i, 1), next: i + 1, state }
        } else if c == ':' {
            Scan::Found { token: token_at(TokenType::Colon, i, 1), next: i + 1, state }
        } else if c == ';' {
            Scan::End
        } else if c == '"' {
            scan_literal(line_no, line, i, state)
        } else if ('0' <= c && c <= '9') || c == '-' {
            scan_number(line_no, line, i, state)
        } else if c == ' ' || c == '\n' || c == '\r' || c == '\t' {
            Scan::Blank { next: i + 1 }
        } else {
            scan_word(line_no, line, i, state)
        }
    }
}

/// The outcome of tokenizing: the tables afterwards, and the tokens or
/// the error.
pub struct Lexed {
    pub state: AsmState,
    pub result: Result<Seq<Token>, ParsingError>,
}

/// The tokens of `line` from index `i` on, after the tokens `found`. The
/// tables keep what was entered before an error.
pub open spec fn tokens_from(
    line_no: usize,
    line: Seq<char>,
    i: int,
    found: Seq<Token>,
    state: AsmState,
) -> Lexed
    decreases line.len() - i,
{
    if i < 0 || i >= line.len() {
        Lexed { state, result: Ok(found) }
    } else {
        match scan(line_no, line, i, state) {
            Scan::End => Lexed { state, result: Ok(found) },
            Scan::Blank { next } => if i < next {
                tokens_from(line_no, line, next, found, state)
            } else {
                Lexed { state, result: Ok(found) }
            },
            Scan::Found { token, next, state: after } => if i < next <= line.len() {
                tokens_from(line_no, line, next, found.push(token), after)
            } else {
                Lexed { state: after, result: Ok(found.push(token)) }
            },
            Scan::Failed { error } => Lexed { state, result: Err(error) },
        }
    }
}

/// The tokens of `line`, which is line `line_no`, or the first error in it.
pub open spec fn tokens_of(line_no: usize, line: Seq<char>, state: AsmState) -> Lexed {
    tokens_from(line_no, line, 0, Seq::empty(), state)
}

/// Whether `c` may stand in a name or a number.
pub fn legal_label_char(c: char) -> (r: bool)
    ensures
        r == is_label_char(c),
{
    ('A' <= c && c <= 'Z') || ('a' <= c && c <= 'z') || c == '_' || ('0' <= c && c <= '9')
}

/// The number of the register that `c` names, or -1.
pub fn registry_char(c: char) -> (r: isize)
    ensures
        r == match register_of(c) {
            Some(n) => n as int,
            None => -1,
        },
{
    if c == 'A' || c == 'a' {
        0
    } else if c == 'B' || c == 'b' {
        1
    } else if c == 'C' || c == 'c' {
        2
    } else if c == 'X' || c == 'x' {
        3
    } else if c == 'Y' || c == 'y' {
        4
    } else if c == 'Z' || c == 'z' {
        5
    } else if c == 'I' || c == 'i' {
        6
    } else if c == 'J' || c == 'j' {
        7
    } else {
        -1
    }
}

/// Whether `word` spells `name` in any mix of cases.
fn spells(word: &str, name: &str) -> (r: bool)
    ensures
        r == word_is(word@, name@),
{
    let n = name.unicode_len();
    if word.unicode_len() != n {
        return false;
    }
    let mut k: usize = 0;
    while k < n
        invariant
            k <= n,
            n == name@.len(),
            n == word@.len(),
            forall|j: int| 0 <= j < k ==> same_letter(#[trigger] word@[j], name@[j]),
        decreases n - k,
    {
        let c = word.get_char(k);
        let u = name.get_char(k);
        if !(c == u || c as u32 == u as u32 + 32) {
            assert(!same_letter(word@[k as int], name@[k as int]));
            return false;
        }
        k = k + 1;
    }
    true
}

/// The reserved word that `s` spells, if any.
pub fn keyword_token(s: &str) -> (r: Option<TokenType>)
    ensures
        r == keyword_of(s@),
{
    if spells(s, "PICK") {
        Some(TokenType::Pick)
    } else if spells(s, "PEEK") {
        Some(TokenType::Peek)
    } else if spells(s, "PUSH") {
        Some(TokenType::Push)
    } else if spells(s, "POP") {
        Some(TokenType::Pop)
    } else if spells(s, "PC") {
        Some(TokenType::PC)
    } else if spells(s, "SP") {
        Some(TokenType::SP)
    } else if spells(s, "EX") {
        Some(TokenType::EX)
    } else {
        None
    }
}

/// The code of the basic instruction that `s` spells, if any.
pub fn basic_opcode(s: &str) -> (r: Option<usize>)
    ensures
        r == basic_opcode_of(s@),
{
    if spells(s, "SET") {
        Some(SET)
    } else if spells(s, "ADD") {
        Some(ADD)
    } else if spells(s, "SUB") {
        Some(SUB)
    } else if spells(s, "MUL") {
        Some(MUL)
    } else if spells(s, "MLI") {
        Some(MLI)
    } else if spells(s, "DIV") {
        Some(DIV)
    } else if spells(s, "DVI") {
        Some(DVI)
    } else if spells(s, "MOD") {
        Some(MOD)
    } else if spells(s, "MDI") {
        Some(MDI)
    } else if spells(s, "AND") {
        Some(AND)
    } else if spells(s, "BOR") {
        Some(BOR)
    } else if spells(s, "XOR") {
        Some(XOR)
    } else if spells(s, "SHR") {
        Some(SHR)
    } else if spells(s, "ASR") {
        Some(ASR)
    } else if spells(s, "SHL") {
        Some(SHL)
    } else if spells(s, "IFB") {
        Some(IFB)
    } else if spells(s, "IFC") {
        Some(IFC)
    } else if spells(s, "IFE") {
        Some(IFE)
    } else if spells(s, "IFN") {
        Some(IFN)
    } else if spells(s, "IFG") {
        Some(IFG)
    } else if spells(s, "IFA") {
        Some(IFA)
    } else if spells(s, "IFL") {
        Some(IFL)
    } else if spells(s, "IFU") {
        Some(IFU)
    } else if spells(s, "ADX") {
        Some(ADX)
    } else if spells(s, "SBX") {
        Some(SBX)
    } else if spells(s, "STI") {
        Some(STI)
    } else if spells(s, "STD") {
        Some(STD)
    } else {
        None
    }
}

/// The code of the special instruction that `s` spells, if any.
pub fn special_opcode(s: &str) -> (r: Option<usize>)
    ensures
        r == special_opcode_of(s@),
{
    if spells(s, "JSR") {
        Some(JSR)
    } else if spells(s, "INT") {
        Some(INT)
    } else if spells(s, "IAG") {
        Some(IAG)
    } else if spells(s, "IAS") {
        Some(IAS)
    } else if spells(s, "RFI") {
        Some(RFI)
    } else if spells(s, "IAQ") {
        Some(IAQ)
    } else if spells(s, "HWN") {
        Some(HWN)
    } else if spells(s, "HWQ") {
        Some(HWQ)
    } else if spells(s, "HWI") {
        Some(HWI)
    } else if spells(s, "OUT") {
        Some(OUT)
    } else {
        None
    }
}

/// What `word` is when it is no label.
fn classify(word: &str) -> (r: Option<TokenType>)
    requires
        word@.len() > 0,
    ensures
        r == fixed_word(word@),
{
    if word.unicode_len() == 1 && registry_char(word.get_char(0)) >= 0 {
        return Some(TokenType::Registry(registry_char(word.get_char(0)) as u16));
    }
    match keyword_token(word) {
        Some(t) => {
            return Some(t);
        },
        None => {},
    }
    match basic_opcode(word) {
        Some(op) => {
            return Some(TokenType::BasicOpcode(op));
        },
        None => {},
    }
    match special_opcode(word) {
        Some(op) => {
            return Some(TokenType::SpecialOpcode(op));
        },
        None => {},
    }
    if spells(word, "DAT") {
        Some(TokenType::DataOpcode)
    } else {
        None
    }
}

/// The characters of `line`.
fn characters(line: &str) -> (chars: Vec<char>)
    ensures
        chars@ == line@,
{
    let n = line.unicode_len();
    let mut chars: Vec<char> = Vec::new();
    let mut k: usize = 0;
    while k < n
        invariant
            k <= n,
            n == line@.len(),
            chars@ == line@.subrange(0, k as int),
        decreases n - k,
    {
        chars.push(line.get_char(k));
        assert(chars@ =~= line@.subrange(0, k as int + 1));
        k = k + 1;
    }
    assert(chars@ =~= line@);
    chars
}

/// The end of the run of label characters that starts at `i`.
fn find_word_end(chars: &Vec<char>, i: usize) -> (end: usize)
    requires
        i <= chars.len(),
    ensures
        end == word_end(chars@, i as int),
        i <= end <= chars.len(),
{
    let mut end = i;
    while end < chars.len()
        invariant
            i <= end <= chars.len(),
            word_end(chars@, end as int) == word_end(chars@, i as int),
        ensures
            i <= end <= chars.len(),
            end == word_end(chars@, i as int),
        decreases chars.len() - end,
    {
        if !legal_label_char(chars[end]) {
            break ;
        }
        end = end + 1;
    }
    end
}

/// Scans a string literal from `start`, which is past the opening quote.
fn read_string(chars: &Vec<char>, start: usize) -> (r: (Vec<char>, bool, usize))
    requires
        start <= chars.len(),
    ensures
        (StringScan { text: r.0@, closed: r.1, end: r.2 as int }) == scan_string(
            chars@,
            start as int,
            false,
            Seq::empty(),
        ),
        start <= r.2 <= chars.len(),
        r.1 ==> r.2 < chars.len(),
        r.0@.len() <= r.2 - start,
{
    let mut text: Vec<char> = Vec::new();
    let mut escaped = false;
    let mut closed = false;
    let mut i = start;
    while i < chars.len()
        invariant_except_break
            !closed,
        invariant
            start <= i <= chars.len(),
            text@.len() <= i - start,
            scan_string(chars@, i as int, escaped, text@) == scan_string(
                chars@,
                start as int,
                false,
                Seq::empty(),
            ),
        ensures
            start <= i <= chars.len(),
            closed ==> i < chars.len(),
            text@.len() <= i - start,
            (StringScan { text: text@, closed, end: i as int }) == scan_string(
                chars@,
                start as int,
                false,
                Seq::empty(),
            ),
        decreases chars.len() - i,
    {
        let c = chars[i];
        if escaped {
            if c == 'n' {
                text.push('\n');
            } else if c == 'r' {
                text.push('\r');
            } else if c == 't' {
                text.push('\t');
            } else if c == '"' {
                text.push('"');
            } else if c == '\\' {
                text.push('\\');
            }
            escaped = false;
        } else if c == '"' {
            closed = true;
            break ;
        } else if c == '\\' {
            escaped = true;
        } else {
            text.push(c);
        }
        i = i + 1;
    }
    (text, closed, i)
}

/// The value of the digit `c` in base 16 if `hex`, else in base 10.
fn digit_value(c: char, hex: bool) -> (r: Option<u8>)
    ensures
        match digit_of(c, if hex { 16 } else { 10 }) {
            Some(d) => r == Some(d as u8) && 0 <= d < 16,
            None => r is None,
        },
{
    if '0' <= c && c <= '9' {
        Some((c as u32 - '0' as u32) as u8)
    } else if hex && 'a' <= c && c <= 'f' {
        Some((c as u32 - 'a' as u32 + 10) as u8)
    } else if hex && 'A' <= c && c <= 'F' {
        Some((c as u32 - 'A' as u32 + 10) as u8)
    } else {
        None
    }
}

/// Digits denote numbers that are not negative.
proof fn lemma_digits_number_bounds(digits: Seq<char>, radix: int)
    requires
        radix == 10 || radix == 16,
    ensures
        digits_number(digits, radix) >= 0,
    decreases digits.len(),
{
    if digits.len() > 0 {
        lemma_digits_number_bounds(digits.drop_last(), radix);
        let rest = digits_number(digits.drop_last(), radix);
        assert(rest * radix >= 0) by (nonlinear_arith)
            requires
                rest >= 0,
                radix > 0,
        ;
    }
}

/// The word of the literal whose digits are `chars[first..end]`.
fn read_number(chars: &Vec<char>, first: usize, end: usize, hex: bool, minus: bool) -> (r: Option<
    u16,
>)
    requires
        first <= end <= chars.len(),
    ensures
        r == match literal_value(chars@.subrange(first as int, end as int), if hex { 16 } else { 10 }) {
            Some(v) => Some(wrap16(if minus { -v } else { v })),
            None => None,
        },
{
    let ghost radix: int = if hex { 16 } else { 10 };
    let ghost digits = chars@.subrange(first as int, end as int);
    if first == end {
        return None;
    }
    // `acc` follows the number up to 2^64 and stays there.
    let mut acc: u128 = 0;
    let mut k = first;
    while k < end
        invariant
            first <= k <= end <= chars.len(),
            radix == (if hex { 16int } else { 10int }),
            digits == chars@.subrange(first as int, end as int),
            digits_valid(chars@.subrange(first as int, k as int), radix),
            acc <= 0x1_0000_0000_0000_0000,
            digits_number(chars@.subrange(first as int, k as int), radix) >= 0,
            acc == if digits_number(chars@.subrange(first as int, k as int), radix)
                <= 0x1_0000_0000_0000_0000 {
                digits_number(chars@.subrange(first as int, k as int), radix)
            } else {
                0x1_0000_0000_0000_0000
            },
        decreases end - k,
    {
        let ghost before = chars@.subrange(first as int, k as int);
        let ghost after = chars@.subrange(first as int, k as int + 1);
        proof {
            assert(after.drop_last() =~= before);
            assert(after.last() == chars@[k as int]);
            assert(digits[k - first] == chars@[k as int]);
            lemma_digits_number_bounds(after, radix);
        }
        match digit_value(chars[k], hex) {
            None => {
                assert(!digits_valid(digits, radix));
                return None;
            },
            Some(d) => {
                let wide: u128 = if hex { acc * 16 + d as u128 } else { acc * 10 + d as u128 };
                acc = if wide > 0x1_0000_0000_0000_0000 { 0x1_0000_0000_0000_0000 } else { wide };
                proof {
                    let n = digits_number(before, radix);
                    assert(digits_number(after, radix) == n * radix + d);
                    assert forall|j: int| 0 <= j < after.len() implies (#[trigger] digit_of(
                        after[j],
                        radix,
                    )) is Some by {
                        if j < before.len() {
                            assert(after[j] == before[j]);
                        }
                    }
                }
            },
        }
        k = k + 1;
    }
    assert(chars@.subrange(first as int, k as int) =~= digits);
    if acc > isize::MAX as u128 {
        return None;
    }
    let low = (acc % 0x10000) as u16;
    if minus && low != 0 {
        Some((0x10000 - low as u32) as u16)
    } else {
        Some(low)
    }
}

/// What the tokenizer found at one position.
enum Scanned {
    End,
    Blank(usize),
    Found(Token, usize),
    Failed(ParsingError),
}

/// Whether `r`, with the tables left as `after`, is what `scan` says of
/// position `i`, for a line of `len` characters.
spec fn scanned_as(r: Scanned, after: AsmState, expected: Scan, before: AsmState, i: int, len: int) -> bool {
    match expected {
        Scan::End => r is End && after == before,
        Scan::Blank { next } => r == Scanned::Blank(next as usize) && after == before && i < next
            <= len,
        Scan::Found { token, next, state } => r == Scanned::Found(token, next as usize) && after
            == state && i < next <= len && token_valid(token, state) && grown(before, state),
        Scan::Failed { error } => r == Scanned::Failed(error) && after == before,
    }
}

/// Whether a token can have come from the tokenizer with the tables as
/// in `state`: registers are below eight, opcodes fit into five bits,
/// and labels and string literals are in the tables.
pub open spec fn token_valid(token: Token, state: AsmState) -> bool {
    match token.ttype {
        TokenType::Registry(r) => r < 8,
        TokenType::BasicOpcode(op) => 1 <= op <= 0x1f,
        TokenType::SpecialOpcode(op) => 1 <= op <= 0x1f,
        TokenType::StringLiteral(id) => id < state.strings.len(),
        TokenType::Label(id) => id < state.labels.len(),
        _ => true,
    }
}

pub open spec fn tokens_valid(tokens: Seq<Token>, state: AsmState) -> bool {
    forall|k: int| 0 <= k < tokens.len() ==> token_valid(#[trigger] tokens[k], state)
}

/// Whether `after` differs from `before` at most by labels and string
/// literals entered behind those that were there.
pub open spec fn grown(before: AsmState, after: AsmState) -> bool {
    &&& after.mem == before.mem
    &&& after.pc == before.pc
    &&& after.unresolved == before.unresolved
    &&& before.labels.len() <= after.labels.len()
    &&& before.strings.len() <= after.strings.len()
    &&& forall|k: int| 0 <= k < before.labels.len() ==> after.labels[k] == before.labels[k]
    &&& forall|k: int| 0 <= k < before.strings.len() ==> after.strings[k] == before.strings[k]
}

/// The identifier of the label called `name`, if there is one.
fn find_label(cpu: &PCPU, name: &String) -> (r: Option<usize>)
    ensures
        match r {
            Some(id) => cpu@.find_label(name@) == Some(id as int) && id < cpu.labels.len(),
            None => cpu@.find_label(name@) is None,
        },
{
    let mut k: usize = 0;
    while k < cpu.labels.len()
        invariant
            k <= cpu.labels.len(),
            cpu@.find_label_from(name@, k as int) == cpu@.find_label(name@),
        decreases cpu.labels.len() - k,
    {
        if cpu.labels[k].name == *name {
            return Some(k);
        }
        k = k + 1;
    }
    None
}

/// A run of label characters does not end before it starts.
proof fn lemma_word_end_is_later(line: Seq<char>, i: int)
    ensures
        word_end(line, i) >= i,
    decreases line.len() - i,
{
    if 0 <= i < line.len() && is_label_char(line[i]) {
        lemma_word_end_is_later(line, i + 1);
    }
}

/// Scans the numeric literal that starts at `i`.
fn scan_number_at(line_no: usize, chars: &Vec<char>, i: usize, cpu: &PCPU) -> (r: Scanned)
    requires
        i < chars.len(),
        ('0' <= chars@[i as int] && chars@[i as int] <= '9') || chars@[i as int] == '-',
    ensures
        scanned_as(r, cpu@, scan_number(line_no, chars@, i as int, cpu@), cpu@, i as int, chars.len() as int),
{
    let n = chars.len();
    let minus = chars[i] == '-';
    let p = if minus { i + 1 } else { i };
    let hex = p < n - 1 && chars[p] == '0' && (chars[p + 1] == 'x' || chars[p + 1] == 'X');
    let first = if hex { p + 2 } else { p };
    let end = find_word_end(chars, first);
    assert(!minus ==> is_label_char(chars@[i as int]));
    proof {
        if !minus && !hex {
            lemma_word_end_is_later(chars@, i as int + 1);
        }
    }
    match read_number(chars, first, end, hex, minus) {
        Some(value) => {
            let len = if minus { end - first + 1 } else { end - first };
            Scanned::Found(Token { ttype: TokenType::NumericLiteral(value), col: i, len }, end)
        },
        None => {
            let len = if end < n { end - 1 - i } else { end - i };
            Scanned::Failed(
                ParsingError {
                    line: line_no,
                    col: i,
                    len,
                    global: false,
                    etype: ParsingErrorType::InvalidLiteral,
                },
            )
        },
    }
}

/// Scans the string literal whose opening quote is at `i`.
fn scan_literal_at(line_no: usize, chars: &Vec<char>, i: usize, cpu: &mut PCPU) -> (r: Scanned)
    requires
        i < chars.len(),
    ensures
        scanned_as(
            r,
            final(cpu)@,
            scan_literal(line_no, chars@, i as int, old(cpu)@),
            old(cpu)@,
            i as int,
            chars.len() as int,
        ),
{
    let (text, closed, end) = read_string(chars, i + 1);
    if !closed {
        return Scanned::Failed(
            ParsingError {
                line: line_no,
                col: i,
                len: text.len() + 1,
                global: false,
                etype: ParsingErrorType::UnclosedStringLiteral,
            },
        );
    }
    if cpu.string_literals.len() >= SYMBOL_LIMIT {
        return Scanned::Failed(
            ParsingError {
                line: line_no,
                col: i,
                len: text.len() + 2,
                global: false,
                etype: ParsingErrorType::TooManySymbols,
            },
        );
    }
    let id = cpu.string_literals.len() as u16;
    let len = text.len() + 2;
    let ghost decoded = text@;
    cpu.string_literals.push(text);
    proof {
        assert(cpu@.strings =~= old(cpu)@.strings.push(decoded));
        assert(cpu@.labels =~= old(cpu)@.labels);
    }
    Scanned::Found(Token { ttype: TokenType::StringLiteral(id), col: i, len }, end + 1)
}

/// Scans the word that starts at `i`.
fn scan_word_at(line_no: usize, line: &str, chars: &Vec<char>, i: usize, cpu: &mut PCPU) -> (r:
    Scanned)
    requires
        chars@ == line@,
        i < chars.len(),
    ensures
        scanned_as(
            r,
            final(cpu)@,
            scan_word(line_no, chars@, i as int, old(cpu)@),
            old(cpu)@,
            i as int,
            chars.len() as int,
        ),
{
    let end = find_word_end(chars, i);
    if end == i {
        return Scanned::Failed(
            ParsingError {
                line: line_no,
                col: i,
                len: 0,
                global: false,
                etype: ParsingErrorType::IllegalCharacter,
            },
        );
    }
    let word = line.substring_char(i, end);
    match classify(word) {
        Some(ttype) => {
            return Scanned::Found(Token { ttype, col: i, len: end - i }, end);
        },
        None => {},
    }
    let name = word.to_owned();
    match find_label(cpu, &name) {
        Some(id) => Scanned::Found(
            Token { ttype: TokenType::Label(#[verifier::truncate] (id as u16)), col: i, len: end - i },
            end,
        ),
        None => {
            if cpu.labels.len() >= SYMBOL_LIMIT {
                return Scanned::Failed(
                    ParsingError {
                        line: line_no,
                        col: i,
                        len: end - i,
                        global: false,
                        etype: ParsingErrorType::TooManySymbols,
                    },
                );
            }
            let id = cpu.labels.len() as u16;
            let label = Label { name, addr: None, line: line_no, col: i, len: end - i };
            let ghost entry = label@;
            cpu.labels.push(label);
            proof {
                assert(cpu@.labels =~= old(cpu)@.labels.push(entry));
            }
            Scanned::Found(Token { ttype: TokenType::Label(id), col: i, len: end - i }, end)
        },
    }
}

/// Scans what stands at index `i`.
fn scan_at(line_no: usize, line: &str, chars: &Vec<char>, i: usize, cpu: &mut PCPU) -> (r: Scanned)
    requires
        chars@ == line@,
        i < chars.len(),
    ensures
        scanned_as(
            r,
            final(cpu)@,
            scan(line_no, chars@, i as int, old(cpu)@),
            old(cpu)@,
            i as int,
            chars.len() as int,
        ),
{
    let c = chars[i];
    if c == '[' {
        Scanned::Found(Token { ttype: TokenType::LeftBracket, col: i, len: 1 }, i + 1)
    } else if c == ']' {
        Scanned::Found(Token { ttype: TokenType::RightBracket, col: i, len: 1 }, i + 1)
    } else if c == '+' {
        Scanned::Found(Token { ttype: TokenType::Addition, col: i, len: 1 }, i + 1)
    } else if c == ',' {
        Scanned::Found(Token { ttype: TokenType::Comma, col: i, len: 1 }, i + 1)
    } else if c == ':' {
        Scanned::Found(Token { ttype: TokenType::Colon, col: i, len: 1 }, i + 1)
    } else if c == ';' {
        Scanned::End
    } else if c == '"' {
        scan_literal_at(line_no, chars, i, cpu)
    } else if ('0' <= c && c <= '9') || c == '-' {
        scan_number_at(line_no, chars, i, cpu)
    } else if c == ' ' || c == '\n' || c == '\r' || c == '\t' {
        Scanned::Blank(i + 1)
    } else {
        scan_word_at(line_no, line, chars, i, cpu)
    }
}

/// A result with its tokens as a sequence.
pub open spec fn result_view(r: Result<Vec<Token>, ParsingError>) -> Result<
    Seq<Token>,
    ParsingError,
> {
    match r {
        Ok(tokens) => Ok(tokens@),
        Err(e) => Err(e),
    }
}

/// Splits `line`, which is line `line_no`, into its tokens.
///
/// Labels that the line names for the first time and its string
/// literals are entered in the tables of `cpu`, also where an error
/// follows them.
pub fn tokenize(line_no: usize, line: &str, cpu: &mut PCPU) -> (r: Result<Vec<Token>, ParsingError>)
    ensures
        final(cpu)@ == tokens_of(line_no, line@, old(cpu)@).state,
        result_view(r) == tokens_of(line_no, line@, old(cpu)@).result,
        grown(old(cpu)@, final(cpu)@),
        r matches Ok(tokens) ==> tokens_valid(tokens@, final(cpu)@),
{
    let chars = characters(line);
    let mut tokens: Vec<Token> = Vec::new();
    let mut i: usize = 0;
    let ghost start = cpu@;
    while i < chars.len()
        invariant
            chars@ == line@,
            i <= chars.len(),
            start == old(cpu)@,
            grown(start, cpu@),
            tokens_valid(tokens@, cpu@),
            tokens_from(line_no, line@, i as int, tokens@, cpu@) == tokens_of(line_no, line@, start),
        decreases chars.len() - i,
    {
        match scan_at(line_no, line, &chars, i, cpu) {
            Scanned::End => {
                return Ok(tokens);
            },
            Scanned::Blank(next) => {
                i = next;
            },
            Scanned::Found(token, next) => {
                tokens.push(token);
                i = next;
            },
            Scanned::Failed(error) => {
                return Err(error);
            },
        }
    }
    Ok(tokens)
}

} // verus!
