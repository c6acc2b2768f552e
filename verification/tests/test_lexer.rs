use dcpu16::assembler::{tokenize, Label, ParsingErrorType, Token, TokenType, PCPU};
use dcpu16::lexer::{basic_opcode, keyword_token, legal_label_char, registry_char, special_opcode};

fn tokens(line: &str) -> Vec<Token> {
    let mut cpu = PCPU::new();
    tokenize(0, line, &mut cpu).unwrap()
}

fn types(line: &str) -> Vec<TokenType> {
    tokens(line).iter().map(|t| t.ttype).collect()
}

fn failure(line: &str) -> (ParsingErrorType, usize, usize, usize) {
    let mut cpu = PCPU::new();
    let err = tokenize(3, line, &mut cpu).unwrap_err();
    assert!(!err.global);
    (err.etype, err.line, err.col, err.len)
}

fn tok(ttype: TokenType, col: usize, len: usize) -> Token {
    Token { ttype, col, len }
}

#[test]
fn tokens_carry_column_and_length() {
    assert_eq!(
        tokens("SET A, 0x30"),
        vec![
            tok(TokenType::BasicOpcode(1), 0, 3),
            tok(TokenType::Registry(0), 4, 1),
            tok(TokenType::Comma, 5, 1),
            tok(TokenType::NumericLiteral(0x30), 7, 2),
        ]
    );
    assert_eq!(
        tokens("  :loop1 [b+12]"),
        vec![
            tok(TokenType::Colon, 2, 1),
            tok(TokenType::Label(0), 3, 5),
            tok(TokenType::LeftBracket, 9, 1),
            tok(TokenType::Registry(1), 10, 1),
            tok(TokenType::Addition, 11, 1),
            tok(TokenType::NumericLiteral(12), 12, 2),
            tok(TokenType::RightBracket, 14, 1),
        ]
    );
}

#[test]
fn empty_and_comment_lines_have_no_tokens() {
    assert_eq!(tokens(""), vec![]);
    assert_eq!(tokens("   \t "), vec![]);
    assert_eq!(tokens("; SET A, 1"), vec![]);
    assert_eq!(types("SET A ; , 1"), vec![TokenType::BasicOpcode(1), TokenType::Registry(0)]);
}

#[test]
fn numbers_wrap_to_sixteen_bits() {
    assert_eq!(types("0"), vec![TokenType::NumericLiteral(0)]);
    assert_eq!(types("65535"), vec![TokenType::NumericLiteral(0xffff)]);
    assert_eq!(types("65536"), vec![TokenType::NumericLiteral(0)]);
    assert_eq!(types("65541"), vec![TokenType::NumericLiteral(5)]);
    assert_eq!(types("0xFFFFF"), vec![TokenType::NumericLiteral(0xffff)]);
    assert_eq!(types("0Xab"), vec![TokenType::NumericLiteral(0xab)]);
    assert_eq!(types("007"), vec![TokenType::NumericLiteral(7)]);
}

#[test]
fn negative_numbers() {
    assert_eq!(tokens("-1"), vec![tok(TokenType::NumericLiteral(0xffff), 0, 2)]);
    assert_eq!(tokens("-5"), vec![tok(TokenType::NumericLiteral(0xfffb), 0, 2)]);
    assert_eq!(tokens("-0x10"), vec![tok(TokenType::NumericLiteral(0xfff0), 0, 3)]);
    assert_eq!(tokens("-0"), vec![tok(TokenType::NumericLiteral(0), 0, 2)]);
    assert_eq!(tokens("-65536"), vec![tok(TokenType::NumericLiteral(0), 0, 6)]);
    assert_eq!(tokens("-65537"), vec![tok(TokenType::NumericLiteral(0xffff), 0, 6)]);
}

#[test]
fn numbers_up_to_the_largest_isize() {
    if usize::BITS == 64 {
        assert_eq!(types("0x7fffffffffffffff"), vec![TokenType::NumericLiteral(0xffff)]);
        assert_eq!(types("9223372036854775807"), vec![TokenType::NumericLiteral(0xffff)]);
        assert!(matches!(failure("0x8000000000000000").0, ParsingErrorType::InvalidLiteral));
        assert!(matches!(failure("9223372036854775808").0, ParsingErrorType::InvalidLiteral));
        assert!(matches!(
            failure("0x10000000000000000000000000000000000").0,
            ParsingErrorType::InvalidLiteral
        ));
    }
}

#[test]
fn invalid_literals() {
    assert!(matches!(failure("DAT 12ab"), (ParsingErrorType::InvalidLiteral, 3, 4, 4)));
    assert!(matches!(failure("DAT 0x"), (ParsingErrorType::InvalidLiteral, 3, 4, 2)));
    assert!(matches!(failure("DAT -"), (ParsingErrorType::InvalidLiteral, 3, 4, 1)));
    assert!(matches!(failure("DAT 1_0, 2"), (ParsingErrorType::InvalidLiteral, 3, 4, 2)));
    assert!(matches!(failure("DAT 0xfg"), (ParsingErrorType::InvalidLiteral, 3, 4, 4)));
    assert!(matches!(failure("- 1"), (ParsingErrorType::InvalidLiteral, 3, 0, 0)));
    assert!(matches!(failure("0x,"), (ParsingErrorType::InvalidLiteral, 3, 0, 1)));
}

#[test]
fn string_literals_are_decoded() {
    let mut cpu = PCPU::new();
    let found = tokenize(0, "DAT \"a\\nb\", \"\\t\\r\\\"\\\\\\q\"", &mut cpu).unwrap();
    assert_eq!(
        found,
        vec![
            tok(TokenType::DataOpcode, 0, 3),
            tok(TokenType::StringLiteral(0), 4, 5),
            tok(TokenType::Comma, 10, 1),
            tok(TokenType::StringLiteral(1), 12, 6),
        ]
    );
    assert_eq!(cpu.string_literals[0], vec!['a', '\n', 'b']);
    assert_eq!(cpu.string_literals[1], vec!['\t', '\r', '"', '\\']);
}

#[test]
fn string_literal_may_hold_anything() {
    let mut cpu = PCPU::new();
    let found = tokenize(0, "\"; [é]\" ;", &mut cpu).unwrap();
    assert_eq!(found, vec![tok(TokenType::StringLiteral(0), 0, 7)]);
    assert_eq!(cpu.string_literals[0], vec![';', ' ', '[', 'é', ']']);
    let found = tokenize(0, "\"\"", &mut cpu).unwrap();
    assert_eq!(found, vec![tok(TokenType::StringLiteral(1), 0, 2)]);
    assert_eq!(cpu.string_literals[1], Vec::<char>::new());
}

#[test]
fn unclosed_string_literal() {
    assert!(matches!(failure("DAT \"abc"), (ParsingErrorType::UnclosedStringLiteral, 3, 4, 4)));
    assert!(matches!(failure("\""), (ParsingErrorType::UnclosedStringLiteral, 3, 0, 1)));
    assert!(matches!(failure("\"ab\\\""), (ParsingErrorType::UnclosedStringLiteral, 3, 0, 4)));
    let mut cpu = PCPU::new();
    assert!(tokenize(0, "DAT \"abc", &mut cpu).is_err());
    assert!(cpu.string_literals.is_empty());
}

#[test]
fn illegal_characters() {
    assert!(matches!(failure("SET A, @"), (ParsingErrorType::IllegalCharacter, 3, 7, 0)));
    assert!(matches!(failure("@"), (ParsingErrorType::IllegalCharacter, 3, 0, 0)));
    assert!(matches!(failure("SET é, 1"), (ParsingErrorType::IllegalCharacter, 3, 4, 0)));
    assert!(matches!(failure("a.b"), (ParsingErrorType::IllegalCharacter, 3, 1, 0)));
}

#[test]
fn registers_in_both_cases() {
    assert_eq!(
        types("A B C X Y Z I J"),
        (0..8).map(TokenType::Registry).collect::<Vec<_>>()
    );
    assert_eq!(
        types("a b c x y z i j"),
        (0..8).map(TokenType::Registry).collect::<Vec<_>>()
    );
    assert_eq!(registry_char('X'), 3);
    assert_eq!(registry_char('j'), 7);
    assert_eq!(registry_char('D'), -1);
    assert_eq!(registry_char('0'), -1);
}

#[test]
fn reserved_words_in_any_case() {
    assert_eq!(
        types("PICK peek Push pOp pc Sp eX"),
        vec![
            TokenType::Pick,
            TokenType::Peek,
            TokenType::Push,
            TokenType::Pop,
            TokenType::PC,
            TokenType::SP,
            TokenType::EX,
        ]
    );
    assert_eq!(keyword_token("pick"), Some(TokenType::Pick));
    assert_eq!(keyword_token("PICKS"), None);
    assert_eq!(keyword_token("P"), None);
    assert_eq!(keyword_token(""), None);
}

#[test]
fn opcodes_in_any_case() {
    let basic = [
        ("SET", 0x01), ("ADD", 0x02), ("SUB", 0x03), ("MUL", 0x04), ("MLI", 0x05), ("DIV", 0x06),
        ("DVI", 0x07), ("MOD", 0x08), ("MDI", 0x09), ("AND", 0x0a), ("BOR", 0x0b), ("XOR", 0x0c),
        ("SHR", 0x0d), ("ASR", 0x0e), ("SHL", 0x0f), ("IFB", 0x10), ("IFC", 0x11), ("IFE", 0x12),
        ("IFN", 0x13), ("IFG", 0x14), ("IFA", 0x15), ("IFL", 0x16), ("IFU", 0x17), ("ADX", 0x1a),
        ("SBX", 0x1b), ("STI", 0x1e), ("STD", 0x1f),
    ];
    for (name, code) in basic {
        assert_eq!(basic_opcode(name), Some(code));
        assert_eq!(basic_opcode(&name.to_lowercase()), Some(code));
        assert_eq!(special_opcode(name), None);
        assert_eq!(types(name), vec![TokenType::BasicOpcode(code)]);
    }
    let special = [
        ("JSR", 0x01), ("INT", 0x08), ("IAG", 0x09), ("IAS", 0x0a), ("RFI", 0x0b), ("IAQ", 0x0c),
        ("HWN", 0x10), ("HWQ", 0x11), ("HWI", 0x12), ("OUT", 0x13),
    ];
    for (name, code) in special {
        assert_eq!(special_opcode(name), Some(code));
        assert_eq!(special_opcode(&name.to_lowercase()), Some(code));
        assert_eq!(basic_opcode(name), None);
        assert_eq!(types(name), vec![TokenType::SpecialOpcode(code)]);
    }
    assert_eq!(basic_opcode("SE"), None);
    assert_eq!(basic_opcode("SETT"), None);
    assert_eq!(types("dat Dat DAT"), vec![TokenType::DataOpcode; 3]);
}

#[test]
fn label_characters() {
    for c in ['A', 'Z', 'a', 'z', '_', '0', '9'] {
        assert!(legal_label_char(c));
    }
    for c in ['@', '[', '`', '{', '/', ':', ' ', '-', 'é'] {
        assert!(!legal_label_char(c));
    }
}

#[test]
fn labels_get_identifiers_at_first_sight() {
    let mut cpu = PCPU::new();
    let first = tokenize(4, "SET one, two", &mut cpu).unwrap();
    assert_eq!(first[1], tok(TokenType::Label(0), 4, 3));
    assert_eq!(first[3], tok(TokenType::Label(1), 9, 3));
    let second = tokenize(5, ":two SET One, one", &mut cpu).unwrap();
    assert_eq!(second[1].ttype, TokenType::Label(1));
    assert_eq!(second[3].ttype, TokenType::Label(2));
    assert_eq!(second[5].ttype, TokenType::Label(0));
    assert_eq!(cpu.labels.len(), 3);
    assert_eq!(cpu.labels[1].name, "two");
    assert_eq!(cpu.labels[1].addr, None);
    assert_eq!((cpu.labels[1].line, cpu.labels[1].col, cpu.labels[1].len), (4, 9, 3));
    assert_eq!((cpu.labels[2].line, cpu.labels[2].col, cpu.labels[2].len), (5, 9, 3));
}

#[test]
fn names_that_only_look_like_words() {
    assert_eq!(types("_x SETS AB PUSHER d"), (0..5).map(TokenType::Label).collect::<Vec<_>>());
}

#[test]
fn labels_entered_before_an_error_stay() {
    let mut cpu = PCPU::new();
    assert!(tokenize(0, "SET here, \"abc\", @", &mut cpu).is_err());
    assert_eq!(cpu.labels.len(), 1);
    assert_eq!(cpu.string_literals.len(), 1);
    assert_eq!(cpu.pc, 0);
}

#[test]
fn tables_hold_at_most_65536_entries() {
    let mut cpu = PCPU::new();
    for i in 0..0x10000usize {
        cpu.labels.push(Label { name: format!("l{}", i), addr: None, line: 0, col: 0, len: 0 });
        cpu.string_literals.push(Vec::new());
    }
    let found = tokenize(0, "SET l65535, l0", &mut cpu).unwrap();
    assert_eq!(found[1].ttype, TokenType::Label(0xffff));
    assert_eq!(found[3].ttype, TokenType::Label(0));
    let err = tokenize(1, "SET fresh, 1", &mut cpu).unwrap_err();
    assert_eq!(err.etype, ParsingErrorType::TooManySymbols);
    assert_eq!((err.line, err.col, err.len), (1, 4, 5));
    let err = tokenize(2, "DAT \"ab\"", &mut cpu).unwrap_err();
    assert_eq!(err.etype, ParsingErrorType::TooManySymbols);
    assert_eq!((err.line, err.col, err.len), (2, 4, 4));
    assert_eq!(cpu.labels.len(), 0x10000);
    assert_eq!(cpu.string_literals.len(), 0x10000);
}
