use rs6502::assembler::assemble;
use rs6502::assembler::lexer::{lex, TokenType};
use rs6502::assembler::parser::{extend_tokens, parse, parse_number, Directive, Radix};
use rs6502::assembler::{AsmError, Symbol};
use rs6502::instruct::{AddressType, Instruct};
use std::collections::BTreeMap;

fn lines(src: &str) -> Vec<String> {
    src.lines().map(|l| l.to_string()).collect()
}

fn assemble_text(src: &str) -> Result<BTreeMap<u16, u8>, AsmError> {
    assemble(&lines(src))
}

fn bytes_at(map: &BTreeMap<u16, u8>, start: u16) -> Vec<u8> {
    let mut out = Vec::new();
    let mut a = start;
    while let Some(b) = map.get(&a) {
        out.push(*b);
        a += 1;
    }
    out
}

fn operand_text(mode: AddressType) -> &'static str {
    match mode {
        AddressType::Impl | AddressType::Accumulator => "",
        AddressType::Immediate => "#$12",
        AddressType::Relative => "target",
        AddressType::ZeroPage => "$12",
        AddressType::ZeroPageX => "$12,X",
        AddressType::ZeroPageY => "$12,Y",
        AddressType::Absolute => "$1234",
        AddressType::AbsoluteX => "$1234,X",
        AddressType::AbsoluteY => "$1234,Y",
        AddressType::Indirect => "($1234)",
        AddressType::IndirectX => "($12,X)",
        AddressType::IndirectY => "($12),Y",
    }
}

fn operand_bytes(mode: AddressType) -> Vec<u8> {
    match mode {
        AddressType::Impl | AddressType::Accumulator => vec![],
        AddressType::Relative => vec![0x00],
        AddressType::Absolute
        | AddressType::AbsoluteX
        | AddressType::AbsoluteY
        | AddressType::Indirect => vec![0x34, 0x12],
        _ => vec![0x12],
    }
}

#[test]
fn every_documented_pair_assembles_to_its_opcode() {
    let mut seen = 0;
    for op in 0..=255u8 {
        if let Some(info) = Instruct::from_op_code(op) {
            seen += 1;
            let mut src = format!("{:?} {}", info.instruction, operand_text(info.mode));
            if info.mode == AddressType::Relative {
                src.push_str("\ntarget:");
            }
            let map = assemble_text(&src).unwrap_or_else(|e| panic!("{}: {}", src, e.reason));
            let mut expected = vec![op];
            expected.extend(operand_bytes(info.mode));
            assert_eq!(bytes_at(&map, 0x0600), expected, "{}", src);
            assert_eq!(map.len(), expected.len(), "{}", src);
        }
    }
    assert_eq!(seen, 151);
}

#[test]
fn opcode_tables_are_inverse() {
    let modes = [
        AddressType::Impl,
        AddressType::Accumulator,
        AddressType::Immediate,
        AddressType::Relative,
        AddressType::ZeroPage,
        AddressType::ZeroPageX,
        AddressType::ZeroPageY,
        AddressType::Absolute,
        AddressType::AbsoluteX,
        AddressType::AbsoluteY,
        AddressType::Indirect,
        AddressType::IndirectX,
        AddressType::IndirectY,
    ];
    let mut count = 0;
    for op in 0..=255u8 {
        if let Some(info) = Instruct::from_op_code(op) {
            assert_eq!(info.instruction.get_op_code(&info.mode), Some(op));
        }
    }
    for op in 0..=255u8 {
        if let Some(info) = Instruct::from_op_code(op) {
            for m in modes.iter() {
                if let Some(code) = info.instruction.get_op_code(m) {
                    let back = Instruct::from_op_code(code).unwrap();
                    assert_eq!(back.instruction, info.instruction);
                    assert_eq!(back.mode, *m);
                    count += 1;
                }
            }
        }
    }
    assert!(count >= 151);
}

#[test]
fn opcode_cycles_from_table() {
    let info = Instruct::from_op_code(0x00).unwrap();
    assert_eq!((info.instruction, info.mode, info.cycles), (Instruct::BRK, AddressType::Impl, 7));
    let info = Instruct::from_op_code(0xB1).unwrap();
    assert_eq!((info.cycles, info.extra_cycles), (5, 1));
    assert!(Instruct::from_op_code(0x02).is_none());
}

#[test]
fn mnemonics_ignore_case() {
    assert_eq!(Instruct::from_str("lda"), Some(Instruct::LDA));
    assert_eq!(Instruct::from_str("LdA"), Some(Instruct::LDA));
    assert_eq!(Instruct::from_str("TYA"), Some(Instruct::TYA));
    assert_eq!(Instruct::from_str("LDAX"), None);
    assert_eq!(Instruct::from_str("LD"), None);
    assert_eq!(Instruct::from_str("XYZ"), None);
    assert_eq!(AddressType::Absolute.size(), 3);
    assert_eq!(AddressType::IndirectY.size(), 2);
}

#[test]
fn directive_names() {
    assert_eq!(Directive::from_str("ORG"), Some(Directive::ORG));
    assert_eq!(Directive::from_str("BYTES"), Some(Directive::BYTES));
    assert_eq!(Directive::from_str("org"), None);
}

#[test]
fn assembling_twice_gives_the_same_map() {
    let src = "  LDA #$42\n  STA $0200\nloop: INX\n  BNE loop\n  .ORG $0700\n  .BYTES $DE $AD $BE $EF";
    let a = assemble_text(src).unwrap();
    let b = assemble_text(src).unwrap();
    assert_eq!(a, b);
}

#[test]
fn define_expands_like_inlined_text() {
    let with_define = assemble_text("define VAL #$10\nLDA VAL\nADC VAL").unwrap();
    let inlined = assemble_text("LDA #$10\nADC #$10").unwrap();
    assert_eq!(with_define, inlined);
    assert_eq!(bytes_at(&with_define, 0x0600), vec![0xA9, 0x10, 0x69, 0x10]);
}

#[test]
fn define_body_expands_earlier_defines() {
    let nested = assemble_text("define ADDR $40\ndefine STORE STA ADDR\nSTORE").unwrap();
    assert_eq!(bytes_at(&nested, 0x0600), vec![0x85, 0x40]);
}

#[test]
fn define_needs_an_identifier() {
    assert!(assemble_text("define 5 NOP").is_err());
}

#[test]
fn forward_and_backward_labels_agree() {
    let map = assemble_text("JMP here\nhere: NOP\nJMP here").unwrap();
    assert_eq!(bytes_at(&map, 0x0600), vec![0x4C, 0x03, 0x06, 0xEA, 0x4C, 0x03, 0x06]);
}

#[test]
fn branch_reaches_127_forward() {
    let map = assemble_text("BNE t\n.ORG $0681\nt: NOP").unwrap();
    assert_eq!(bytes_at(&map, 0x0600), vec![0xD0, 0x7F]);
}

#[test]
fn branch_of_128_forward_fails() {
    assert!(assemble_text("BNE t\n.ORG $0682\nt: NOP").is_err());
}

#[test]
fn branch_reaches_128_back() {
    let map = assemble_text("t: NOP\n.ORG $067E\nBNE t").unwrap();
    assert_eq!(bytes_at(&map, 0x067E), vec![0xD0, 0x80]);
}

#[test]
fn branch_of_129_back_fails() {
    assert!(assemble_text("t: NOP\n.ORG $067F\nBNE t").is_err());
}

#[test]
fn undefined_label_points_at_reference() {
    let e = assemble_text("NOP\n  JMP nowhere").unwrap_err();
    let s = e.symbol.expect("symbol");
    assert_eq!(s.text, "nowhere");
    assert_eq!((s.start.line, s.start.col), (2, 7));
    let again = assemble_text("NOP\n  JMP nowhere").unwrap_err();
    assert_eq!(again.reason, e.reason);
}

#[test]
fn literal_width_picks_zero_page_or_absolute() {
    assert_eq!(bytes_at(&assemble_text("LDA $10").unwrap(), 0x0600), vec![0xA5, 0x10]);
    assert_eq!(bytes_at(&assemble_text("LDA $0010").unwrap(), 0x0600), vec![0xAD, 0x10, 0x00]);
    assert_eq!(bytes_at(&assemble_text("LDA 300").unwrap(), 0x0600), vec![0xAD, 0x2C, 0x01]);
    assert_eq!(bytes_at(&assemble_text("LDA 0010").unwrap(), 0x0600), vec![0xAD, 0x0A, 0x00]);
}

#[test]
fn indirect_forms() {
    assert_eq!(bytes_at(&assemble_text("LDA ($10,X)").unwrap(), 0x0600), vec![0xA1, 0x10]);
    assert_eq!(bytes_at(&assemble_text("LDA ($10),Y").unwrap(), 0x0600), vec![0xB1, 0x10]);
    assert_eq!(bytes_at(&assemble_text("JMP ($1234)").unwrap(), 0x0600), vec![0x6C, 0x34, 0x12]);
}

#[test]
fn label_back_patch_loop() {
    let map = assemble_text("loop: INX\nBNE loop").unwrap();
    assert_eq!(bytes_at(&map, 0x0600), vec![0xE8, 0xD0, 0xFD]);
}

#[test]
fn example_program() {
    let src = "  LDA #$42        ; immediate hex\n  STA $0200       ; absolute\n  LDX $10         ; zero-page\nloop:\n  INX\n  BNE loop        ; relative branch\n  .ORG $0700\n  .BYTES $DE $AD $BE $EF";
    let map = assemble_text(src).unwrap();
    assert_eq!(
        bytes_at(&map, 0x0600),
        vec![0xA9, 0x42, 0x8D, 0x00, 0x02, 0xA6, 0x10, 0xE8, 0xD0, 0xFD]
    );
    assert_eq!(bytes_at(&map, 0x0700), vec![0xDE, 0xAD, 0xBE, 0xEF]);
    assert_eq!(map.len(), 14);
}

#[test]
fn radixes_and_org_with_equals() {
    let map = assemble_text(".ORG = $0800\nLDA #%00001111\nLDX #@17\nLDY #200").unwrap();
    assert_eq!(bytes_at(&map, 0x0800), vec![0xA9, 0x0F, 0xA2, 0x0F, 0xA0, 200]);
}

#[test]
fn bytes_directive_spans_lines() {
    let map = assemble_text(".BYTES 1 2\n 3 $04\nNOP").unwrap();
    assert_eq!(bytes_at(&map, 0x0600), vec![1, 2, 3, 4, 0xEA]);
}

#[test]
fn accumulator_and_implied() {
    assert_eq!(bytes_at(&assemble_text("ASL\nLSR\nRTS").unwrap(), 0x0600), vec![0x0A, 0x4A, 0x60]);
    assert_eq!(bytes_at(&assemble_text("NOP NOP").unwrap(), 0x0600), vec![0xEA, 0xEA]);
}

#[test]
fn errors_for_each_kind() {
    let cases = [
        "LDA ^",
        "LDA $10,Z",
        "LDA $",
        "LDA #$100",
        "FOO",
        ".FOO",
        ".BYTES $100",
        "LDA #",
        "LDA #$1G",
        ".ORG $10000",
        "JMP ($10",
        "LDA ($10,X",
        "STA #$10",
        "LDA",
        "JMP",
        "define",
        ": NOP",
        "LDA ($1234,X)",
        "LDA ($10),Y )",
        "LDA 99999999999",
    ];
    for src in cases.iter() {
        assert!(assemble_text(src).is_err(), "{} should fail", src);
    }
}

#[test]
fn program_counter_cannot_pass_the_top() {
    assert!(assemble_text(".ORG $FFFF\nNOP").is_ok());
    assert!(assemble_text(".ORG $FFFF\nLDA #1").is_err());
    assert!(assemble_text(".ORG $FFFE\n.BYTES 1 2 3").is_err());
}

#[test]
fn lexer_positions_and_kinds() {
    let toks = lex(&lines("lab: LDA ($1F),y ; note\n.ORG=7")).unwrap();
    let kinds: Vec<TokenType> = toks.iter().map(|t| t.token).collect();
    assert_eq!(
        kinds,
        vec![
            TokenType::NewLine,
            TokenType::Identifier,
            TokenType::Colon,
            TokenType::Identifier,
            TokenType::LParen,
            TokenType::Hex,
            TokenType::Number,
            TokenType::RParen,
            TokenType::CommaY,
            TokenType::NewLine,
            TokenType::Dot,
            TokenType::Identifier,
            TokenType::Equals,
            TokenType::Number,
            TokenType::NewLine,
        ]
    );
    assert_eq!(toks[3].symbol.text, "LDA");
    assert_eq!((toks[3].symbol.start.line, toks[3].symbol.start.col), (1, 6));
    assert_eq!(toks[3].symbol.end.col, 9);
    assert_eq!(toks[6].symbol.text, "1F");
    assert_eq!(toks[8].symbol.text, ",y");
    assert_eq!((toks[9].symbol.start.line, toks[9].symbol.start.col), (1, 18));
}

#[test]
fn lexer_rejects_bad_characters() {
    let e = lex(&lines("NOP\n  LDA !")).unwrap_err();
    let s = e.symbol.unwrap();
    assert_eq!((s.start.line, s.start.col), (2, 7));
    assert!(lex(&lines("LDA $10,")).is_err());
}

#[test]
fn number_literals() {
    let toks = lex(&lines("00FF 255 1000 zz")).unwrap();
    let v = parse_number(toks[1].clone(), Radix::Hex).unwrap();
    assert_eq!((v.value, v.long), (255, true));
    let v = parse_number(toks[2].clone(), Radix::Dec).unwrap();
    assert_eq!((v.value, v.long), (255, false));
    let v = parse_number(toks[3].clone(), Radix::Bin).unwrap();
    assert_eq!((v.value, v.long), (8, false));
    assert!(parse_number(toks[3].clone(), Radix::Oct).is_ok());
    assert!(parse_number(toks[4].clone(), Radix::Hex).is_err());
    assert!(parse_number(toks[0].clone(), Radix::Dec).is_err());
}

#[test]
fn extend_tokens_removes_the_define_line() {
    let toks = lex(&lines("define X 5\nLDA X")).unwrap();
    let out = extend_tokens(toks).unwrap();
    let texts: Vec<String> = out.iter().map(|t| t.symbol.text.clone()).collect();
    assert_eq!(texts, vec!["\n", "LDA", "5", "\n"]);
}

#[test]
fn parse_takes_tokens() {
    let toks = lex(&lines("NOP")).unwrap();
    let map = parse(toks).unwrap();
    assert_eq!(bytes_at(&map, 0x0600), vec![0xEA]);
}

#[test]
fn symbol_spans_its_text() {
    let s = Symbol::new(3, 5, String::from("abc"));
    assert_eq!((s.start.line, s.start.col, s.end.line, s.end.col), (3, 5, 3, 8));
    let e = AsmError::new("why", Some(s));
    assert_eq!(e.reason, "why");
}

#[test]
fn bare_radix_sign_is_left_to_the_parser() {
    let toks = lex(&lines("LDA $")).unwrap();
    assert_eq!(toks[2].token, TokenType::Hex);
    assert!(assemble_text("LDA $").is_err());
    let e = lex(&lines("LDA $ !")).unwrap_err();
    let s = e.symbol.unwrap();
    assert_eq!((s.start.line, s.start.col), (1, 7));
}

#[test]
fn unicode_spaces_separate_tokens() {
    let map = assemble_text("LDA\u{a0}#1\u{3000}; note").unwrap();
    assert_eq!(bytes_at(&map, 0x0600), vec![0xA9, 0x01]);
}

#[test]
fn branch_out_of_range_points_at_label() {
    let e = assemble_text("BNE t\n.ORG $0682\nt: NOP").unwrap_err();
    let s = e.symbol.unwrap();
    assert_eq!((s.text.as_str(), s.start.line, s.start.col), ("t", 1, 5));
    let e = assemble_text("t: NOP\n.ORG $067F\nBNE t").unwrap_err();
    let s = e.symbol.unwrap();
    assert_eq!((s.text.as_str(), s.start.line, s.start.col), ("t", 3, 5));
}

#[test]
fn undefined_label_span() {
    let e = assemble_text("JMP nowhere").unwrap_err();
    let s = e.symbol.unwrap();
    assert_eq!((s.start.line, s.start.col, s.end.line, s.end.col), (1, 5, 1, 12));
}

#[test]
fn unsupported_mode_points_at_value() {
    let e = assemble_text("STA #$10").unwrap_err();
    let s = e.symbol.unwrap();
    assert_eq!((s.text.as_str(), s.start.col), ("10", 7));
}

#[test]
fn failing_runs_report_equal_errors() {
    let a = assemble_text("NOP\nBEQ far\n.ORG $0800\nfar: NOP").unwrap_err();
    let b = assemble_text("NOP\nBEQ far\n.ORG $0800\nfar: NOP").unwrap_err();
    assert_eq!(a.reason, b.reason);
    let (sa, sb) = (a.symbol.unwrap(), b.symbol.unwrap());
    assert_eq!((sa.text, sa.start.line, sa.start.col), (sb.text, sb.start.line, sb.start.col));
}

#[test]
fn invalid_define_name_points_at_it() {
    let e = assemble_text("define 5 NOP").unwrap_err();
    assert_eq!(e.symbol.unwrap().text, "5");
}

#[test]
fn define_referring_to_itself_is_an_error() {
    let e = assemble_text("define X X\nNOP").unwrap_err();
    assert_eq!(e.reason, "A define cannot refer to itself");
    let s = e.symbol.unwrap();
    assert_eq!((s.text.as_str(), s.start.line, s.start.col), ("X", 1, 10));
}
