use asm6502::addressing_modes::AddressingMode;
use asm6502::opcodes::OpcodeType;
use asm6502::parser::arguments::{
    argument, bin_value, hex_addr_long, hex_addr_short, indexed_indirect, label_name,
    parse_argument, text,
};
use asm6502::parser::helpers::{bin_to_hex, is_symbol, u8_to_hex};
use asm6502::parser::lines::{parse_line, parse_macro, parse_opcode_line};
use asm6502::parser::types::{ArgumentType, ErrorKind, LineType, ParseError, Value};

/// A few lines of assembly of each kind.
const CUSTOM: &str = "main:
    LDA #$01
    STA $0200
  loop:
\tLDX #%00001111
    ROL A
    BNE loop
    JMP ($FE,X)
    STA $3000,Y
.org $8000
.db $01,$02,$03
.dw main
.incbin \"chr.bin\"
    RTS";

fn error(rest: &[u8], kind: ErrorKind) -> ParseError {
    ParseError { rest: rest.to_vec(), kind }
}

#[test]
fn parser_test_hex_addr_short() {
    let tests_error = [&b"$2A43"[..], &b"bd23"[..], &b"$23sd"[..], &b""[..]];
    let errors_exp = [
        error(b"43", ErrorKind::Eof),
        error(b"bd23", ErrorKind::Char),
        error(b"sd", ErrorKind::Eof),
        error(b"", ErrorKind::Char),
    ];
    for (test, error) in tests_error.iter().zip(errors_exp.iter()) {
        let res: ParseError = hex_addr_short(test).err().expect("This should have errored");
        println!("{:?} -> {:?} / {:?}", test, res, error);
        assert_eq!(&res, error);
    }
    let (rest, ag_type): (&[u8], ArgumentType) =
        hex_addr_short(b"$23").expect("This should have been an Ok");
    assert_eq!(rest, &[][..]);
    assert_eq!(ag_type, (AddressingMode::ZPG, Value::Short(0x23)));
}

#[test]
fn parser_test_hex_addr_long() {
    let tests_error = [&b"$23"[..], &b"bd23"[..], &b"$2334sd"[..]];
    let errors_exp = [
        error(b"23", ErrorKind::Eof),
        error(b"bd23", ErrorKind::Char),
        error(b"sd", ErrorKind::Eof),
    ];
    for (test, error) in tests_error.iter().zip(errors_exp.iter()) {
        let res: ParseError = hex_addr_long(test).err().expect("This should have errored");
        println!("{:?} -> {:?} / {:?}", test, res, error);
        assert_eq!(&res, error);
    }
    let res = hex_addr_long(b"$2334");
    assert_eq!(res, Ok((&[][..], (AddressingMode::ABS, Value::Long(0x2334)))));
}

#[test]
fn parser_test_label() {
    let res = label_name(&b"hello"[..]);
    println!("{:?}", res);
}

#[test]
fn parser_test_argument() {
    let tests = [&b"#$AD"[..], &b"$ADDE"[..], &b"$AD"[..], &b"Hello"[..]];
    let tests_results = [
        (AddressingMode::IMM, Value::Short(0xAD)),
        (AddressingMode::ABS, Value::Long(0xADDE)),
        (AddressingMode::ZPG, Value::Short(0xAD)),
        (AddressingMode::ABS, Value::Label("Hello".to_string())),
    ];
    for (test, exp) in tests.iter().zip(tests_results.iter()) {
        let (_, res) = argument(test).expect("This shouldn't haver errored");
        println!("{:X?} -> {:?} / {:?}", test, exp, res);
        assert_eq!(&res, exp);
    }
}

#[test]
fn parser_test_opcode() {
    let tests = [&b"\tLDA $FF"[..], &b"  STA $F00F"[..], &b"  ROL"[..], &b"    LDX #$FF"[..]];
    for test in tests.iter() {
        println!(
            "Test: {:?} Result: {:?}",
            std::str::from_utf8(test).unwrap(),
            parse_opcode_line(test)
        );
    }
}

#[test]
fn parser_test_line() {
    let code: &str = CUSTOM;
    for l in code.lines() {
        println!("{:X?}", parse_line(l.as_bytes()));
    }
}

#[test]
fn test_bin() {
    let tests_ok = [&b"#%11111111", &b"#%11111101", &b"#%01010101", &b"#%11100111", &b"#%00000000"];
    let oks_exp = [
        Value::Short(0b1111_1111),
        Value::Short(0b1111_1101),
        Value::Short(0b0101_0101),
        Value::Short(0b1110_0111),
        Value::Short(0b0000_0000),
    ];
    for (&test, ok) in tests_ok.iter().zip(&oks_exp) {
        let (rest, arg_type) = bin_value(*test).expect("This should have been an Ok");
        assert_eq!(rest, &[][..]);
        assert_eq!(&arg_type.1, ok);
    }
}

#[test]
fn arguments_test_hex_addr_short() {
    let tests_error = [&b"$2A43"[..], &b"bd23"[..], &b"$23sd"[..], &b"$0"[..]];
    let errors_exp = [
        error(b"43", ErrorKind::Eof),
        error(b"bd23", ErrorKind::Char),
        error(b"sd", ErrorKind::Eof),
        error(b"0", ErrorKind::Eof),
    ];
    for (test, error) in tests_error.iter().zip(errors_exp.iter()) {
        let res: ParseError = hex_addr_short(test).err().expect("This should have errored");
        println!("{:?} -> {:?} / {:?}", test, res, error);
        assert_eq!(&res, error);
    }
    let (rest, arg_type): (&[u8], ArgumentType) =
        hex_addr_short(b"$23").expect("This should have been an Ok");
    assert_eq!(rest, &[][..]);
    assert_eq!(arg_type, (AddressingMode::ZPG, Value::Short(0x23)));
}

#[test]
fn arguments_test_hex_addr_long() {
    let tests_error = [&b"$23"[..], &b"bd23"[..], &b"$2334sd"[..]];
    let errors_exp = [
        error(b"23", ErrorKind::Eof),
        error(b"bd23", ErrorKind::Char),
        error(b"sd", ErrorKind::Eof),
    ];
    for (test, error) in tests_error.iter().zip(errors_exp.iter()) {
        let res: ParseError = hex_addr_long(test).err().expect("This should have errored");
        println!("{:?} -> {:?} / {:?}", test, res, error);
        assert_eq!(&res, error);
    }
    let res = hex_addr_long(b"$2334");
    assert_eq!(res, Ok((&[][..], (AddressingMode::ABS, Value::Long(0x2334)))));
}

#[test]
fn arguments_test_label() {
    let res = label_name(&b"hello"[..]);
    println!("{:?}", res);
}

#[test]
fn test_ind_x() {
    let test = b"($02,X)";
    let res = indexed_indirect(test);
    println!("{:#?}", res);
    res.expect(":(");
}

#[test]
fn test_text() {
    let tests = [r#""Hello""#, r#""123.456""#, r#""hello.world""#];
    for test in &tests {
        let test = test.as_bytes();
        let _text = text(test).unwrap_or_else(|e| panic!("Test failed: {:?}. {:?}", test, e));
    }
}

#[test]
fn arguments_test_argument() {
    let tests = [&b"#$AD"[..], &b"$ADDE"[..], &b"$AD"[..], &b"Hello"[..], &b"($FE,X)"[..]];
    let tests_results = [
        (AddressingMode::IMM, Value::Short(0xAD)),
        (AddressingMode::ABS, Value::Long(0xADDE)),
        (AddressingMode::ZPG, Value::Short(0xAD)),
        (AddressingMode::ABS, Value::Label("Hello".to_string())),
        (AddressingMode::INDX, Value::Short(0xFE)),
    ];
    for (test, exp) in tests.iter().zip(tests_results.iter()) {
        let (_, res) = argument(test).expect("This shouldn't haver errored");
        println!("{:X?} -> {:?} / {:?}", test, exp, res);
        assert_eq!(&res, exp);
    }
}

#[test]
fn test_macro() {
    let res = parse_macro(&b".org $8000"[..]);
    println!("{:?}", res);
}

#[test]
fn lines_test_opcode() {
    let tests = [&b"\tLDA $FF"[..], &b"  STA $F00F"[..], &b"  ROL"[..], &b"    LDX #$FF"[..]];
    for test in tests.iter() {
        println!(
            "Test: {:?} Result: {:?}",
            std::str::from_utf8(test).unwrap(),
            parse_opcode_line(test)
        );
    }
}

#[test]
fn lines_test_line() {
    let code: &str = CUSTOM;
    for l in code.lines() {
        println!("{:X?}", parse_line(l.as_bytes()));
    }
}

#[test]
fn test_value_try_from() {
    let res = Value::try_from(vec![&b"0F"[..], &b"FA"[..]]);
    println!("{:X?}", res);
    assert_eq!(res, Ok(Value::Array(vec![Value::Short(0x0F), Value::Short(0xFA)])));
}

#[test]
fn value_try_from_rejects_a_non_byte() {
    assert!(Value::try_from(vec![&b"0F"[..], &b"1FF"[..]]).is_err());
    assert!(Value::try_from(vec![&b"zz"[..]]).is_err());
    assert!(Value::try_from(vec![&b""[..]]).is_err());
}

#[test]
fn every_line_of_the_sample_parses() {
    for l in CUSTOM.lines() {
        let res = parse_line(l.as_bytes());
        assert!(res.is_ok(), "{:?} -> {:?}", l, res);
    }
}

#[test]
fn label_definitions() {
    match parse_line(b"main:") {
        Ok((rest, LineType::LabelDef(name))) => {
            assert!(rest.is_empty());
            assert_eq!(name, "main");
        }
        other => panic!("{:?}", other),
    }
    match parse_line(b"  loop2:") {
        Ok((_, LineType::LabelDef(name))) => assert_eq!(name, "loop2"),
        other => panic!("{:?}", other),
    }
    assert!(parse_line(b"ma-in:").is_err());
    assert!(parse_line(b"main: x").is_err());
}

#[test]
fn instructions_and_their_modes() {
    let cases: [(&[u8], OpcodeType, AddressingMode, Value); 9] = [
        (b"LDA #$FF", OpcodeType::LDA, AddressingMode::IMM, Value::Short(0xFF)),
        (b"STA $FF", OpcodeType::STA, AddressingMode::ZPG, Value::Short(0xFF)),
        (b"CLC", OpcodeType::CLC, AddressingMode::IMPL, Value::Empty),
        (b"ROL A", OpcodeType::ROL, AddressingMode::A, Value::Empty),
        (b"STA $3000,X", OpcodeType::STA, AddressingMode::ABSX, Value::Long(0x3000)),
        (b"AND $4000,Y", OpcodeType::AND, AddressingMode::ABSY, Value::Long(0x4000)),
        (b"LDA ($40,X)", OpcodeType::LDA, AddressingMode::INDX, Value::Short(0x40)),
        (b"JMP main", OpcodeType::JMP, AddressingMode::ABS, Value::Label("main".to_string())),
        (b"BEQ target", OpcodeType::BEQ, AddressingMode::REL, Value::Label("target".to_string())),
    ];
    for (line, name, mode, value) in cases.iter() {
        match parse_line(line) {
            Ok((_, LineType::Opcode(op))) => {
                assert_eq!(op.name, *name);
                assert_eq!(op.arg.0, *mode);
                assert_eq!(&op.arg.1, value);
            }
            other => panic!("{:?}", other),
        }
    }
}

#[test]
fn a_label_may_start_with_the_letter_a() {
    match parse_line(b"JMP Alpha") {
        Ok((_, LineType::Opcode(op))) => {
            assert_eq!(op.arg, (AddressingMode::ABS, Value::Label("Alpha".to_string())));
        }
        other => panic!("{:?}", other),
    }
}

#[test]
fn malformed_lines_fail() {
    assert!(parse_line(b"LDX $123").is_err());
    assert!(parse_line(b"LDX $12345").is_err());
    assert!(parse_line(b"XYZ $12").is_err());
    assert!(parse_line(b"LDA  $12").is_err());
    assert!(parse_line(b"LDA $12 ").is_err());
    assert!(parse_line(b"LDA #$1").is_err());
    assert!(parse_line(b"LDA #%1010101").is_err());
    assert!(parse_line(b"LDA ($12,X)junk").is_err());
    assert!(parse_line(b"").is_err());
}

#[test]
fn directives_and_their_arguments() {
    match parse_line(b".org $8000") {
        Ok((_, LineType::Macro(name, arg))) => {
            assert_eq!(name, "org");
            assert_eq!(arg, Value::Long(0x8000));
        }
        other => panic!("{:?}", other),
    }
    match parse_line(b".db $01,$02,$FF") {
        Ok((_, LineType::Macro(name, arg))) => {
            assert_eq!(name, "db");
            assert_eq!(
                arg,
                Value::Array(vec![Value::Short(1), Value::Short(2), Value::Short(0xFF)])
            );
        }
        other => panic!("{:?}", other),
    }
    match parse_line(b".incbin \"tiles.chr\"") {
        Ok((_, LineType::Macro(name, arg))) => {
            assert_eq!(name, "incbin");
            assert_eq!(arg, Value::Text(b"tiles.chr".to_vec()));
        }
        other => panic!("{:?}", other),
    }
    assert!(parse_line(b".db $01,").is_err());
    assert!(parse_line(b".db $01,$2").is_err());
    assert!(parse_line(b".").is_err());
}

#[test]
fn implied_argument_forms() {
    assert_eq!(parse_argument(b""), Ok((&[][..], (AddressingMode::IMPL, Value::Empty))));
    assert_eq!(parse_argument(b" "), Ok((&[][..], (AddressingMode::IMPL, Value::Empty))));
    assert!(parse_argument(b"x").is_err());
}

#[test]
fn number_helpers() {
    assert_eq!(u8_to_hex(b"ff"), Ok(0xFF));
    assert_eq!(u8_to_hex(b"ADDE"), Ok(0xADDE));
    assert_eq!(u8_to_hex(b""), Err(()));
    assert_eq!(u8_to_hex(b"1g"), Err(()));
    assert_eq!(u8_to_hex(b"FFFFFFFFFFFFFFFFF"), Err(()));
    assert_eq!(bin_to_hex(b"101"), Ok(5));
    assert_eq!(bin_to_hex(b""), Ok(0));
    assert_eq!(bin_to_hex(b"102"), Err(()));
    assert!(is_symbol(b'!'));
    assert!(is_symbol(b'~'));
    assert!(!is_symbol(b' '));
    assert!(!is_symbol(0x7F));
}

#[test]
fn value_from_a_byte() {
    assert_eq!(Value::from(7u8), Value::Short(7));
}

#[test]
fn value_kinds() {
    assert!(Value::Short(1).is_short());
    assert!(Value::Long(1).is_long());
    assert!(Value::Label("x".to_string()).is_label());
    assert!(Value::Array(vec![]).is_array());
    assert!(Value::Text(vec![]).is_text());
    assert!(Value::Empty.is_none());
    assert!(!Value::Short(1).is_long());
}
