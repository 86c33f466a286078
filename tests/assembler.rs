use asm6502::addressing_modes::AddressingMode;
use asm6502::assembler::assemble::{assemble, includes};
use asm6502::assembler::code::Code;
use asm6502::assembler::types::{LabelUse, Metadata};
use asm6502::error::Error;
use asm6502::opcodes::OpcodeType;
use asm6502::parser::lines::parse_line;
use asm6502::parser::types::{LineType, Opcode, Value};

/// The opening lines of a program of basic opcodes.
const BASIC_OPCODES: &str = "\tLDA #$FF\n\tSTA $FF\n\tCLC\n";

fn parse(text: &str) -> Vec<LineType> {
    text.lines().map(|l: &str| parse_line(l.as_bytes()).unwrap().1).collect()
}

fn run(text: &str) -> Result<Vec<u8>, Error> {
    assemble(parse(text), &Vec::new())
}

#[test]
fn assembler_test_assemble() {
    let metadata = Metadata::default();
    assert_eq!(metadata.search_path, "");
    let test_code: Vec<LineType> = parse(BASIC_OPCODES);
    let code: Vec<u8> = assemble(test_code, &Vec::new()).expect("This shouldn't have errored");
    assert_eq!(code[0x0000..0x0005], [0xA9, 0xFF, 0x85, 0xFF, 0x18]);
}

#[test]
fn assembler_test_labels() {
    let test_code: Vec<LineType> = parse("\tLDA main");
    assert!(assemble(test_code, &Vec::new()).is_err());
    let test_code: Vec<LineType> = parse("main:\n\tLDA main");
    let code = assemble(test_code, &Vec::new()).unwrap();
    assert_eq!(code[0x0000..0x0003], [0xAD, 0x00, 0x00]);
}

#[test]
fn mod_test_assemble() {
    let test_code: Vec<LineType> = parse(BASIC_OPCODES);
    let code: Vec<u8> = assemble(test_code, &Vec::new()).expect("This shouldn't have errored");
    assert_eq!(code[0x0000..0x0005], [0xA9, 0xFF, 0x85, 0xFF, 0x18]);
}

#[test]
fn mod_test_labels() {
    let test_code: Vec<LineType> = parse("\tLDA main");
    assert!(assemble(test_code, &Vec::new()).is_err());
    let test_code: Vec<LineType> = parse("main:\n\tLDA main");
    let code = assemble(test_code, &Vec::new()).unwrap();
    assert_eq!(code[0x0000..0x0003], [0xAD, 0x00, 0x00]);
}

#[test]
fn image_is_the_whole_address_space() {
    let code = run("CLC").unwrap();
    assert_eq!(code.len(), 0x10000);
    assert!(code[1..].iter().all(|b| *b == 0));
}

#[test]
fn three_instructions_from_zero() {
    let code = run("LDA #$FF\nSTA $FF\nCLC").unwrap();
    assert_eq!(code[0..5], [0xA9, 0xFF, 0x85, 0xFF, 0x18]);
}

#[test]
fn undefined_label_is_named() {
    match run("LDA main") {
        Err(Error::UndefLabel { labels }) => assert_eq!(labels, vec!["main".to_string()]),
        other => panic!("{:?}", other),
    }
}

#[test]
fn every_undefined_label_is_named_once() {
    match run("LDA one\nJMP two\nSTA one\nthree:\nJMP three") {
        Err(Error::UndefLabel { labels }) => {
            assert_eq!(labels, vec!["one".to_string(), "two".to_string()])
        }
        other => panic!("{:?}", other),
    }
}

#[test]
fn label_before_use_resolves_to_zero() {
    let code = run("main:\nLDA main").unwrap();
    assert_eq!(code[0..3], [0xAD, 0x00, 0x00]);
}

#[test]
fn origin_moves_the_cursor() {
    let code = run(".org $8000\nmain:\nLDA main").unwrap();
    assert_eq!(code[0x8000..0x8003], [0xAD, 0x00, 0x80]);
}

#[test]
fn backward_branch_displacement() {
    let mut text = String::new();
    text.push_str(".org $0005\ntarget:\n.org $0010\nBEQ target");
    let code = run(&text).unwrap();
    assert_eq!(code[0x10], 0xF0);
    assert_eq!(code[0x11], 0xF3);
}

#[test]
fn forward_branch_displacement() {
    let code = run("BNE skip\nNOP\nNOP\nskip:\nRTS").unwrap();
    assert_eq!(code[0..6], [0xD0, 0x02, 0xEA, 0xEA, 0x60, 0x00]);
}

#[test]
fn forward_and_backward_references_agree() {
    let code = run("JMP here\n.org $1234\nhere:\nJMP here").unwrap();
    assert_eq!(code[0..3], [0x4C, 0x34, 0x12]);
    assert_eq!(code[0x1234..0x1237], [0x4C, 0x34, 0x12]);
}

#[test]
fn redefinition_keeps_the_last_address() {
    let code = run("spot:\nNOP\nspot:\nJMP spot").unwrap();
    assert_eq!(code[1..4], [0x4C, 0x01, 0x00]);
}

#[test]
fn assembling_twice_gives_the_same_image() {
    let text = "start:\nLDA #$01\nBNE start\n.dw start\nJMP end\nend:\nRTS";
    assert_eq!(run(text), run(text));
}

#[test]
fn instruction_widths_match_their_modes() {
    let code = run("LDA #$01\nLDA $02\nLDA $0304\nCLC\nROL A\nLDA ($05,X)\nSTA $0607,Y").unwrap();
    assert_eq!(
        code[0..16],
        [0xA9, 0x01, 0xA5, 0x02, 0xAD, 0x04, 0x03, 0x18, 0x2A, 0xA1, 0x05, 0x99, 0x07, 0x06, 0x00, 0x00]
    );
}

#[test]
fn directives_emit_bytes() {
    let code = run(".byte $7F\n.byte $1234\n.db $01,$02\n.db $03\n.dw $ABCD\n.dw there\nthere:").unwrap();
    assert_eq!(code[0..11], [0x7F, 0x34, 0x12, 0x01, 0x02, 0x03, 0xCD, 0xAB, 0x0A, 0x00, 0x00]);
}

#[test]
fn array_items_other_than_bytes_are_skipped() {
    let lines = vec![LineType::Macro(
        "db".to_string(),
        Value::Array(vec![Value::Short(1), Value::Long(0x0203), Value::Short(4)]),
    )];
    let code = assemble(lines, &Vec::new()).unwrap();
    assert_eq!(code[0..3], [0x01, 0x04, 0x00]);
}

#[test]
fn included_files_are_written_in_order() {
    let lines = parse(".incbin \"a.bin\"\nNOP\n.incbin \"b.bin\"");
    let names = includes(&lines);
    assert_eq!(names, vec![b"a.bin".to_vec(), b"b.bin".to_vec()]);
    let code = assemble(lines, &vec![vec![1, 2, 3], vec![9]]).unwrap();
    assert_eq!(code[0..6], [1, 2, 3, 0xEA, 9, 0]);
}

#[test]
fn missing_included_contents_fail() {
    let lines = parse(".incbin \"a.bin\"");
    assert_eq!(
        assemble(lines, &Vec::new()),
        Err(Error::MissingInclude { file: b"a.bin".to_vec() })
    );
}

#[test]
fn unknown_opcode_fails() {
    assert_eq!(
        run("STA #$01"),
        Err(Error::UnknownOpcode { name: OpcodeType::STA, mode: AddressingMode::IMM })
    );
}

#[test]
fn text_operand_fails() {
    assert_eq!(run("LDA \"x\""), Err(Error::InvalidOperand { name: OpcodeType::LDA }));
}

#[test]
fn unknown_directive_fails() {
    assert_eq!(run(".bank $01"), Err(Error::UnknownDirective { directive: "bank".to_string() }));
}

#[test]
fn wrong_directive_argument_fails() {
    assert_eq!(run(".org main"), Err(Error::InvalidArgument { directive: "org".to_string() }));
    assert_eq!(run(".db \"x\""), Err(Error::InvalidArgument { directive: "db".to_string() }));
}

#[test]
fn writing_past_the_end_fails() {
    assert_eq!(run(".org $FFFF\nLDA $1234"), Err(Error::Overflow { at: 0xFFFF }));
    assert_eq!(run(".org $FFFE\nJMP far"), Err(Error::Overflow { at: 0xFFFE }));
    let code = run(".org $FFFD\nJMP $1234").unwrap();
    assert_eq!(code[0xFFFD..], [0x4C, 0x34, 0x12]);
}

#[test]
fn hand_built_statements() {
    let lines = vec![
        LineType::Opcode(Opcode {
            name: OpcodeType::JSR,
            arg: (AddressingMode::ABS, Value::Label("sub".to_string())),
        }),
        LineType::LabelDef("sub".to_string()),
        LineType::Opcode(Opcode { name: OpcodeType::RTS, arg: (AddressingMode::IMPL, Value::Empty) }),
    ];
    let code = assemble(lines, &Vec::new()).unwrap();
    assert_eq!(code[0..4], [0x20, 0x03, 0x00, 0x60]);
}

#[test]
fn code_cursor_operations() {
    let mut code = Code::new();
    code.push_byte(0xAA);
    code.push_long(0x1234);
    code.skip(2);
    code.push_byte(0xBB);
    assert_eq!(code.pointer, 6);
    let bytes = code.into_bytes();
    assert_eq!(bytes[0..6], [0xAA, 0x34, 0x12, 0x00, 0x00, 0xBB]);
}

#[test]
fn label_use_holds_its_place() {
    let u = LabelUse { location: 3, is_relative: true };
    assert_eq!(u, LabelUse { location: 3, is_relative: true });
}
