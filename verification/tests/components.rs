use dasm86::cursor::ByteStream;
use dasm86::decode::InstPart;
use dasm86::fields::{AddressingMode, Direction, DisplacementWidth, OpcodeFamily};
use dasm86::inst::program_text;
use dasm86::text::{dec_string_i16, dec_string_u16};

#[test]
fn cursor_reads_bytes_in_order() {
    let mut s = ByteStream::new(vec![0x01, 0x02]);
    assert!(!s.is_empty());
    assert_eq!(s.read_byte(), Some(0x01));
    assert_eq!(s.read_byte(), Some(0x02));
    assert!(s.is_empty());
    assert_eq!(s.read_byte(), None);
}

#[test]
fn cursor_reads_words_little_endian() {
    let mut s = ByteStream::new(vec![0x34, 0x12]);
    assert_eq!(s.read_word(), Some(0x1234));
    assert!(s.is_empty());
}

#[test]
fn cursor_never_returns_a_partial_word() {
    let mut s = ByteStream::new(vec![0x34]);
    assert_eq!(s.read_word(), None);
    // the failed read did not move the cursor
    assert_eq!(s.read_byte(), Some(0x34));
}

#[test]
fn opcode_classification_is_total() {
    assert_eq!(InstPart::opcode(0x89), OpcodeFamily::RegisterOrMemoryToRegister);
    assert_eq!(InstPart::opcode(0xB0), OpcodeFamily::ImmediateToRegister);
    assert_eq!(InstPart::opcode(0xC7), OpcodeFamily::ImmediateToRegisterOrMemory);
    assert_eq!(InstPart::opcode(0x00), OpcodeFamily::Unrecognized);
    assert_eq!(InstPart::opcode(0xFF), OpcodeFamily::Unrecognized);
}

#[test]
fn accumulator_walks_the_instruction() {
    let mut p = InstPart::new();
    assert!(!p.has_next());
    p.parse(0x8B);
    assert_eq!(p.family, Some(OpcodeFamily::RegisterOrMemoryToRegister));
    assert_eq!(p.direction, Some(Direction::DestinationIsRegister));
    assert!(p.wide);
    assert!(p.has_next());
    p.parse(0x4E);
    assert_eq!(p.mode, Some(AddressingMode::MemoryByteDisplacement));
    assert_eq!(p.reg, 1);
    assert_eq!(p.rm, 6);
    assert_eq!(p.disp_type, Some(DisplacementWidth::Byte));
    assert!(p.has_next());
    p.parse_disp_byte(0x02);
    assert!(!p.has_next());
    let inst = p.into_inst();
    assert_eq!(inst.line(), "mov cx, [bp + 2]");
    p.reset();
    assert_eq!(p.family, None);
    assert_eq!(p.mode, None);
    assert!(!p.has_next());
}

#[test]
fn displacement_byte_sign_extends() {
    let mut p = InstPart::new();
    p.parse_disp_byte(0xFF);
    assert_eq!(p.disp, -1);
    p.parse_disp_byte(0x7F);
    assert_eq!(p.disp, 127);
    p.parse_disp_byte(0x80);
    assert_eq!(p.disp, -128);
}

#[test]
fn displacement_word_reinterprets_as_signed() {
    let mut p = InstPart::new();
    p.parse_disp_word(0x1234);
    assert_eq!(p.disp, 0x1234);
    p.parse_disp_word(0xFFFE);
    assert_eq!(p.disp, -2);
    p.parse_disp_word(0x8000);
    assert_eq!(p.disp, i16::MIN);
}

#[test]
fn decimal_rendering() {
    assert_eq!(dec_string_u16(0), "0");
    assert_eq!(dec_string_u16(7), "7");
    assert_eq!(dec_string_u16(4660), "4660");
    assert_eq!(dec_string_u16(65535), "65535");
    assert_eq!(dec_string_i16(0), "0");
    assert_eq!(dec_string_i16(-1), "-1");
    assert_eq!(dec_string_i16(32767), "32767");
    assert_eq!(dec_string_i16(-32768), "-32768");
}

#[test]
fn program_text_has_header_and_one_line_per_instruction() {
    let insts = dasm86::decode::decode_all(vec![0x89, 0xD8, 0x8A, 0x00]).unwrap();
    let text = program_text(&insts);
    assert_eq!(text, "bits 16\n\nmov ax, bx\nmov al, [bx + si]\n");
}

#[test]
fn program_text_of_nothing_is_just_the_header() {
    let text = program_text(&Vec::new());
    assert_eq!(text, "bits 16\n\n");
}

#[test]
fn decode_program_renders_whole_streams() {
    let text = dasm86::decode::decode_program(vec![0x89, 0xD8, 0x8B, 0x4E, 0x02]).unwrap();
    assert_eq!(text, "bits 16\n\nmov ax, bx\nmov cx, [bp + 2]\n");
    let err = dasm86::decode::decode_program(vec![0x89]).unwrap_err();
    assert_eq!(err, dasm86::decode::DecodeError::TruncatedInstruction { offset: 1 });
}
