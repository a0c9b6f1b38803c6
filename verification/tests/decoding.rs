use dasm86::decode::{decode_all, DecodeError};

fn lines(bytes: Vec<u8>) -> Vec<String> {
    decode_all(bytes)
        .expect("stream should decode")
        .iter()
        .map(|i| i.line())
        .collect()
}

#[test]
fn wide_register_to_register() {
    // mov ax, bx: direction = source-is-register, wide, mode 3, reg bx, rm ax
    let insts = decode_all(vec![0x89, 0xD8]).unwrap();
    assert_eq!(insts.len(), 1);
    assert_eq!(insts[0].mnemonic, "mov");
    assert_eq!(insts[0].dst, "ax");
    assert_eq!(insts[0].src, "bx");
    assert_eq!(insts[0].line(), "mov ax, bx");
}

#[test]
fn byte_width_memory_no_displacement() {
    // mov al, [bx + si]: byte width, destination-is-register, mode 0
    let insts = decode_all(vec![0x8A, 0x00]).unwrap();
    assert_eq!(insts.len(), 1);
    assert_eq!(insts[0].dst, "al");
    assert_eq!(insts[0].src, "[bx + si]");
}

#[test]
fn byte_displacement_through_bp() {
    // mov cx, [bp + 2]: wide, destination-is-register, mode 1, rm 6
    let insts = decode_all(vec![0x8B, 0x4E, 0x02]).unwrap();
    assert_eq!(insts.len(), 1);
    assert_eq!(insts[0].dst, "cx");
    assert_eq!(insts[0].src, "[bp + 2]");
}

#[test]
fn empty_stream_is_no_error() {
    let insts = decode_all(vec![]).unwrap();
    assert_eq!(insts.len(), 0);
}

#[test]
fn opcode_without_mode_byte_is_truncated() {
    let r = decode_all(vec![0x89]);
    assert_eq!(r.unwrap_err(), DecodeError::TruncatedInstruction { offset: 1 });
}

#[test]
fn missing_displacement_byte_is_truncated() {
    let r = decode_all(vec![0x8B, 0x4E]);
    assert_eq!(r.unwrap_err(), DecodeError::TruncatedInstruction { offset: 2 });
}

#[test]
fn half_word_displacement_is_truncated() {
    // mode 2 declares two displacement bytes; only one is present
    let r = decode_all(vec![0x8B, 0x8E, 0x34]);
    assert_eq!(r.unwrap_err(), DecodeError::TruncatedInstruction { offset: 2 });
}

#[test]
fn unknown_opcode_byte_is_rejected() {
    let r = decode_all(vec![0x00]);
    assert_eq!(r.unwrap_err(), DecodeError::UnrecognizedOpcode { byte: 0x00, offset: 0 });
}

#[test]
fn unmodelled_families_are_rejected() {
    let r = decode_all(vec![0xB0, 0x05]);
    assert_eq!(r.unwrap_err(), DecodeError::InvalidFieldCombination { byte: 0xB0, offset: 0 });
    let r = decode_all(vec![0xC6, 0x05]);
    assert_eq!(r.unwrap_err(), DecodeError::InvalidFieldCombination { byte: 0xC6, offset: 0 });
}

#[test]
fn error_offset_counts_earlier_instructions() {
    let r = decode_all(vec![0x89, 0xD8, 0x00]);
    assert_eq!(r.unwrap_err(), DecodeError::UnrecognizedOpcode { byte: 0x00, offset: 2 });
}

#[test]
fn byte_displacement_is_sign_extended() {
    // displacement byte 0xFF is -1
    assert_eq!(lines(vec![0x8B, 0x4E, 0xFF]), vec!["mov cx, [bp + -1]"]);
}

#[test]
fn word_displacement_is_little_endian() {
    // bytes 0x34, 0x12 form displacement 0x1234 = 4660
    assert_eq!(lines(vec![0x8B, 0x8E, 0x34, 0x12]), vec!["mov cx, [bp + 4660]"]);
}

#[test]
fn negative_word_displacement() {
    assert_eq!(lines(vec![0x8B, 0x8E, 0xFE, 0xFF]), vec!["mov cx, [bp + -2]"]);
}

#[test]
fn mode_zero_rm_six_is_a_direct_address() {
    // no base expression: the two bytes carry a 16-bit absolute address
    assert_eq!(lines(vec![0x8B, 0x0E, 0x34, 0x12]), vec!["mov cx, [4660]"]);
}

#[test]
fn byte_width_register_to_register() {
    // mov cl, al: byte width, source-is-register, mode 3, reg al, rm cl
    assert_eq!(lines(vec![0x88, 0xC1]), vec!["mov cl, al"]);
}

#[test]
fn byte_register_table_order() {
    let names = ["al", "cl", "dl", "bl", "ah", "ch", "dh", "bh"];
    for r in 0..8u8 {
        // byte width, destination-is-register, mode 3, reg = rm = r
        let insts = decode_all(vec![0x8A, 0xC0 | (r << 3) | r]).unwrap();
        assert_eq!(insts[0].dst, names[r as usize]);
        assert_eq!(insts[0].src, names[r as usize]);
    }
}

#[test]
fn wide_register_table_order() {
    let names = ["ax", "cx", "dx", "bx", "sp", "bp", "si", "di"];
    for r in 0..8u8 {
        let insts = decode_all(vec![0x8B, 0xC0 | (r << 3) | r]).unwrap();
        assert_eq!(insts[0].dst, names[r as usize]);
        assert_eq!(insts[0].src, names[r as usize]);
    }
}

#[test]
fn base_expression_table_order() {
    let bases = [
        "[bx + si]",
        "[bx + di]",
        "[bp + si]",
        "[bp + di]",
        "[si]",
        "[di]",
        "",
        "[bx]",
    ];
    for rm in 0..8u8 {
        if rm == 6 {
            // mode 0 with rm 6 is the direct-address quirk, tested above
            continue;
        }
        let insts = decode_all(vec![0x8A, rm]).unwrap();
        assert_eq!(insts[0].src, bases[rm as usize]);
    }
}

#[test]
fn several_instructions_in_one_stream() {
    let got = lines(vec![0x89, 0xD8, 0x8A, 0x00, 0x8B, 0x4E, 0x02]);
    assert_eq!(got, vec!["mov ax, bx", "mov al, [bx + si]", "mov cx, [bp + 2]"]);
}

#[test]
fn direction_round_trip_pairs_operands() {
    // same fields, both direction bits: the operand pairing swaps
    for reg in 0..8u8 {
        for rm in 0..8u8 {
            let b2 = 0xC0 | (reg << 3) | rm;
            let reg_dst = decode_all(vec![0x8B, b2]).unwrap();
            let reg_src = decode_all(vec![0x89, b2]).unwrap();
            assert_eq!(reg_dst[0].dst, reg_src[0].src);
            assert_eq!(reg_dst[0].src, reg_src[0].dst);
        }
    }
}
