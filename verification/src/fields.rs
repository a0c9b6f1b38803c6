//! Bit-level field extraction from instruction bytes.
//!
//! Every extractor is total: each 8-bit pattern has a defined decoding,
//! with `OpcodeFamily::Unrecognized` as the explicit catch-all.

use vstd::prelude::*;

verus! {

/// Mask selecting the opcode bits of a register/memory to/from register
/// move: everything above the direction and width bits.
pub const MOV_RM_REG_MASK: u8 = 0xFC;

/// Mask selecting the opcode bits of an immediate to register/memory
/// move: everything above the width bit.
pub const MOV_IMM_RM_MASK: u8 = 0xFE;

/// Mask selecting the opcode bits of an immediate to register move:
/// everything above the width bit and the register field.
pub const MOV_IMM_REG_MASK: u8 = 0xF0;

/// Mask selecting the direction bit of the first instruction byte.
pub const DIRECTION_MASK: u8 = 0x02;

/// Mask selecting the width bit of the first instruction byte.
pub const WIDE_MASK: u8 = 0x01;

/// Mask selecting the two mode bits of the mode byte.
pub const MODE_MASK: u8 = 0xC0;

/// Mask selecting the three register-field bits of the mode byte.
pub const REG_MASK: u8 = 0x38;

/// Mask selecting the three register/memory-field bits of the mode byte.
pub const RM_MASK: u8 = 0x07;

/// Opcode bits of a register/memory to/from register move.
pub const MOV_RM_REG: u8 = 0x88;

/// Opcode bits of an immediate to register/memory move.
pub const MOV_IMM_RM: u8 = 0xC6;

/// Opcode bits of an immediate to register move.
pub const MOV_IMM_REG: u8 = 0xB0;

/// The opcode family named by the first byte of an instruction.
/// Only `RegisterOrMemoryToRegister` is modelled by this decoder; the two
/// immediate families are recognized so that they fail cleanly rather than
/// being misread, and every other byte is `Unrecognized`.
#[derive(Clone, Copy, Debug, PartialEq, Eq, Structural)]
pub enum OpcodeFamily {
    RegisterOrMemoryToRegister,
    ImmediateToRegisterOrMemory,
    ImmediateToRegister,
    Unrecognized,
}

/// Which operand the register field names.
#[derive(Clone, Copy, Debug, PartialEq, Eq, Structural)]
pub enum Direction {
    SourceIsRegister,
    DestinationIsRegister,
}

/// The addressing mode resolved from the mode byte. `DirectAddress` is the
/// 8086 quirk: mode 0 with register/memory field 6 carries a 16-bit absolute
/// address instead of a true no-displacement form.
#[derive(Clone, Copy, Debug, PartialEq, Eq, Structural)]
pub enum AddressingMode {
    RegisterDirect,
    MemoryNoDisplacement,
    MemoryByteDisplacement,
    MemoryWordDisplacement,
    DirectAddress,
}

/// Width of a pending displacement field.
#[derive(Clone, Copy, Debug, PartialEq, Eq, Structural)]
pub enum DisplacementWidth {
    Byte,
    Word,
}

/// Opcode-family classification of a first instruction byte.
pub open spec fn family_of(b: u8) -> OpcodeFamily {
    if b & MOV_RM_REG_MASK == MOV_RM_REG {
        OpcodeFamily::RegisterOrMemoryToRegister
    } else if b & MOV_IMM_REG_MASK == MOV_IMM_REG {
        OpcodeFamily::ImmediateToRegister
    } else if b & MOV_IMM_RM_MASK == MOV_IMM_RM {
        OpcodeFamily::ImmediateToRegisterOrMemory
    } else {
        OpcodeFamily::Unrecognized
    }
}

/// The direction bit of a first instruction byte.
pub open spec fn direction_of(b: u8) -> Direction {
    if (b & DIRECTION_MASK) >> 1 == 1 {
        Direction::DestinationIsRegister
    } else {
        Direction::SourceIsRegister
    }
}

/// The width bit of a first instruction byte: true selects 16-bit operands.
pub open spec fn wide_of(b: u8) -> bool {
    b & WIDE_MASK == 1
}

/// The two mode bits of a mode byte, in `[0, 3]`.
pub open spec fn mode_field(b: u8) -> u8 {
    (b & MODE_MASK) >> 6
}

/// The register field of a mode byte, in `[0, 7]`.
pub open spec fn reg_field(b: u8) -> u8 {
    (b & REG_MASK) >> 3
}

/// The register/memory field of a mode byte, in `[0, 7]`.
pub open spec fn rm_field(b: u8) -> u8 {
    b & RM_MASK
}

/// The addressing mode resolved from the mode bits combined with the
/// register/memory field.
pub open spec fn addressing_mode_of(b: u8) -> AddressingMode {
    let m = mode_field(b);
    if m == 0 {
        if rm_field(b) == 6 {
            AddressingMode::DirectAddress
        } else {
            AddressingMode::MemoryNoDisplacement
        }
    } else if m == 1 {
        AddressingMode::MemoryByteDisplacement
    } else if m == 2 {
        AddressingMode::MemoryWordDisplacement
    } else {
        AddressingMode::RegisterDirect
    }
}

/// The width of the displacement field each addressing mode requires.
pub open spec fn disp_width_of(mode: AddressingMode) -> Option<DisplacementWidth> {
    match mode {
        AddressingMode::RegisterDirect => None,
        AddressingMode::MemoryNoDisplacement => None,
        AddressingMode::MemoryByteDisplacement => Some(DisplacementWidth::Byte),
        AddressingMode::MemoryWordDisplacement => Some(DisplacementWidth::Word),
        AddressingMode::DirectAddress => Some(DisplacementWidth::Word),
    }
}

/// A byte sign-extended to a 16-bit value, as a mathematical integer.
pub open spec fn sign_extend_byte(b: u8) -> int {
    if b < 0x80 {
        b as int
    } else {
        b as int - 0x100
    }
}

/// A 16-bit unsigned value reinterpreted as a signed 16-bit value.
pub open spec fn signed16(n: int) -> int {
    if n < 0x8000 {
        n
    } else {
        n - 0x10000
    }
}

/// The three-bit fields of a mode byte fit their tables, and the mode bits
/// fit in two bits.
pub proof fn lemma_field_ranges(b: u8)
    ensures
        reg_field(b) < 8,
        rm_field(b) < 8,
        mode_field(b) < 4,
{
    assert((b & 0x38) >> 3 < 8) by (bit_vector);
    assert(b & 0x07 < 8) by (bit_vector);
    assert((b & 0xC0) >> 6 < 4) by (bit_vector);
}

} // verus!
