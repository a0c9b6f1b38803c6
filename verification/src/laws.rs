//! Decoder-wide properties, stated and proved over the specification
//! functions that the executable contracts use.

use vstd::prelude::*;
use crate::decode::DecodeError;
use crate::decode::spec_decode;
use crate::decode::spec_disp_value;
use crate::decode::spec_inst_len;
use crate::decode::spec_inst_texts;
use crate::decode::spec_step_error;
use crate::fields::AddressingMode;
use crate::fields::Direction;
use crate::fields::MOV_RM_REG;
use crate::fields::OpcodeFamily;
use crate::fields::addressing_mode_of;
use crate::fields::direction_of;
use crate::fields::family_of;
use crate::fields::mode_field;
use crate::fields::reg_field;
use crate::fields::rm_field;
use crate::fields::sign_extend_byte;
use crate::fields::signed16;
use crate::fields::wide_of;
use crate::text::byte_reg_name_seq;
use crate::text::reg_name_seq;
use crate::text::rm_operand_seq;
use crate::text::wide_reg_name_seq;

verus! {

/// The two-byte encoding of a register-to-register move with the given
/// direction, width, and register fields.
pub open spec fn encode_reg_reg(d: Direction, wide: bool, reg: u8, rm: u8) -> Seq<u8>
    recommends
        reg < 8,
        rm < 8,
{
    let db: u8 = if d == Direction::DestinationIsRegister {
        2
    } else {
        0
    };
    let wb: u8 = if wide {
        1
    } else {
        0
    };
    seq![MOV_RM_REG | db | wb, 0xC0u8 | (reg << 3) | rm]
}

/// Direction round-trip: encoding any register-to-register move and
/// decoding the two bytes again reproduces every field and, with it, the
/// original operand pairing — the register field names the destination
/// exactly when the direction bit says so.
pub proof fn lemma_reg_reg_round_trip(d: Direction, wide: bool, reg: u8, rm: u8)
    requires
        reg < 8,
        rm < 8,
    ensures
        ({
            let bs = encode_reg_reg(d, wide, reg, rm);
            &&& family_of(bs[0]) == OpcodeFamily::RegisterOrMemoryToRegister
            &&& direction_of(bs[0]) == d
            &&& wide_of(bs[0]) == wide
            &&& addressing_mode_of(bs[1]) == AddressingMode::RegisterDirect
            &&& reg_field(bs[1]) == reg
            &&& rm_field(bs[1]) == rm
            &&& spec_step_error(bs, 0) is None
            &&& spec_inst_texts(bs, 0) == (if d == Direction::DestinationIsRegister {
                ("mov"@, reg_name_seq(wide, reg as int), reg_name_seq(wide, rm as int))
            } else {
                ("mov"@, reg_name_seq(wide, rm as int), reg_name_seq(wide, reg as int))
            })
        }),
{
    let db: u8 = if d == Direction::DestinationIsRegister {
        2
    } else {
        0
    };
    let wb: u8 = if wide {
        1
    } else {
        0
    };
    assert((0x88u8 | db | wb) & 0xFC == 0x88 && ((0x88u8 | db | wb) & 0x02) >> 1 == db / 2 && (
    0x88u8 | db | wb) & 0x01 == wb) by (bit_vector)
        requires
            db == 0 || db == 2,
            wb == 0 || wb == 1,
    ;
    assert(((0xC0u8 | (reg << 3) | rm) & 0xC0) >> 6 == 3 && ((0xC0u8 | (reg << 3) | rm) & 0x38)
        >> 3 == reg && (0xC0u8 | (reg << 3) | rm) & 0x07 == rm) by (bit_vector)
        requires
            reg < 8,
            rm < 8,
    ;
}

/// Decoding a valid two-byte register-to-register encoding and then
/// re-encoding the decoded fields reproduces the original two bytes, and
/// with them the original operand pairing.
pub proof fn lemma_reg_reg_reencode(b1: u8, b2: u8)
    requires
        family_of(b1) == OpcodeFamily::RegisterOrMemoryToRegister,
        mode_field(b2) == 3,
    ensures
        encode_reg_reg(direction_of(b1), wide_of(b1), reg_field(b2), rm_field(b2)) == seq![b1, b2],
{
    let db: u8 = if direction_of(b1) == Direction::DestinationIsRegister {
        2
    } else {
        0
    };
    let wb: u8 = if wide_of(b1) {
        1
    } else {
        0
    };
    assert(db == b1 & 0x02) by (bit_vector)
        requires
            db == (if (b1 & 0x02) >> 1 == 1 {
                2u8
            } else {
                0u8
            }),
    ;
    assert(wb == b1 & 0x01) by (bit_vector)
        requires
            wb == (if b1 & 0x01 == 1 {
                1u8
            } else {
                0u8
            }),
    ;
    assert(0x88u8 | (b1 & 0x02) | (b1 & 0x01) == b1) by (bit_vector)
        requires
            b1 & 0xFC == 0x88,
    ;
    assert(0xC0u8 | (((b2 & 0x38) >> 3) << 3) | (b2 & 0x07) == b2) by (bit_vector)
        requires
            (b2 & 0xC0) >> 6 == 3,
    ;
    assert(encode_reg_reg(direction_of(b1), wide_of(b1), reg_field(b2), rm_field(b2)) =~= seq![
        b1,
        b2,
    ]);
}

/// A mode byte with mode 0 and register/memory field 6 always resolves to
/// `DirectAddress` with exactly two displacement bytes, never to
/// `MemoryNoDisplacement`.
pub proof fn lemma_direct_address(b2: u8)
    requires
        mode_field(b2) == 0,
        rm_field(b2) == 6,
    ensures
        addressing_mode_of(b2) == AddressingMode::DirectAddress,
        addressing_mode_of(b2) != AddressingMode::MemoryNoDisplacement,
        spec_inst_len(b2) == 4,
{
}

/// A mode byte with mode 1 declares exactly one displacement byte, and the
/// stored displacement is that byte sign-extended to 16 bits.
pub proof fn lemma_byte_displacement(bytes: Seq<u8>, p: int)
    requires
        0 <= p,
        p + 3 <= bytes.len(),
        mode_field(bytes[p + 1]) == 1,
    ensures
        spec_inst_len(bytes[p + 1]) == 3,
        spec_disp_value(bytes, p) == sign_extend_byte(bytes[p + 2]),
{
}

/// A mode byte with mode 2 declares exactly two displacement bytes, taken
/// in little-endian order: the first is the low half, the second the high
/// half.
pub proof fn lemma_word_displacement(bytes: Seq<u8>, p: int)
    requires
        0 <= p,
        p + 4 <= bytes.len(),
        mode_field(bytes[p + 1]) == 2,
    ensures
        spec_inst_len(bytes[p + 1]) == 4,
        spec_disp_value(bytes, p) == signed16(bytes[p + 2] + 256 * bytes[p + 3]),
{
}

/// In `RegisterDirect` mode both operands resolve through the register
/// table the width bit selects: the 8-bit table when the width bit is
/// clear, the 16-bit table when it is set.
pub proof fn lemma_register_direct_width(wide: bool, r: int, disp: int)
    requires
        0 <= r < 8,
    ensures
        rm_operand_seq(AddressingMode::RegisterDirect, wide, r, disp) == reg_name_seq(wide, r),
        !wide ==> reg_name_seq(wide, r) == byte_reg_name_seq(r),
        wide ==> reg_name_seq(wide, r) == wide_reg_name_seq(r),
{
}

/// A stream of zero bytes decodes to zero instructions and is not an
/// error.
pub proof fn lemma_empty_stream(bytes: Seq<u8>)
    requires
        bytes.len() == 0,
    ensures
        spec_decode(bytes, 0) == Ok::<Seq<(Seq<char>, Seq<char>, Seq<char>)>, DecodeError>(
            Seq::empty(),
        ),
{
}

/// A stream that ends right after a recognized opcode byte, with no mode
/// byte, fails with `TruncatedInstruction` at the end of the stream; no
/// partially filled instruction is produced.
pub proof fn lemma_truncated_after_opcode(bytes: Seq<u8>, p: int)
    requires
        0 <= p,
        p == bytes.len() - 1,
        family_of(bytes[p]) == OpcodeFamily::RegisterOrMemoryToRegister,
    ensures
        spec_step_error(bytes, p) == Some(
            DecodeError::TruncatedInstruction { offset: bytes.len() as usize },
        ),
        spec_decode(bytes, p) == Err::<Seq<(Seq<char>, Seq<char>, Seq<char>)>, DecodeError>(
            DecodeError::TruncatedInstruction { offset: bytes.len() as usize },
        ),
{
}

} // verus!
