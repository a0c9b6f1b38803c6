//! The decoder state machine: per-instruction accumulation of opcode,
//! mode, and displacement bytes, and the driver that decodes a whole
//! byte stream.

use vstd::prelude::*;
use crate::cursor::ByteStream;
use crate::cursor::word_le;
use crate::fields::AddressingMode;
use crate::fields::Direction;
use crate::fields::DisplacementWidth;
use crate::fields::OpcodeFamily;
use crate::fields::DIRECTION_MASK;
use crate::fields::MODE_MASK;
use crate::fields::MOV_IMM_REG;
use crate::fields::MOV_IMM_REG_MASK;
use crate::fields::MOV_IMM_RM;
use crate::fields::MOV_IMM_RM_MASK;
use crate::fields::MOV_RM_REG;
use crate::fields::MOV_RM_REG_MASK;
use crate::fields::REG_MASK;
use crate::fields::RM_MASK;
use crate::fields::WIDE_MASK;
use crate::fields::addressing_mode_of;
use crate::fields::direction_of;
use crate::fields::disp_width_of;
use crate::fields::family_of;
use crate::fields::lemma_field_ranges;
use crate::fields::reg_field;
use crate::fields::rm_field;
use crate::fields::sign_extend_byte;
use crate::fields::signed16;
use crate::fields::wide_of;
use crate::inst::Inst;
use crate::inst::inst_texts;
use crate::inst::insts_texts;
use crate::inst::program_seq;
use crate::inst::program_text;
use crate::text::base_expr;
use crate::text::dec_string_i16;
use crate::text::reg_name;
use crate::text::reg_name_seq;
use crate::text::rm_operand_seq;

verus! {

/// The per-instruction accumulator. It is reset to a neutral value before
/// each instruction and filled in as the instruction's bytes arrive: first
/// the opcode byte, then the mode byte, then any displacement bytes.
pub struct InstPart {
    /// The opcode family, once the opcode byte has been parsed.
    pub family: Option<OpcodeFamily>,
    /// The direction bit of the opcode byte, for the register/memory family.
    pub direction: Option<Direction>,
    /// The width bit: true selects 16-bit operands.
    pub wide: bool,
    /// The addressing mode, once the mode byte has been parsed.
    pub mode: Option<AddressingMode>,
    /// The register field of the mode byte, in `[0, 7]`.
    pub reg: u8,
    /// The register/memory field of the mode byte, in `[0, 7]`.
    pub rm: u8,
    /// The displacement, sign-extended to 16 bits when byte-width.
    pub disp: i16,
    /// True while more bytes of the current instruction are pending.
    pub next: bool,
    /// The width of the pending displacement, if one is pending.
    pub disp_type: Option<DisplacementWidth>,
}

impl InstPart {
    /// The register fields always index the eight-entry tables.
    pub open spec fn inv(&self) -> bool {
        &&& self.reg < 8
        &&& self.rm < 8
    }

    /// The neutral state: nothing parsed, nothing pending.
    pub open spec fn is_reset(&self) -> bool {
        &&& self.family is None
        &&& self.direction is None
        &&& !self.wide
        &&& self.mode is None
        &&& self.reg == 0
        &&& self.rm == 0
        &&& self.disp == 0
        &&& !self.next
        &&& self.disp_type is None
    }

    /// The accumulator holds a complete register/memory-family instruction
    /// and can be rendered.
    pub open spec fn complete(&self) -> bool {
        &&& self.family == Some(OpcodeFamily::RegisterOrMemoryToRegister)
        &&& self.direction is Some
        &&& self.mode is Some
        &&& self.mode == Some(AddressingMode::MemoryNoDisplacement) ==> self.rm != 6
    }

    /// A fresh accumulator in the neutral state.
    pub fn new() -> (p: InstPart)
        ensures
            p.inv(),
            p.is_reset(),
    {
        InstPart {
            family: None,
            direction: None,
            wide: false,
            mode: None,
            reg: 0,
            rm: 0,
            disp: 0,
            next: false,
            disp_type: None,
        }
    }

    /// Returns the accumulator to the neutral state, ready for the next
    /// instruction.
    pub fn reset(&mut self)
        ensures
            final(self).inv(),
            final(self).is_reset(),
    {
        self.family = None;
        self.direction = None;
        self.wide = false;
        self.mode = None;
        self.reg = 0;
        self.rm = 0;
        self.disp = 0;
        self.next = false;
        self.disp_type = None;
    }

    /// Classifies the opcode family of a first instruction byte. Every
    /// byte value has a defined classification.
    pub fn opcode(byte: u8) -> (f: OpcodeFamily)
        ensures
            f == family_of(byte),
    {
        if byte & MOV_RM_REG_MASK == MOV_RM_REG {
            OpcodeFamily::RegisterOrMemoryToRegister
        } else if byte & MOV_IMM_REG_MASK == MOV_IMM_REG {
            OpcodeFamily::ImmediateToRegister
        } else if byte & MOV_IMM_RM_MASK == MOV_IMM_RM {
            OpcodeFamily::ImmediateToRegisterOrMemory
        } else {
            OpcodeFamily::Unrecognized
        }
    }

    /// Feeds one byte to the accumulator. In the neutral state the byte is
    /// the opcode byte: it establishes the family and, for the
    /// register/memory family, the direction and width, and marks that a
    /// mode byte follows. After a register/memory opcode byte, the byte is
    /// the mode byte: it establishes the register fields, the addressing
    /// mode, and the width of any pending displacement.
    pub fn parse(&mut self, byte: u8)
        requires
            old(self).inv(),
            old(self).family is None || (old(self).family == Some(
                OpcodeFamily::RegisterOrMemoryToRegister,
            ) && old(self).mode is None),
        ensures
            final(self).inv(),
            old(self).family is None ==> {
                &&& final(self).family == Some(family_of(byte))
                &&& (family_of(byte) == OpcodeFamily::RegisterOrMemoryToRegister ==> {
                    &&& final(self).direction == Some(direction_of(byte))
                    &&& final(self).wide == wide_of(byte)
                    &&& final(self).next
                })
                &&& (family_of(byte) != OpcodeFamily::RegisterOrMemoryToRegister ==> {
                    &&& final(self).direction == old(self).direction
                    &&& final(self).wide == old(self).wide
                    &&& !final(self).next
                })
                &&& final(self).mode == old(self).mode
                &&& final(self).reg == old(self).reg
                &&& final(self).rm == old(self).rm
                &&& final(self).disp == old(self).disp
                &&& final(self).disp_type == old(self).disp_type
            },
            old(self).family is Some ==> {
                &&& final(self).reg == reg_field(byte)
                &&& final(self).rm == rm_field(byte)
                &&& final(self).mode == Some(addressing_mode_of(byte))
                &&& final(self).disp_type == disp_width_of(addressing_mode_of(byte))
                &&& final(self).next == (disp_width_of(addressing_mode_of(byte)) is Some)
                &&& final(self).family == old(self).family
                &&& final(self).direction == old(self).direction
                &&& final(self).wide == old(self).wide
                &&& final(self).disp == old(self).disp
            },
    {
        if self.family.is_none() {
            let f = Self::opcode(byte);
            self.family = Some(f);
            if f == OpcodeFamily::RegisterOrMemoryToRegister {
                self.next = true;
                let dir_bit = (byte & DIRECTION_MASK) >> 1;
                if dir_bit == 1 {
                    self.direction = Some(Direction::DestinationIsRegister);
                } else {
                    self.direction = Some(Direction::SourceIsRegister);
                }
                self.wide = byte & WIDE_MASK == 1;
            } else {
                self.next = false;
            }
        } else {
            self.reg = (byte & REG_MASK) >> 3;
            self.rm = byte & RM_MASK;
            proof {
                lemma_field_ranges(byte);
            }
            let m = (byte & MODE_MASK) >> 6;
            if m == 0 {
                if self.rm == 6 {
                    self.mode = Some(AddressingMode::DirectAddress);
                    self.disp_type = Some(DisplacementWidth::Word);
                    self.next = true;
                } else {
                    self.mode = Some(AddressingMode::MemoryNoDisplacement);
                    self.disp_type = None;
                    self.next = false;
                }
            } else if m == 1 {
                self.mode = Some(AddressingMode::MemoryByteDisplacement);
                self.disp_type = Some(DisplacementWidth::Byte);
                self.next = true;
            } else if m == 2 {
                self.mode = Some(AddressingMode::MemoryWordDisplacement);
                self.disp_type = Some(DisplacementWidth::Word);
                self.next = true;
            } else {
                self.mode = Some(AddressingMode::RegisterDirect);
                self.disp_type = None;
                self.next = false;
            }
        }
    }

    /// Stores a byte-width displacement, sign-extended to 16 bits, and
    /// marks the instruction complete.
    pub fn parse_disp_byte(&mut self, byte: u8)
        requires
            old(self).inv(),
        ensures
            final(self).inv(),
            final(self).disp as int == sign_extend_byte(byte),
            !final(self).next,
            final(self).family == old(self).family,
            final(self).direction == old(self).direction,
            final(self).wide == old(self).wide,
            final(self).mode == old(self).mode,
            final(self).reg == old(self).reg,
            final(self).rm == old(self).rm,
            final(self).disp_type == old(self).disp_type,
    {
        let v: i16 = byte as i16;
        self.disp = if byte < 0x80 {
            v
        } else {
            v - 0x100
        };
        self.next = false;
    }

    /// Stores a word-width displacement, reinterpreted as a signed 16-bit
    /// value, and marks the instruction complete.
    pub fn parse_disp_word(&mut self, word: u16)
        requires
            old(self).inv(),
        ensures
            final(self).inv(),
            final(self).disp as int == signed16(word as int),
            !final(self).next,
            final(self).family == old(self).family,
            final(self).direction == old(self).direction,
            final(self).wide == old(self).wide,
            final(self).mode == old(self).mode,
            final(self).reg == old(self).reg,
            final(self).rm == old(self).rm,
            final(self).disp_type == old(self).disp_type,
    {
        self.disp = if word < 0x8000 {
            word as i16
        } else {
            ((word as i32) - 0x10000) as i16
        };
        self.next = false;
    }

    /// True while more bytes of the current instruction are pending.
    pub fn has_next(&self) -> (r: bool)
        ensures
            r == self.next,
    {
        self.next
    }

    /// Renders the completed accumulator as an instruction record. The
    /// register operand and the register/memory operand are assigned to
    /// destination and source according to the direction bit.
    pub fn into_inst(&self) -> (inst: Inst)
        requires
            self.inv(),
            self.complete(),
        ensures
            inst.mnemonic@ == "mov"@,
            ({
                let reg_text = reg_name_seq(self.wide, self.reg as int);
                let rm_text = rm_operand_seq(
                    self.mode.unwrap(),
                    self.wide,
                    self.rm as int,
                    self.disp as int,
                );
                if self.direction == Some(Direction::DestinationIsRegister) {
                    inst.dst@ == reg_text && inst.src@ == rm_text
                } else {
                    inst.dst@ == rm_text && inst.src@ == reg_text
                }
            }),
    {
        let reg_s = String::from_str(reg_name(self.wide, self.reg));
        let rm_s: String = match self.mode {
            Some(AddressingMode::RegisterDirect) => String::from_str(
                reg_name(self.wide, self.rm),
            ),
            Some(AddressingMode::MemoryNoDisplacement) => {
                let s = String::from_str("[").concat(base_expr(self.rm)).concat("]");
                proof {
                    assert(s@ =~= rm_operand_seq(
                        self.mode.unwrap(),
                        self.wide,
                        self.rm as int,
                        self.disp as int,
                    ));
                }
                s
            },
            Some(AddressingMode::MemoryByteDisplacement) | Some(
                AddressingMode::MemoryWordDisplacement,
            ) => {
                let d = dec_string_i16(self.disp);
                let s = String::from_str("[").concat(base_expr(self.rm)).concat(" + ").concat(
                    d.as_str(),
                ).concat("]");
                proof {
                    assert(s@ =~= rm_operand_seq(
                        self.mode.unwrap(),
                        self.wide,
                        self.rm as int,
                        self.disp as int,
                    ));
                }
                s
            },
            Some(AddressingMode::DirectAddress) => {
                let d = dec_string_i16(self.disp);
                let s = String::from_str("[").concat(d.as_str()).concat("]");
                proof {
                    assert(s@ =~= rm_operand_seq(
                        self.mode.unwrap(),
                        self.wide,
                        self.rm as int,
                        self.disp as int,
                    ));
                }
                s
            },
            None => {
                proof {
                    assert(false);
                }
                String::new()
            },
        };
        let mnemonic = String::from_str("mov");
        if matches!(self.direction, Some(Direction::DestinationIsRegister)) {
            Inst { mnemonic, dst: reg_s, src: rm_s }
        } else {
            Inst { mnemonic, dst: rm_s, src: reg_s }
        }
    }
}

/// A fatal decode failure. `offset` is the byte offset at which the
/// failure was found; the offending byte value is carried where there is
/// one. Normal end of input between instructions is not an error and is
/// not represented here.
#[derive(Clone, Copy, Debug, PartialEq, Eq, Structural)]
pub enum DecodeError {
    /// Input ended while bytes of the current instruction were still
    /// pending; `offset` is where the missing bytes would have begun.
    TruncatedInstruction { offset: usize },
    /// The first byte of an instruction matches no known opcode family.
    UnrecognizedOpcode { byte: u8, offset: usize },
    /// The first byte names a known opcode family that this decoder does
    /// not model; treated identically to an unrecognized opcode.
    InvalidFieldCombination { byte: u8, offset: usize },
}

/// How many displacement bytes the mode byte `b2` declares.
pub open spec fn spec_disp_len(b2: u8) -> int {
    match disp_width_of(addressing_mode_of(b2)) {
        None => 0,
        Some(DisplacementWidth::Byte) => 1,
        Some(DisplacementWidth::Word) => 2,
    }
}

/// The total encoded length of an instruction whose mode byte is `b2`:
/// the opcode byte, the mode byte, and the declared displacement bytes.
pub open spec fn spec_inst_len(b2: u8) -> int {
    2 + spec_disp_len(b2)
}

/// The error, if any, of decoding one instruction starting at `p`, which
/// must lie inside the buffer. Exactly one of the three failures applies,
/// or decoding succeeds.
pub open spec fn spec_step_error(bytes: Seq<u8>, p: int) -> Option<DecodeError>
    recommends
        0 <= p < bytes.len(),
{
    let b1 = bytes[p];
    if family_of(b1) == OpcodeFamily::Unrecognized {
        Some(DecodeError::UnrecognizedOpcode { byte: b1, offset: p as usize })
    } else if family_of(b1) != OpcodeFamily::RegisterOrMemoryToRegister {
        Some(DecodeError::InvalidFieldCombination { byte: b1, offset: p as usize })
    } else if p + 1 >= bytes.len() {
        Some(DecodeError::TruncatedInstruction { offset: (p + 1) as usize })
    } else if p + spec_inst_len(bytes[p + 1]) > bytes.len() {
        Some(DecodeError::TruncatedInstruction { offset: (p + 2) as usize })
    } else {
        None
    }
}

/// The cursor position after a failed decode step at `p`: just past the
/// opcode byte, or just past the mode byte when one was read.
pub open spec fn spec_err_pos(bytes: Seq<u8>, p: int) -> int {
    if family_of(bytes[p]) != OpcodeFamily::RegisterOrMemoryToRegister {
        p + 1
    } else if p + 1 >= bytes.len() {
        p + 1
    } else {
        p + 2
    }
}

/// The signed displacement value of the instruction at `p`: zero when the
/// mode declares none, the sign-extended byte at `p + 2` for a byte-width
/// displacement, and the little-endian word at `p + 2` reinterpreted as
/// signed for a word-width one.
pub open spec fn spec_disp_value(bytes: Seq<u8>, p: int) -> int
    recommends
        0 <= p,
        p + spec_inst_len(bytes[p + 1]) <= bytes.len(),
{
    match disp_width_of(addressing_mode_of(bytes[p + 1])) {
        None => 0,
        Some(DisplacementWidth::Byte) => sign_extend_byte(bytes[p + 2]),
        Some(DisplacementWidth::Word) => signed16(word_le(bytes[p + 2], bytes[p + 3])),
    }
}

/// The rendered text fields of the instruction at `p`: the mnemonic, the
/// destination operand, and the source operand, with the register operand
/// and the register/memory operand assigned by the direction bit.
pub open spec fn spec_inst_texts(bytes: Seq<u8>, p: int) -> (Seq<char>, Seq<char>, Seq<char>)
    recommends
        0 <= p,
        p + spec_inst_len(bytes[p + 1]) <= bytes.len(),
{
    let b1 = bytes[p];
    let b2 = bytes[p + 1];
    let reg_text = reg_name_seq(wide_of(b1), reg_field(b2) as int);
    let rm_text = rm_operand_seq(
        addressing_mode_of(b2),
        wide_of(b1),
        rm_field(b2) as int,
        spec_disp_value(bytes, p),
    );
    if direction_of(b1) == Direction::DestinationIsRegister {
        ("mov"@, reg_text, rm_text)
    } else {
        ("mov"@, rm_text, reg_text)
    }
}

/// Decodes one instruction from the stream. The cursor must stand on an
/// opcode byte. On success the cursor has advanced past the whole
/// instruction and the result carries its rendered text fields; on failure
/// the error and the cursor position are pinned exactly.
pub fn decode_one(stream: &mut ByteStream) -> (r: Result<Inst, DecodeError>)
    requires
        old(stream).inv(),
        old(stream).remaining() > 0,
    ensures
        final(stream).inv(),
        final(stream).bytes@ == old(stream).bytes@,
        ({
            let bytes = old(stream).bytes@;
            let p = old(stream).pos as int;
            match spec_step_error(bytes, p) {
                Some(e) => r == Err::<Inst, DecodeError>(e) && final(stream).pos == spec_err_pos(
                    bytes,
                    p,
                ),
                None => {
                    &&& final(stream).pos == p + spec_inst_len(bytes[p + 1])
                    &&& r matches Ok(inst) && inst_texts(inst) == spec_inst_texts(bytes, p)
                },
            }
        }),
{
    let start: usize = stream.pos;
    let mut part = InstPart::new();
    let b1 = stream.read_byte().unwrap();
    let fam = InstPart::opcode(b1);
    if fam == OpcodeFamily::Unrecognized {
        return Err(DecodeError::UnrecognizedOpcode { byte: b1, offset: start });
    }
    if fam != OpcodeFamily::RegisterOrMemoryToRegister {
        return Err(DecodeError::InvalidFieldCombination { byte: b1, offset: start });
    }
    part.parse(b1);
    let b2 = match stream.read_byte() {
        Some(b) => b,
        None => {
            return Err(DecodeError::TruncatedInstruction { offset: stream.pos });
        },
    };
    part.parse(b2);
    if part.has_next() {
        match part.disp_type {
            Some(DisplacementWidth::Byte) => {
                match stream.read_byte() {
                    Some(b) => part.parse_disp_byte(b),
                    None => {
                        return Err(DecodeError::TruncatedInstruction { offset: stream.pos });
                    },
                }
            },
            Some(DisplacementWidth::Word) => {
                match stream.read_word() {
                    Some(w) => part.parse_disp_word(w),
                    None => {
                        return Err(DecodeError::TruncatedInstruction { offset: stream.pos });
                    },
                }
            },
            None => {
                proof {
                    assert(false);
                }
            },
        }
    }
    let inst = part.into_inst();
    Ok(inst)
}

/// The decoding of a whole buffer from position `p` on: the rendered text
/// fields of each instruction in order, or the first fatal error. An
/// exhausted buffer decodes to the empty sequence.
pub open spec fn spec_decode(bytes: Seq<u8>, p: int) -> Result<
    Seq<(Seq<char>, Seq<char>, Seq<char>)>,
    DecodeError,
>
    decreases bytes.len() - p,
{
    if p < 0 || p >= bytes.len() {
        Ok(Seq::empty())
    } else {
        match spec_step_error(bytes, p) {
            Some(e) => Err(e),
            None => match spec_decode(bytes, p + spec_inst_len(bytes[p + 1])) {
                Err(e) => Err(e),
                Ok(rest) => Ok(seq![spec_inst_texts(bytes, p)] + rest),
            },
        }
    }
}

/// Decodes a whole buffer into its ordered sequence of instructions, or
/// the first fatal error. A buffer of zero bytes decodes to zero
/// instructions and is not an error.
pub fn decode_all(bytes: Vec<u8>) -> (r: Result<Vec<Inst>, DecodeError>)
    ensures
        match spec_decode(bytes@, 0) {
            Ok(ts) => r matches Ok(v) && insts_texts(v@) == ts,
            Err(e) => r == Err::<Vec<Inst>, DecodeError>(e),
        },
{
    let ghost all = bytes@;
    let mut stream = ByteStream::new(bytes);
    let mut out: Vec<Inst> = Vec::new();
    while !stream.is_empty()
        invariant
            stream.inv(),
            stream.bytes@ == all,
            all == bytes@,
            match spec_decode(all, stream.pos as int) {
                Ok(rest) => spec_decode(all, 0) matches Ok(ts) && ts == insts_texts(out@) + rest,
                Err(e) => spec_decode(all, 0) == Err::<
                    Seq<(Seq<char>, Seq<char>, Seq<char>)>,
                    DecodeError,
                >(e),
            },
        decreases all.len() - stream.pos,
    {
        let ghost p = stream.pos as int;
        match decode_one(&mut stream) {
            Ok(inst) => {
                proof {
                    let rest = spec_decode(all, p + spec_inst_len(all[p + 1]));
                    assert(rest is Ok ==> insts_texts(out@.push(inst)) + rest.unwrap() =~= insts_texts(
                        out@,
                    ) + (seq![spec_inst_texts(all, p)] + rest.unwrap()));
                }
                out.push(inst);
            },
            Err(e) => {
                return Err(e);
            },
        }
    }
    proof {
        assert(insts_texts(out@) + Seq::<(Seq<char>, Seq<char>, Seq<char>)>::empty() =~= insts_texts(
            out@,
        ));
    }
    Ok(out)
}

/// Decodes a whole buffer and renders it as a complete program text: the
/// `bits 16` header, a blank line, then one assembly line per instruction;
/// or the first fatal decode error.
pub fn decode_program(bytes: Vec<u8>) -> (r: Result<String, DecodeError>)
    ensures
        match spec_decode(bytes@, 0) {
            Ok(ts) => r matches Ok(s) && s@ == program_seq(ts),
            Err(e) => r == Err::<String, DecodeError>(e),
        },
{
    match decode_all(bytes) {
        Ok(insts) => Ok(program_text(&insts)),
        Err(e) => Err(e),
    }
}

} // verus!
