//! Symbolic register names, effective-address base expressions, and
//! decimal rendering of displacement values.

use vstd::prelude::*;
use crate::fields::AddressingMode;

verus! {

/// The 8-bit register named by a register field value.
pub open spec fn byte_reg_name_seq(r: int) -> Seq<char> {
    if r == 0 {
        "al"@
    } else if r == 1 {
        "cl"@
    } else if r == 2 {
        "dl"@
    } else if r == 3 {
        "bl"@
    } else if r == 4 {
        "ah"@
    } else if r == 5 {
        "ch"@
    } else if r == 6 {
        "dh"@
    } else {
        "bh"@
    }
}

/// The 16-bit register named by a register field value.
pub open spec fn wide_reg_name_seq(r: int) -> Seq<char> {
    if r == 0 {
        "ax"@
    } else if r == 1 {
        "cx"@
    } else if r == 2 {
        "dx"@
    } else if r == 3 {
        "bx"@
    } else if r == 4 {
        "sp"@
    } else if r == 5 {
        "bp"@
    } else if r == 6 {
        "si"@
    } else {
        "di"@
    }
}

/// The register name selected by the width bit: the 16-bit table when
/// `wide`, the 8-bit table otherwise.
pub open spec fn reg_name_seq(wide: bool, r: int) -> Seq<char> {
    if wide {
        wide_reg_name_seq(r)
    } else {
        byte_reg_name_seq(r)
    }
}

/// The effective-address base expression named by a register/memory field
/// value, used by the memory addressing modes.
pub open spec fn base_expr_seq(rm: int) -> Seq<char> {
    if rm == 0 {
        "bx + si"@
    } else if rm == 1 {
        "bx + di"@
    } else if rm == 2 {
        "bp + si"@
    } else if rm == 3 {
        "bp + di"@
    } else if rm == 4 {
        "si"@
    } else if rm == 5 {
        "di"@
    } else if rm == 6 {
        "bp"@
    } else {
        "bx"@
    }
}

/// The decimal digit character for a value in `[0, 9]`.
pub open spec fn dec_digit(d: int) -> char {
    if d == 0 {
        '0'
    } else if d == 1 {
        '1'
    } else if d == 2 {
        '2'
    } else if d == 3 {
        '3'
    } else if d == 4 {
        '4'
    } else if d == 5 {
        '5'
    } else if d == 6 {
        '6'
    } else if d == 7 {
        '7'
    } else if d == 8 {
        '8'
    } else {
        '9'
    }
}

/// The decimal digit string of a natural number, most significant digit
/// first, with no leading zeros except for zero itself.
pub open spec fn dec_nat(n: nat) -> Seq<char>
    decreases n,
{
    if n < 10 {
        seq![dec_digit(n as int)]
    } else {
        dec_nat(n / 10).push(dec_digit((n % 10) as int))
    }
}

/// The decimal string of an integer: a minus sign before the digit string
/// of the magnitude when negative.
pub open spec fn dec_int(d: int) -> Seq<char> {
    if d < 0 {
        seq!['-'] + dec_nat((-d) as nat)
    } else {
        dec_nat(d as nat)
    }
}

/// The text of the register/memory operand: a bare register name for
/// `RegisterDirect`, a bracketed base expression for the memory modes with
/// the signed displacement appended when one was consumed, and the bare
/// bracketed address for `DirectAddress`.
pub open spec fn rm_operand_seq(mode: AddressingMode, wide: bool, rm: int, disp: int) -> Seq<
    char,
> {
    match mode {
        AddressingMode::RegisterDirect => reg_name_seq(wide, rm),
        AddressingMode::MemoryNoDisplacement => "["@ + base_expr_seq(rm) + "]"@,
        AddressingMode::MemoryByteDisplacement => "["@ + base_expr_seq(rm) + " + "@ + dec_int(
            disp,
        ) + "]"@,
        AddressingMode::MemoryWordDisplacement => "["@ + base_expr_seq(rm) + " + "@ + dec_int(
            disp,
        ) + "]"@,
        AddressingMode::DirectAddress => "["@ + dec_int(disp) + "]"@,
    }
}

/// The register name for a register field value, from the table the width
/// bit selects.
pub fn reg_name(wide: bool, r: u8) -> (s: &'static str)
    requires
        r < 8,
    ensures
        s@ == reg_name_seq(wide, r as int),
{
    if wide {
        match r {
            0 => "ax",
            1 => "cx",
            2 => "dx",
            3 => "bx",
            4 => "sp",
            5 => "bp",
            6 => "si",
            _ => "di",
        }
    } else {
        match r {
            0 => "al",
            1 => "cl",
            2 => "dl",
            3 => "bl",
            4 => "ah",
            5 => "ch",
            6 => "dh",
            _ => "bh",
        }
    }
}

/// The effective-address base expression for a register/memory field value.
pub fn base_expr(rm: u8) -> (s: &'static str)
    requires
        rm < 8,
    ensures
        s@ == base_expr_seq(rm as int),
{
    match rm {
        0 => "bx + si",
        1 => "bx + di",
        2 => "bp + si",
        3 => "bp + di",
        4 => "si",
        5 => "di",
        6 => "bp",
        _ => "bx",
    }
}

/// The one-character string for a decimal digit value.
fn digit_str(d: u16) -> (s: &'static str)
    requires
        d < 10,
    ensures
        s@ == seq![dec_digit(d as int)],
{
    let s = match d {
        0 => "0",
        1 => "1",
        2 => "2",
        3 => "3",
        4 => "4",
        5 => "5",
        6 => "6",
        7 => "7",
        8 => "8",
        _ => "9",
    };
    proof {
        reveal_strlit("0");
        reveal_strlit("1");
        reveal_strlit("2");
        reveal_strlit("3");
        reveal_strlit("4");
        reveal_strlit("5");
        reveal_strlit("6");
        reveal_strlit("7");
        reveal_strlit("8");
        reveal_strlit("9");
        assert(s@ =~= seq![dec_digit(d as int)]);
    }
    s
}

/// The decimal digit string of an unsigned 16-bit value.
pub fn dec_string_u16(n: u16) -> (s: String)
    ensures
        s@ == dec_nat(n as nat),
    decreases n,
{
    if n < 10 {
        String::from_str(digit_str(n))
    } else {
        let prefix = dec_string_u16(n / 10);
        let out = prefix.concat(digit_str(n % 10));
        proof {
            assert(out@ =~= dec_nat(n as nat));
        }
        out
    }
}

/// The signed decimal string of a 16-bit displacement value.
pub fn dec_string_i16(d: i16) -> (s: String)
    ensures
        s@ == dec_int(d as int),
{
    if d >= 0 {
        dec_string_u16(d as u16)
    } else {
        let mag: u16 = (-(d as i32)) as u16;
        let out = String::from_str("-").concat(dec_string_u16(mag).as_str());
        proof {
            reveal_strlit("-");
            assert(out@ =~= dec_int(d as int));
        }
        out
    }
}

} // verus!
