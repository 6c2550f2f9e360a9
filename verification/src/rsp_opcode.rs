//! RSP opcode enumerations: the strict subset of the MIPS ISA the RSP scalar
//! interpreter supports.

use vstd::prelude::*;

verus! {

#[derive(Debug, Clone, Copy, PartialEq, Eq, Structural)]
pub enum RspOpcode {
    Special,
    J,
    Addi,
    Addiu,
    Andi,
    Ori,
    Xori,
    Lui,
    Lw,
    Sh,
    Sw,
}

#[derive(Debug, Clone, Copy, PartialEq, Eq, Structural)]
pub enum RspSpecialOpcode {
    Sll,
    Srl,
    Sra,
    Sllv,
    Srlv,
    Srav,
    Break,
    Add,
    Addu,
    Sub,
    Subu,
    And,
    Or,
    Xor,
    Nor,
}

/// Decodes the RSP primary opcode field (a 6-bit value).
pub open spec fn spec_decode_rsp_opcode(value: u32) -> Option<RspOpcode> {
    if value == 0x00 {
        Some(RspOpcode::Special)
    } else if value == 0x02 {
        Some(RspOpcode::J)
    } else if value == 0x08 {
        Some(RspOpcode::Addi)
    } else if value == 0x09 {
        Some(RspOpcode::Addiu)
    } else if value == 0x0c {
        Some(RspOpcode::Andi)
    } else if value == 0x0d {
        Some(RspOpcode::Ori)
    } else if value == 0x0e {
        Some(RspOpcode::Xori)
    } else if value == 0x0f {
        Some(RspOpcode::Lui)
    } else if value == 0x23 {
        Some(RspOpcode::Lw)
    } else if value == 0x29 {
        Some(RspOpcode::Sh)
    } else if value == 0x2b {
        Some(RspOpcode::Sw)
    } else {
        None
    }
}

pub fn decode_rsp_opcode(value: u32) -> (r: Option<RspOpcode>)
    ensures
        r == spec_decode_rsp_opcode(value),
{
    match value {
        0x00 => Some(RspOpcode::Special),
        0x02 => Some(RspOpcode::J),
        0x08 => Some(RspOpcode::Addi),
        0x09 => Some(RspOpcode::Addiu),
        0x0c => Some(RspOpcode::Andi),
        0x0d => Some(RspOpcode::Ori),
        0x0e => Some(RspOpcode::Xori),
        0x0f => Some(RspOpcode::Lui),
        0x23 => Some(RspOpcode::Lw),
        0x29 => Some(RspOpcode::Sh),
        0x2b => Some(RspOpcode::Sw),
        _ => None,
    }
}

/// Decodes the RSP SPECIAL function field (a 6-bit value).
pub open spec fn spec_decode_rsp_special(value: u32) -> Option<RspSpecialOpcode> {
    if value == 0x00 {
        Some(RspSpecialOpcode::Sll)
    } else if value == 0x02 {
        Some(RspSpecialOpcode::Srl)
    } else if value == 0x03 {
        Some(RspSpecialOpcode::Sra)
    } else if value == 0x04 {
        Some(RspSpecialOpcode::Sllv)
    } else if value == 0x06 {
        Some(RspSpecialOpcode::Srlv)
    } else if value == 0x07 {
        Some(RspSpecialOpcode::Srav)
    } else if value == 0x0d {
        Some(RspSpecialOpcode::Break)
    } else if value == 0x20 {
        Some(RspSpecialOpcode::Add)
    } else if value == 0x21 {
        Some(RspSpecialOpcode::Addu)
    } else if value == 0x22 {
        Some(RspSpecialOpcode::Sub)
    } else if value == 0x23 {
        Some(RspSpecialOpcode::Subu)
    } else if value == 0x24 {
        Some(RspSpecialOpcode::And)
    } else if value == 0x25 {
        Some(RspSpecialOpcode::Or)
    } else if value == 0x26 {
        Some(RspSpecialOpcode::Xor)
    } else if value == 0x27 {
        Some(RspSpecialOpcode::Nor)
    } else {
        None
    }
}

pub fn decode_rsp_special(value: u32) -> (r: Option<RspSpecialOpcode>)
    ensures
        r == spec_decode_rsp_special(value),
{
    match value {
        0x00 => Some(RspSpecialOpcode::Sll),
        0x02 => Some(RspSpecialOpcode::Srl),
        0x03 => Some(RspSpecialOpcode::Sra),
        0x04 => Some(RspSpecialOpcode::Sllv),
        0x06 => Some(RspSpecialOpcode::Srlv),
        0x07 => Some(RspSpecialOpcode::Srav),
        0x0d => Some(RspSpecialOpcode::Break),
        0x20 => Some(RspSpecialOpcode::Add),
        0x21 => Some(RspSpecialOpcode::Addu),
        0x22 => Some(RspSpecialOpcode::Sub),
        0x23 => Some(RspSpecialOpcode::Subu),
        0x24 => Some(RspSpecialOpcode::And),
        0x25 => Some(RspSpecialOpcode::Or),
        0x26 => Some(RspSpecialOpcode::Xor),
        0x27 => Some(RspSpecialOpcode::Nor),
        _ => None,
    }
}

} // verus!
