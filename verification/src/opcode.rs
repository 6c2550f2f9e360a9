//! VR4300 opcode enumerations and their decoders from instruction fields.

use vstd::prelude::*;

verus! {

#[derive(Debug, Clone, Copy, PartialEq, Eq, Structural)]
pub enum Opcode {
    Special,
    RegImm,

    J,
    Jal,

    Blez,

    Addi,
    Addiu,
    Slti,
    Sltiu,

    Andi,
    Ori,
    Xori,

    Lui,
    Cop0,
    Cop1,

    Beq,
    Bne,
    Bgtz,

    Beql,
    Bnel,
    Blezl,

    Daddi,
    Daddiu,

    Lb,
    Lh,
    Lwl,
    Lw,
    Lbu,
    Lhu,
    Lwr,
    Lwu,

    Sb,
    Sh,
    Swl,
    Sw,
    Swr,

    Cache,

    Lwc1,
    Ldc1,

    Ld,

    Swc1,
    Sdc1,

    Sd,
}

#[derive(Debug, Clone, Copy, PartialEq, Eq, Structural)]
pub enum SpecialOpcode {
    Sll,

    Srl,
    Sra,
    Sllv,

    Srlv,
    Srav,

    Jr,
    Jalr,

    Sync,

    Multu,

    Mfhi,
    Mthi,
    Mflo,
    Mtlo,

    Dsllv,
    Dsrlv,
    Dsrav,

    Mult,

    Div,
    Divu,
    Dmult,
    Dmultu,
    Ddiv,
    Ddivu,

    Add,
    Addu,

    Sub,
    Subu,
    And,
    Or,
    Xor,
    Nor,

    Slt,
    Sltu,

    Dadd,
    Daddu,
    Dsub,
    Dsubu,

    Dsll,
    Dsrl,
    Dsra,
    Dsll32,
    Dsrl32,
    Dsra32,
}

#[derive(Debug, Clone, Copy, PartialEq, Eq, Structural)]
pub enum RegImmOpcode {
    Bltz,
    Bgez,
    Bgezl,
    Bgezal,
}

#[derive(Debug, Clone, Copy, PartialEq, Eq, Structural)]
pub enum Cop0Opcode {
    Mfc0,
    Mtc0,
    Co,
}

#[derive(Debug, Clone, Copy, PartialEq, Eq, Structural)]
pub enum Cop0CoOpcode {
    Tlbwi,
    Eret,
}

#[derive(Debug, Clone, Copy, PartialEq, Eq, Structural)]
pub enum Cop1Opcode {
    Add,
    Sub,
    Mul,
    Div,
    Sqrt,
    Abs,
    Mov,
    Neg,
    RoundL,
    TruncL,
    CeilL,
    FloorL,
    RoundW,
    TruncW,
    CeilW,
    FloorW,

    CvtS,
    CvtD,
    CvtW,
    CvtL,

    Cf,
    Cun,
    Ceq,
    Cueq,
    Colt,
    Cult,
    Cole,
    Cule,
    Csf,
    Cngle,
    Cseq,
    Cngl,
    Clt,
    Cnge,
    Cle,
    Cngt,
}

/// Decodes the primary opcode field (a 6-bit value).
pub open spec fn spec_decode_opcode(value: u32) -> Option<Opcode> {
    if value == 0x00 {
        Some(Opcode::Special)
    } else if value == 0x01 {
        Some(Opcode::RegImm)
    } else if value == 0x02 {
        Some(Opcode::J)
    } else if value == 0x03 {
        Some(Opcode::Jal)
    } else if value == 0x04 {
        Some(Opcode::Beq)
    } else if value == 0x05 {
        Some(Opcode::Bne)
    } else if value == 0x06 {
        Some(Opcode::Blez)
    } else if value == 0x07 {
        Some(Opcode::Bgtz)
    } else if value == 0x08 {
        Some(Opcode::Addi)
    } else if value == 0x09 {
        Some(Opcode::Addiu)
    } else if value == 0x0a {
        Some(Opcode::Slti)
    } else if value == 0x0b {
        Some(Opcode::Sltiu)
    } else if value == 0x0c {
        Some(Opcode::Andi)
    } else if value == 0x0d {
        Some(Opcode::Ori)
    } else if value == 0x0e {
        Some(Opcode::Xori)
    } else if value == 0x0f {
        Some(Opcode::Lui)
    } else if value == 0x10 {
        Some(Opcode::Cop0)
    } else if value == 0x11 {
        Some(Opcode::Cop1)
    } else if value == 0x14 {
        Some(Opcode::Beql)
    } else if value == 0x15 {
        Some(Opcode::Bnel)
    } else if value == 0x16 {
        Some(Opcode::Blezl)
    } else if value == 0x18 {
        Some(Opcode::Daddi)
    } else if value == 0x19 {
        Some(Opcode::Daddiu)
    } else if value == 0x20 {
        Some(Opcode::Lb)
    } else if value == 0x21 {
        Some(Opcode::Lh)
    } else if value == 0x22 {
        Some(Opcode::Lwl)
    } else if value == 0x23 {
        Some(Opcode::Lw)
    } else if value == 0x24 {
        Some(Opcode::Lbu)
    } else if value == 0x25 {
        Some(Opcode::Lhu)
    } else if value == 0x26 {
        Some(Opcode::Lwr)
    } else if value == 0x27 {
        Some(Opcode::Lwu)
    } else if value == 0x28 {
        Some(Opcode::Sb)
    } else if value == 0x29 {
        Some(Opcode::Sh)
    } else if value == 0x2a {
        Some(Opcode::Swl)
    } else if value == 0x2b {
        Some(Opcode::Sw)
    } else if value == 0x2e {
        Some(Opcode::Swr)
    } else if value == 0x2f {
        Some(Opcode::Cache)
    } else if value == 0x31 {
        Some(Opcode::Lwc1)
    } else if value == 0x35 {
        Some(Opcode::Ldc1)
    } else if value == 0x37 {
        Some(Opcode::Ld)
    } else if value == 0x39 {
        Some(Opcode::Swc1)
    } else if value == 0x3d {
        Some(Opcode::Sdc1)
    } else if value == 0x3f {
        Some(Opcode::Sd)
    } else {
        None
    }
}

pub fn decode_opcode(value: u32) -> (r: Option<Opcode>)
    ensures
        r == spec_decode_opcode(value),
{
    match value {
        0x00 => Some(Opcode::Special),
        0x01 => Some(Opcode::RegImm),
        0x02 => Some(Opcode::J),
        0x03 => Some(Opcode::Jal),
        0x04 => Some(Opcode::Beq),
        0x05 => Some(Opcode::Bne),
        0x06 => Some(Opcode::Blez),
        0x07 => Some(Opcode::Bgtz),
        0x08 => Some(Opcode::Addi),
        0x09 => Some(Opcode::Addiu),
        0x0a => Some(Opcode::Slti),
        0x0b => Some(Opcode::Sltiu),
        0x0c => Some(Opcode::Andi),
        0x0d => Some(Opcode::Ori),
        0x0e => Some(Opcode::Xori),
        0x0f => Some(Opcode::Lui),
        0x10 => Some(Opcode::Cop0),
        0x11 => Some(Opcode::Cop1),
        0x14 => Some(Opcode::Beql),
        0x15 => Some(Opcode::Bnel),
        0x16 => Some(Opcode::Blezl),
        0x18 => Some(Opcode::Daddi),
        0x19 => Some(Opcode::Daddiu),
        0x20 => Some(Opcode::Lb),
        0x21 => Some(Opcode::Lh),
        0x22 => Some(Opcode::Lwl),
        0x23 => Some(Opcode::Lw),
        0x24 => Some(Opcode::Lbu),
        0x25 => Some(Opcode::Lhu),
        0x26 => Some(Opcode::Lwr),
        0x27 => Some(Opcode::Lwu),
        0x28 => Some(Opcode::Sb),
        0x29 => Some(Opcode::Sh),
        0x2a => Some(Opcode::Swl),
        0x2b => Some(Opcode::Sw),
        0x2e => Some(Opcode::Swr),
        0x2f => Some(Opcode::Cache),
        0x31 => Some(Opcode::Lwc1),
        0x35 => Some(Opcode::Ldc1),
        0x37 => Some(Opcode::Ld),
        0x39 => Some(Opcode::Swc1),
        0x3d => Some(Opcode::Sdc1),
        0x3f => Some(Opcode::Sd),
        _ => None,
    }
}

/// Decodes the SPECIAL function field (a 6-bit value).
pub open spec fn spec_decode_special(value: u32) -> Option<SpecialOpcode> {
    if value == 0x00 {
        Some(SpecialOpcode::Sll)
    } else if value == 0x02 {
        Some(SpecialOpcode::Srl)
    } else if value == 0x03 {
        Some(SpecialOpcode::Sra)
    } else if value == 0x04 {
        Some(SpecialOpcode::Sllv)
    } else if value == 0x06 {
        Some(SpecialOpcode::Srlv)
    } else if value == 0x07 {
        Some(SpecialOpcode::Srav)
    } else if value == 0x08 {
        Some(SpecialOpcode::Jr)
    } else if value == 0x09 {
        Some(SpecialOpcode::Jalr)
    } else if value == 0x0f {
        Some(SpecialOpcode::Sync)
    } else if value == 0x10 {
        Some(SpecialOpcode::Mfhi)
    } else if value == 0x11 {
        Some(SpecialOpcode::Mthi)
    } else if value == 0x12 {
        Some(SpecialOpcode::Mflo)
    } else if value == 0x13 {
        Some(SpecialOpcode::Mtlo)
    } else if value == 0x14 {
        Some(SpecialOpcode::Dsllv)
    } else if value == 0x16 {
        Some(SpecialOpcode::Dsrlv)
    } else if value == 0x17 {
        Some(SpecialOpcode::Dsrav)
    } else if value == 0x18 {
        Some(SpecialOpcode::Mult)
    } else if value == 0x19 {
        Some(SpecialOpcode::Multu)
    } else if value == 0x1a {
        Some(SpecialOpcode::Div)
    } else if value == 0x1b {
        Some(SpecialOpcode::Divu)
    } else if value == 0x1c {
        Some(SpecialOpcode::Dmult)
    } else if value == 0x1d {
        Some(SpecialOpcode::Dmultu)
    } else if value == 0x1e {
        Some(SpecialOpcode::Ddiv)
    } else if value == 0x1f {
        Some(SpecialOpcode::Ddivu)
    } else if value == 0x20 {
        Some(SpecialOpcode::Add)
    } else if value == 0x21 {
        Some(SpecialOpcode::Addu)
    } else if value == 0x22 {
        Some(SpecialOpcode::Sub)
    } else if value == 0x23 {
        Some(SpecialOpcode::Subu)
    } else if value == 0x24 {
        Some(SpecialOpcode::And)
    } else if value == 0x25 {
        Some(SpecialOpcode::Or)
    } else if value == 0x26 {
        Some(SpecialOpcode::Xor)
    } else if value == 0x27 {
        Some(SpecialOpcode::Nor)
    } else if value == 0x2a {
        Some(SpecialOpcode::Slt)
    } else if value == 0x2b {
        Some(SpecialOpcode::Sltu)
    } else if value == 0x2c {
        Some(SpecialOpcode::Dadd)
    } else if value == 0x2d {
        Some(SpecialOpcode::Daddu)
    } else if value == 0x2e {
        Some(SpecialOpcode::Dsub)
    } else if value == 0x2f {
        Some(SpecialOpcode::Dsubu)
    } else if value == 0x38 {
        Some(SpecialOpcode::Dsll)
    } else if value == 0x3a {
        Some(SpecialOpcode::Dsrl)
    } else if value == 0x3b {
        Some(SpecialOpcode::Dsra)
    } else if value == 0x3c {
        Some(SpecialOpcode::Dsll32)
    } else if value == 0x3e {
        Some(SpecialOpcode::Dsrl32)
    } else if value == 0x3f {
        Some(SpecialOpcode::Dsra32)
    } else {
        None
    }
}

pub fn decode_special(value: u32) -> (r: Option<SpecialOpcode>)
    ensures
        r == spec_decode_special(value),
{
    match value {
        0x00 => Some(SpecialOpcode::Sll),
        0x02 => Some(SpecialOpcode::Srl),
        0x03 => Some(SpecialOpcode::Sra),
        0x04 => Some(SpecialOpcode::Sllv),
        0x06 => Some(SpecialOpcode::Srlv),
        0x07 => Some(SpecialOpcode::Srav),
        0x08 => Some(SpecialOpcode::Jr),
        0x09 => Some(SpecialOpcode::Jalr),
        0x0f => Some(SpecialOpcode::Sync),
        0x10 => Some(SpecialOpcode::Mfhi),
        0x11 => Some(SpecialOpcode::Mthi),
        0x12 => Some(SpecialOpcode::Mflo),
        0x13 => Some(SpecialOpcode::Mtlo),
        0x14 => Some(SpecialOpcode::Dsllv),
        0x16 => Some(SpecialOpcode::Dsrlv),
        0x17 => Some(SpecialOpcode::Dsrav),
        0x18 => Some(SpecialOpcode::Mult),
        0x19 => Some(SpecialOpcode::Multu),
        0x1a => Some(SpecialOpcode::Div),
        0x1b => Some(SpecialOpcode::Divu),
        0x1c => Some(SpecialOpcode::Dmult),
        0x1d => Some(SpecialOpcode::Dmultu),
        0x1e => Some(SpecialOpcode::Ddiv),
        0x1f => Some(SpecialOpcode::Ddivu),
        0x20 => Some(SpecialOpcode::Add),
        0x21 => Some(SpecialOpcode::Addu),
        0x22 => Some(SpecialOpcode::Sub),
        0x23 => Some(SpecialOpcode::Subu),
        0x24 => Some(SpecialOpcode::And),
        0x25 => Some(SpecialOpcode::Or),
        0x26 => Some(SpecialOpcode::Xor),
        0x27 => Some(SpecialOpcode::Nor),
        0x2a => Some(SpecialOpcode::Slt),
        0x2b => Some(SpecialOpcode::Sltu),
        0x2c => Some(SpecialOpcode::Dadd),
        0x2d => Some(SpecialOpcode::Daddu),
        0x2e => Some(SpecialOpcode::Dsub),
        0x2f => Some(SpecialOpcode::Dsubu),
        0x38 => Some(SpecialOpcode::Dsll),
        0x3a => Some(SpecialOpcode::Dsrl),
        0x3b => Some(SpecialOpcode::Dsra),
        0x3c => Some(SpecialOpcode::Dsll32),
        0x3e => Some(SpecialOpcode::Dsrl32),
        0x3f => Some(SpecialOpcode::Dsra32),
        _ => None,
    }
}

/// Decodes the REGIMM rt field (a 5-bit value).
pub open spec fn spec_decode_reg_imm(value: u32) -> Option<RegImmOpcode> {
    if value == 0x00 {
        Some(RegImmOpcode::Bltz)
    } else if value == 0x01 {
        Some(RegImmOpcode::Bgez)
    } else if value == 0x03 {
        Some(RegImmOpcode::Bgezl)
    } else if value == 0x11 {
        Some(RegImmOpcode::Bgezal)
    } else {
        None
    }
}

pub fn decode_reg_imm(value: u32) -> (r: Option<RegImmOpcode>)
    ensures
        r == spec_decode_reg_imm(value),
{
    match value {
        0x00 => Some(RegImmOpcode::Bltz),
        0x01 => Some(RegImmOpcode::Bgez),
        0x03 => Some(RegImmOpcode::Bgezl),
        0x11 => Some(RegImmOpcode::Bgezal),
        _ => None,
    }
}

/// Decodes the COP0 rs field (a 5-bit value).
pub open spec fn spec_decode_cop0(value: u32) -> Option<Cop0Opcode> {
    if value == 0x00 {
        Some(Cop0Opcode::Mfc0)
    } else if value == 0x04 {
        Some(Cop0Opcode::Mtc0)
    } else if value == 0x10 {
        Some(Cop0Opcode::Co)
    } else {
        None
    }
}

pub fn decode_cop0(value: u32) -> (r: Option<Cop0Opcode>)
    ensures
        r == spec_decode_cop0(value),
{
    match value {
        0x00 => Some(Cop0Opcode::Mfc0),
        0x04 => Some(Cop0Opcode::Mtc0),
        0x10 => Some(Cop0Opcode::Co),
        _ => None,
    }
}

/// Decodes the COP0 CO function field (a 6-bit value).
pub open spec fn spec_decode_cop0_co(value: u32) -> Option<Cop0CoOpcode> {
    if value == 0x02 {
        Some(Cop0CoOpcode::Tlbwi)
    } else if value == 0x18 {
        Some(Cop0CoOpcode::Eret)
    } else {
        None
    }
}

pub fn decode_cop0_co(value: u32) -> (r: Option<Cop0CoOpcode>)
    ensures
        r == spec_decode_cop0_co(value),
{
    match value {
        0x02 => Some(Cop0CoOpcode::Tlbwi),
        0x18 => Some(Cop0CoOpcode::Eret),
        _ => None,
    }
}

/// Decodes the COP1 function field (a 6-bit value).
pub open spec fn spec_decode_cop1(value: u32) -> Option<Cop1Opcode> {
    if value == 0x00 {
        Some(Cop1Opcode::Add)
    } else if value == 0x01 {
        Some(Cop1Opcode::Sub)
    } else if value == 0x02 {
        Some(Cop1Opcode::Mul)
    } else if value == 0x03 {
        Some(Cop1Opcode::Div)
    } else if value == 0x04 {
        Some(Cop1Opcode::Sqrt)
    } else if value == 0x05 {
        Some(Cop1Opcode::Abs)
    } else if value == 0x06 {
        Some(Cop1Opcode::Mov)
    } else if value == 0x07 {
        Some(Cop1Opcode::Neg)
    } else if value == 0x08 {
        Some(Cop1Opcode::RoundL)
    } else if value == 0x09 {
        Some(Cop1Opcode::TruncL)
    } else if value == 0x0a {
        Some(Cop1Opcode::CeilL)
    } else if value == 0x0b {
        Some(Cop1Opcode::FloorL)
    } else if value == 0x0c {
        Some(Cop1Opcode::RoundW)
    } else if value == 0x0d {
        Some(Cop1Opcode::TruncW)
    } else if value == 0x0e {
        Some(Cop1Opcode::CeilW)
    } else if value == 0x0f {
        Some(Cop1Opcode::FloorW)
    } else if value == 0x20 {
        Some(Cop1Opcode::CvtS)
    } else if value == 0x21 {
        Some(Cop1Opcode::CvtD)
    } else if value == 0x24 {
        Some(Cop1Opcode::CvtW)
    } else if value == 0x25 {
        Some(Cop1Opcode::CvtL)
    } else if value == 0x30 {
        Some(Cop1Opcode::Cf)
    } else if value == 0x31 {
        Some(Cop1Opcode::Cun)
    } else if value == 0x32 {
        Some(Cop1Opcode::Ceq)
    } else if value == 0x33 {
        Some(Cop1Opcode::Cueq)
    } else if value == 0x34 {
        Some(Cop1Opcode::Colt)
    } else if value == 0x35 {
        Some(Cop1Opcode::Cult)
    } else if value == 0x36 {
        Some(Cop1Opcode::Cole)
    } else if value == 0x37 {
        Some(Cop1Opcode::Cule)
    } else if value == 0x38 {
        Some(Cop1Opcode::Csf)
    } else if value == 0x39 {
        Some(Cop1Opcode::Cngle)
    } else if value == 0x3a {
        Some(Cop1Opcode::Cseq)
    } else if value == 0x3b {
        Some(Cop1Opcode::Cngl)
    } else if value == 0x3c {
        Some(Cop1Opcode::Clt)
    } else if value == 0x3d {
        Some(Cop1Opcode::Cnge)
    } else if value == 0x3e {
        Some(Cop1Opcode::Cle)
    } else if value == 0x3f {
        Some(Cop1Opcode::Cngt)
    } else {
        None
    }
}

pub fn decode_cop1(value: u32) -> (r: Option<Cop1Opcode>)
    ensures
        r == spec_decode_cop1(value),
{
    match value {
        0x00 => Some(Cop1Opcode::Add),
        0x01 => Some(Cop1Opcode::Sub),
        0x02 => Some(Cop1Opcode::Mul),
        0x03 => Some(Cop1Opcode::Div),
        0x04 => Some(Cop1Opcode::Sqrt),
        0x05 => Some(Cop1Opcode::Abs),
        0x06 => Some(Cop1Opcode::Mov),
        0x07 => Some(Cop1Opcode::Neg),
        0x08 => Some(Cop1Opcode::RoundL),
        0x09 => Some(Cop1Opcode::TruncL),
        0x0a => Some(Cop1Opcode::CeilL),
        0x0b => Some(Cop1Opcode::FloorL),
        0x0c => Some(Cop1Opcode::RoundW),
        0x0d => Some(Cop1Opcode::TruncW),
        0x0e => Some(Cop1Opcode::CeilW),
        0x0f => Some(Cop1Opcode::FloorW),
        0x20 => Some(Cop1Opcode::CvtS),
        0x21 => Some(Cop1Opcode::CvtD),
        0x24 => Some(Cop1Opcode::CvtW),
        0x25 => Some(Cop1Opcode::CvtL),
        0x30 => Some(Cop1Opcode::Cf),
        0x31 => Some(Cop1Opcode::Cun),
        0x32 => Some(Cop1Opcode::Ceq),
        0x33 => Some(Cop1Opcode::Cueq),
        0x34 => Some(Cop1Opcode::Colt),
        0x35 => Some(Cop1Opcode::Cult),
        0x36 => Some(Cop1Opcode::Cole),
        0x37 => Some(Cop1Opcode::Cule),
        0x38 => Some(Cop1Opcode::Csf),
        0x39 => Some(Cop1Opcode::Cngle),
        0x3a => Some(Cop1Opcode::Cseq),
        0x3b => Some(Cop1Opcode::Cngl),
        0x3c => Some(Cop1Opcode::Clt),
        0x3d => Some(Cop1Opcode::Cnge),
        0x3e => Some(Cop1Opcode::Cle),
        0x3f => Some(Cop1Opcode::Cngt),
        _ => None,
    }
}

} // verus!
