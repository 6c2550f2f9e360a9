//! The VR4300 main CPU: 32 64-bit general purpose registers (index 0
//! hard-wired to zero), the floating-point register file held as raw 64-bit
//! IEEE bit patterns, HI/LO, the program counter, the branch delay-slot
//! latch, and the CP0 system coprocessor.
//!
//! Each `step` executes exactly one guest instruction against the
//! interconnect. CP1 arithmetic needs host floating point, which this core
//! does not perform: `step` returns such an instruction to the caller, which
//! computes the lanes on the raw bit patterns (`read_reg_fpr`,
//! `write_reg_fpr`, `set_cp1_compare_flag`) before the next step.

use vstd::prelude::*;

use crate::cp0::Cp0;
use crate::instruction::{spec_imm_sign_extended, Instruction};
use crate::interconnect::{
    ic_wf, spec_read_byte, spec_read_word, spec_write_byte, spec_write_word, IcState, Interconnect,
};
use crate::opcode::{
    Cop0CoOpcode, Cop0Opcode, Cop1Opcode, Opcode, RegImmOpcode, SpecialOpcode,
};
use crate::Fault;

verus! {

/// The power-on program counter: the kseg1 mirror of the boot ROM.
pub const INITIAL_PC: u64 = 0xffff_ffff_bfc0_0000;

/// Whether a 32-bit result is sign-extended into its 64-bit destination.
#[derive(Debug, Clone, Copy, PartialEq, Eq, Structural)]
pub enum SignExtendResult {
    Yes,
    No,
}

/// Whether a branch writes its link address into GPR 31.
#[derive(Debug, Clone, Copy, PartialEq, Eq, Structural)]
pub enum WriteLink {
    Yes,
    No,
}

/// The 64-bit sign extension of the low 32 bits of `v`.
pub open spec fn sext32_64(v: u64) -> u64 {
    (v as i32) as u64
}

/// Reading a general purpose register: index 0 always reads 0.
pub open spec fn spec_read_gpr(gprs: Seq<u64>, index: int) -> u64 {
    if index == 0 {
        0
    } else {
        gprs[index]
    }
}

/// Writing a general purpose register: a write to index 0 is discarded.
pub open spec fn spec_write_gpr(gprs: Seq<u64>, index: int, value: u64) -> Seq<u64> {
    if index == 0 {
        gprs
    } else {
        gprs.update(index, value)
    }
}

/// kseg0/kseg1 direct mapping: bits [31:29] of the virtual address select the
/// segment and the physical address is the offset into it. Anything else
/// (including a kseg pattern without the sign-extension prefix) is outside
/// the implemented translation and faults.
pub open spec fn spec_virt_to_phys(virt: u64) -> Result<u64, Fault> {
    let segment = (virt >> 29) & 7;
    if segment == 4 {
        if virt >= 0xffff_ffff_8000_0000u64 {
            Ok((virt - 0xffff_ffff_8000_0000u64) as u64)
        } else {
            Err(Fault::UnmappedVirtualAddress(virt))
        }
    } else if segment == 5 {
        if virt >= 0xffff_ffff_a000_0000u64 {
            Ok((virt - 0xffff_ffff_a000_0000u64) as u64)
        } else {
            Err(Fault::UnmappedVirtualAddress(virt))
        }
    } else {
        Err(Fault::UnmappedVirtualAddress(virt))
    }
}

/// A CPU word read: translate, then read the bus.
pub open spec fn spec_cpu_read_word(s: IcState, virt: u64) -> Result<u32, Fault> {
    match spec_virt_to_phys(virt) {
        Err(f) => Err(f),
        Ok(phys) => spec_read_word(s, phys as u32),
    }
}

/// A CPU byte read: translate, then read the bus.
pub open spec fn spec_cpu_read_byte(s: IcState, virt: u64) -> Result<u8, Fault> {
    match spec_virt_to_phys(virt) {
        Err(f) => Err(f),
        Ok(phys) => spec_read_byte(s, phys as u32),
    }
}

/// A CPU word write: translate, then write the bus.
pub open spec fn spec_cpu_write_word(s: IcState, virt: u64, value: u32) -> Result<IcState, Fault> {
    match spec_virt_to_phys(virt) {
        Err(f) => Err(f),
        Ok(phys) => spec_write_word(s, phys as u32, value),
    }
}

/// A CPU byte write: translate, then write the bus.
pub open spec fn spec_cpu_write_byte(s: IcState, virt: u64, value: u8) -> Result<IcState, Fault> {
    match spec_virt_to_phys(virt) {
        Err(f) => Err(f),
        Ok(phys) => spec_write_byte(s, phys as u32, value),
    }
}


/// A six-bit-masked u64 is a valid 64-bit shift amount.
pub proof fn lemma_mask6_u64(x: u64)
    ensures
        x & 0x3f < 64,
{
    assert(x & 0x3f < 64) by (bit_vector);
}

/// A five-bit-masked u64 is a valid 32-bit shift amount.
pub proof fn lemma_mask5_u64(x: u64)
    ensures
        x & 0x1f < 32,
{
    assert(x & 0x1f < 32) by (bit_vector);
}

/// The product of two 32-bit values fits in 64 bits.
pub proof fn lemma_u32_mul_fits(a: u64, b: u64)
    requires
        a <= 0xffff_ffff,
        b <= 0xffff_ffff,
    ensures
        a * b <= 0xffff_fffe_0000_0001u64,
{
    assert(a * b <= 0xffff_ffffu64 * 0xffff_ffffu64) by (nonlinear_arith)
        requires
            a <= 0xffff_ffff,
            b <= 0xffff_ffff,
    ;
}

/// The product of two signed 32-bit values fits in 64 bits.
pub proof fn lemma_i32_mul_fits(a: i64, b: i64)
    requires
        -0x8000_0000 <= a <= 0x7fff_ffff,
        -0x8000_0000 <= b <= 0x7fff_ffff,
    ensures
        -0x4000_0000_0000_0000 <= a * b <= 0x4000_0000_0000_0000,
{
    assert(-0x4000_0000_0000_0000 <= a * b <= 0x4000_0000_0000_0000) by (nonlinear_arith)
        requires
            -0x8000_0000 <= a <= 0x7fff_ffff,
            -0x8000_0000 <= b <= 0x7fff_ffff,
    ;
}

/// The product of two 64-bit values fits in 128 bits.
pub proof fn lemma_u64_mul_fits(a: u128, b: u128)
    requires
        a <= 0xffff_ffff_ffff_ffff,
        b <= 0xffff_ffff_ffff_ffff,
    ensures
        a * b <= 0xffff_ffff_ffff_fffe_0000_0000_0000_0001u128,
{
    assert(a * b <= 0xffff_ffff_ffff_ffffu128 * 0xffff_ffff_ffff_ffffu128) by (nonlinear_arith)
        requires
            a <= 0xffff_ffff_ffff_ffff,
            b <= 0xffff_ffff_ffff_ffff,
    ;
}

/// The product of two signed 64-bit values fits in 128 bits.
pub proof fn lemma_i64_mul_fits(a: i128, b: i128)
    requires
        -0x8000_0000_0000_0000 <= a <= 0x7fff_ffff_ffff_ffff,
        -0x8000_0000_0000_0000 <= b <= 0x7fff_ffff_ffff_ffff,
    ensures
        -0x4000_0000_0000_0000_0000_0000_0000_0000
            <= a * b <= 0x4000_0000_0000_0000_0000_0000_0000_0000,
{
    assert(-0x4000_0000_0000_0000_0000_0000_0000_0000
        <= a * b <= 0x4000_0000_0000_0000_0000_0000_0000_0000) by (nonlinear_arith)
        requires
            -0x8000_0000_0000_0000 <= a <= 0x7fff_ffff_ffff_ffff,
            -0x8000_0000_0000_0000 <= b <= 0x7fff_ffff_ffff_ffff,
    ;
}

pub struct Cpu {
    pub reg_gpr: Vec<u64>,
    /// Floating point registers as raw 64-bit IEEE bit patterns.
    pub reg_fpr: Vec<u64>,

    pub reg_pc: u64,

    pub reg_hi: u64,
    pub reg_lo: u64,

    pub reg_llbit: bool,

    pub reg_fcr0: u32,
    pub reg_fcr31: u32,

    pub cp0: Cp0,

    /// When set, the next step executes the instruction at this address (the
    /// delay slot) while `reg_pc` already holds the branch target.
    pub delay_slot_pc: Option<u64>,
}

/// The mathematical image of the CPU state.
pub ghost struct CpuState {
    pub gprs: Seq<u64>,
    pub fprs: Seq<u64>,
    pub pc: u64,
    pub hi: u64,
    pub lo: u64,
    pub llbit: bool,
    pub fcr0: u32,
    pub fcr31: u32,
    pub cp0: crate::cp0::Cp0State,
    pub delay_slot_pc: Option<u64>,
}

impl View for Cpu {
    type V = CpuState;

    open spec fn view(&self) -> CpuState {
        CpuState {
            gprs: self.reg_gpr@,
            fprs: self.reg_fpr@,
            pc: self.reg_pc,
            hi: self.reg_hi,
            lo: self.reg_lo,
            llbit: self.reg_llbit,
            fcr0: self.reg_fcr0,
            fcr31: self.reg_fcr31,
            cp0: self.cp0@,
            delay_slot_pc: self.delay_slot_pc,
        }
    }
}

/// The magnitude of a 32-bit signed value (including MIN).
pub open spec fn spec_abs_u32(a: i32) -> u32 {
    if a < 0 {
        (-(a as i64)) as u32
    } else {
        a as u32
    }
}

/// Truncating 32-bit signed division (rounds toward zero), as the divide
/// unit computes it.
pub open spec fn spec_div_i32(a: i32, b: i32) -> i32 {
    let uq = spec_abs_u32(a) / spec_abs_u32(b);
    if (a < 0) != (b < 0) {
        (-(uq as i64)) as i32
    } else {
        uq as i32
    }
}

/// The remainder matching `spec_div_i32`: its sign follows the dividend.
pub open spec fn spec_rem_i32(a: i32, b: i32) -> i32 {
    let ur = spec_abs_u32(a) % spec_abs_u32(b);
    if a < 0 {
        (-(ur as i64)) as i32
    } else {
        ur as i32
    }
}

/// The magnitude of a 64-bit signed value (including MIN).
pub open spec fn spec_abs_u64(a: i64) -> u64 {
    if a < 0 {
        (-(a as i128)) as u64
    } else {
        a as u64
    }
}

/// Truncating 64-bit signed division (rounds toward zero).
pub open spec fn spec_div_i64(a: i64, b: i64) -> i64 {
    let uq = spec_abs_u64(a) / spec_abs_u64(b);
    if (a < 0) != (b < 0) {
        (-(uq as i128)) as i64
    } else {
        uq as i64
    }
}

/// The remainder matching `spec_div_i64`: its sign follows the dividend.
pub open spec fn spec_rem_i64(a: i64, b: i64) -> i64 {
    let ur = spec_abs_u64(a) % spec_abs_u64(b);
    if a < 0 {
        (-(ur as i128)) as i64
    } else {
        ur as i64
    }
}

/// A CPU halfword read: the high byte at `virt`, the low byte after it.
pub open spec fn spec_cpu_read_halfword(s: IcState, virt: u64) -> Result<u16, Fault> {
    match spec_cpu_read_byte(s, virt) {
        Err(f) => Err(f),
        Ok(hi) => match spec_cpu_read_byte(
            s,
            vstd::wrapping::u64_specs::wrapping_add(virt, 1),
        ) {
            Err(f) => Err(f),
            Ok(lo) => Ok((((hi as u16) << 8) | (lo as u16)) as u16),
        },
    }
}

/// A CPU doubleword read: the high word at `virt`, the low word after it.
pub open spec fn spec_cpu_read_doubleword(s: IcState, virt: u64) -> Result<u64, Fault> {
    match spec_cpu_read_word(s, virt) {
        Err(f) => Err(f),
        Ok(hi) => match spec_cpu_read_word(
            s,
            vstd::wrapping::u64_specs::wrapping_add(virt, 4),
        ) {
            Err(f) => Err(f),
            Ok(lo) => Ok((((hi as u64) << 32) | (lo as u64)) as u64),
        },
    }
}

/// A CPU doubleword write: high word first, then the low word after it.
pub open spec fn spec_cpu_write_doubleword(s: IcState, virt: u64, value: u64) -> Result<
    IcState,
    Fault,
> {
    match spec_cpu_write_word(s, virt, (value >> 32) as u32) {
        Err(f) => Err(f),
        Ok(s1) => spec_cpu_write_word(
            s1,
            vstd::wrapping::u64_specs::wrapping_add(virt, 4),
            value as u32,
        ),
    }
}

/// The address a step fetches from, for a given program counter and
/// delay-slot latch: the pending delay slot if one is latched, the program
/// counter otherwise.
pub open spec fn spec_fetch_pc(pc: u64, delay_slot_pc: Option<u64>) -> u64 {
    match delay_slot_pc {
        Some(p) => p,
        None => pc,
    }
}

/// The address the next `step` of this CPU fetches from.
pub open spec fn spec_cpu_fetch_pc(c: Cpu) -> u64 {
    spec_fetch_pc(c.reg_pc, c.delay_slot_pc)
}

/// The program counter after a branch executed with the counter already
/// advanced past the branch: a taken branch retargets it by the shifted
/// sign-extended offset; one not taken leaves it alone.
pub open spec fn spec_branch_pc(pc: u64, offset_ext: u64, taken: bool) -> u64 {
    if taken {
        vstd::wrapping::u64_specs::wrapping_add(pc, offset_ext << 2)
    } else {
        pc
    }
}

/// The delay-slot latch after a branch: a taken branch latches the
/// instruction after itself (the advanced counter); one not taken leaves the
/// latch alone.
pub open spec fn spec_branch_delay(pc: u64, delay_slot_pc: Option<u64>, taken: bool) -> Option<
    u64,
> {
    if taken {
        Some(pc)
    } else {
        delay_slot_pc
    }
}

/// The general purpose registers after a branch: a linking branch writes the
/// address after the delay slot into GPR 31.
pub open spec fn spec_branch_gprs(gprs: Seq<u64>, pc: u64, link: bool) -> Seq<u64> {
    if link {
        spec_write_gpr(gprs, 31, vstd::wrapping::u64_specs::wrapping_add(pc, 4))
    } else {
        gprs
    }
}

/// The control-flow state after a branch (see `spec_branch_pc`,
/// `spec_branch_delay` and `spec_branch_gprs`).
pub open spec fn spec_branch_state(c: CpuState, offset_ext: u64, taken: bool, link: bool) -> CpuState {
    CpuState {
        gprs: spec_branch_gprs(c.gprs, c.pc, link),
        pc: spec_branch_pc(c.pc, offset_ext, taken),
        delay_slot_pc: spec_branch_delay(c.pc, c.delay_slot_pc, taken),
        ..c
    }
}

/// The state after a branch-likely: as `spec_branch_state` when taken; when
/// not taken the delay slot is skipped by advancing the counter.
pub open spec fn spec_branch_likely_state(c: CpuState, offset_ext: u64, taken: bool) -> CpuState {
    if taken {
        spec_branch_state(c, offset_ext, true, false)
    } else {
        CpuState { pc: vstd::wrapping::u64_specs::wrapping_add(c.pc, 4), ..c }
    }
}

/// The effect of one SPECIAL-class instruction on the CPU state: shifts,
/// register jumps, HI/LO moves, multiply/divide (a zero divisor or the
/// overflowing MIN / -1 is fatal), and register arithmetic, with 32-bit
/// results sign-extended.
pub open spec fn spec_execute_special(c: CpuState, instr: Instruction) -> Result<CpuState, Fault> {
    let w = instr.0;
    let rs_i = ((w >> 21) & 0x1f) as int;
    let rt_i = ((w >> 16) & 0x1f) as int;
    let rd_i = ((w >> 11) & 0x1f) as int;
    let sa = (w >> 6) & 0x1f;
    let rs = spec_read_gpr(c.gprs, rs_i);
    let rt = spec_read_gpr(c.gprs, rt_i);
    match crate::opcode::spec_decode_special(w & 0x3f) {
        Option::None => Err(Fault::UnrecognizedInstruction(w)),
        Option::Some(op) => match op {
            SpecialOpcode::Sll => Ok(
                CpuState { gprs: spec_write_gpr(c.gprs, rd_i, sext32_64(rt << sa)), ..c },
            ),
            SpecialOpcode::Srl => Ok(
                CpuState {
                    gprs: spec_write_gpr(c.gprs, rd_i, sext32_64(((rt as u32) >> sa) as u64)),
                    ..c
                },
            ),
            SpecialOpcode::Sra => Ok(
                CpuState {
                    gprs: spec_write_gpr(c.gprs, rd_i, sext32_64(((rt as i32) >> sa) as u64)),
                    ..c
                },
            ),
            SpecialOpcode::Sllv => Ok(
                CpuState {
                    gprs: spec_write_gpr(
                        c.gprs,
                        rd_i,
                        sext32_64(((rt as u32) << (rs & 0x1f)) as u64),
                    ),
                    ..c
                },
            ),
            SpecialOpcode::Srlv => Ok(
                CpuState {
                    gprs: spec_write_gpr(
                        c.gprs,
                        rd_i,
                        sext32_64(((rt as u32) >> (rs & 0x1f)) as u64),
                    ),
                    ..c
                },
            ),
            SpecialOpcode::Srav => Ok(
                CpuState {
                    gprs: spec_write_gpr(
                        c.gprs,
                        rd_i,
                        sext32_64(((rt as i32) >> (rs & 0x1f)) as u64),
                    ),
                    ..c
                },
            ),
            SpecialOpcode::Jr => Ok(CpuState { pc: rs, delay_slot_pc: Some(c.pc), ..c }),
            SpecialOpcode::Jalr => {
                let linked = spec_write_gpr(
                    c.gprs,
                    rd_i,
                    vstd::wrapping::u64_specs::wrapping_add(c.pc, 4),
                );
                Ok(
                    CpuState {
                        gprs: linked,
                        pc: spec_read_gpr(linked, rs_i),
                        delay_slot_pc: Some(c.pc),
                        ..c
                    },
                )
            },
            SpecialOpcode::Sync => Ok(c),
            SpecialOpcode::Multu => {
                let res = (((rs as u32) as u64) * ((rt as u32) as u64)) as u64;
                Ok(
                    CpuState {
                        lo: (res as i32) as u64,
                        hi: ((res >> 32) as i32) as u64,
                        ..c
                    },
                )
            },
            SpecialOpcode::Mfhi => Ok(CpuState { gprs: spec_write_gpr(c.gprs, rd_i, c.hi), ..c }),
            SpecialOpcode::Mthi => Ok(CpuState { hi: rs, ..c }),
            SpecialOpcode::Mflo => Ok(CpuState { gprs: spec_write_gpr(c.gprs, rd_i, c.lo), ..c }),
            SpecialOpcode::Mtlo => Ok(CpuState { lo: rs, ..c }),
            SpecialOpcode::Dsllv => Ok(
                CpuState { gprs: spec_write_gpr(c.gprs, rd_i, rt << (rs & 0x3f)), ..c },
            ),
            SpecialOpcode::Dsrlv => Ok(
                CpuState { gprs: spec_write_gpr(c.gprs, rd_i, rt >> (rs & 0x3f)), ..c },
            ),
            SpecialOpcode::Dsrav => Ok(
                CpuState {
                    gprs: spec_write_gpr(c.gprs, rd_i, ((rt as i64) >> (rs & 0x3f)) as u64),
                    ..c
                },
            ),
            SpecialOpcode::Mult => {
                let res = (((rs as i32) as i64) * ((rt as i32) as i64)) as i64;
                Ok(
                    CpuState {
                        lo: (res as i32) as u64,
                        hi: ((res >> 32) as i32) as u64,
                        ..c
                    },
                )
            },
            SpecialOpcode::Div => {
                let a = rs as i32;
                let b = rt as i32;
                if b == 0 {
                    Err(Fault::DivisionByZero(w))
                } else if a == i32::MIN && b == -1 {
                    Err(Fault::DivideOverflow(w))
                } else {
                    Ok(
                        CpuState {
                            lo: spec_div_i32(a, b) as u64,
                            hi: spec_rem_i32(a, b) as u64,
                            ..c
                        },
                    )
                }
            },
            SpecialOpcode::Divu => {
                let a = rs as u32;
                let b = rt as u32;
                if b == 0 {
                    Err(Fault::DivisionByZero(w))
                } else {
                    Ok(CpuState { lo: (a / b) as u64, hi: (a % b) as u64, ..c })
                }
            },
            SpecialOpcode::Dmult => {
                let mul = (((rs as i64) as i128) * ((rt as i64) as i128)) as i128;
                Ok(CpuState { lo: mul as u64, hi: (mul >> 64) as u64, ..c })
            },
            SpecialOpcode::Dmultu => {
                let mul = ((rs as u128) * (rt as u128)) as u128;
                Ok(CpuState { lo: mul as u64, hi: (mul >> 64) as u64, ..c })
            },
            SpecialOpcode::Ddiv => {
                let a = rs as i64;
                let b = rt as i64;
                if b == 0 {
                    Err(Fault::DivisionByZero(w))
                } else if a == i64::MIN && b == -1 {
                    Err(Fault::DivideOverflow(w))
                } else {
                    Ok(
                        CpuState {
                            lo: spec_div_i64(a, b) as u64,
                            hi: spec_rem_i64(a, b) as u64,
                            ..c
                        },
                    )
                }
            },
            SpecialOpcode::Ddivu => {
                if rt == 0 {
                    Err(Fault::DivisionByZero(w))
                } else {
                    Ok(CpuState { lo: (rs / rt) as u64, hi: (rs % rt) as u64, ..c })
                }
            },
            SpecialOpcode::Add => Ok(
                CpuState {
                    gprs: spec_write_gpr(
                        c.gprs,
                        rd_i,
                        sext32_64(vstd::wrapping::u64_specs::wrapping_add(rs, rt)),
                    ),
                    ..c
                },
            ),
            SpecialOpcode::Addu => Ok(
                CpuState {
                    gprs: spec_write_gpr(
                        c.gprs,
                        rd_i,
                        sext32_64(vstd::wrapping::u64_specs::wrapping_add(rs, rt)),
                    ),
                    ..c
                },
            ),
            SpecialOpcode::Sub => Ok(
                CpuState {
                    gprs: spec_write_gpr(
                        c.gprs,
                        rd_i,
                        sext32_64(vstd::wrapping::u64_specs::wrapping_sub(rs, rt)),
                    ),
                    ..c
                },
            ),
            SpecialOpcode::Subu => Ok(
                CpuState {
                    gprs: spec_write_gpr(
                        c.gprs,
                        rd_i,
                        sext32_64(vstd::wrapping::u64_specs::wrapping_sub(rs, rt)),
                    ),
                    ..c
                },
            ),
            SpecialOpcode::And => Ok(
                CpuState { gprs: spec_write_gpr(c.gprs, rd_i, rs & rt), ..c },
            ),
            SpecialOpcode::Or => Ok(CpuState { gprs: spec_write_gpr(c.gprs, rd_i, rs | rt), ..c }),
            SpecialOpcode::Xor => Ok(
                CpuState { gprs: spec_write_gpr(c.gprs, rd_i, rs ^ rt), ..c },
            ),
            SpecialOpcode::Nor => Ok(
                CpuState { gprs: spec_write_gpr(c.gprs, rd_i, !(rs | rt)), ..c },
            ),
            SpecialOpcode::Slt => Ok(
                CpuState {
                    gprs: spec_write_gpr(
                        c.gprs,
                        rd_i,
                        sext32_64(
                            if (rs as i64) < (rt as i64) {
                                1
                            } else {
                                0
                            },
                        ),
                    ),
                    ..c
                },
            ),
            SpecialOpcode::Sltu => Ok(
                CpuState {
                    gprs: spec_write_gpr(
                        c.gprs,
                        rd_i,
                        sext32_64(
                            if rs < rt {
                                1
                            } else {
                                0
                            },
                        ),
                    ),
                    ..c
                },
            ),
            SpecialOpcode::Dadd => Ok(
                CpuState {
                    gprs: spec_write_gpr(
                        c.gprs,
                        rd_i,
                        vstd::wrapping::u64_specs::wrapping_add(rs, rt),
                    ),
                    ..c
                },
            ),
            SpecialOpcode::Daddu => Ok(
                CpuState {
                    gprs: spec_write_gpr(
                        c.gprs,
                        rd_i,
                        vstd::wrapping::u64_specs::wrapping_add(rs, rt),
                    ),
                    ..c
                },
            ),
            SpecialOpcode::Dsub => Ok(
                CpuState {
                    gprs: spec_write_gpr(
                        c.gprs,
                        rd_i,
                        vstd::wrapping::u64_specs::wrapping_sub(rs, rt),
                    ),
                    ..c
                },
            ),
            SpecialOpcode::Dsubu => Ok(
                CpuState {
                    gprs: spec_write_gpr(
                        c.gprs,
                        rd_i,
                        vstd::wrapping::u64_specs::wrapping_sub(rs, rt),
                    ),
                    ..c
                },
            ),
            SpecialOpcode::Dsll => Ok(
                CpuState { gprs: spec_write_gpr(c.gprs, rd_i, rt << sa), ..c },
            ),
            SpecialOpcode::Dsrl => Ok(
                CpuState { gprs: spec_write_gpr(c.gprs, rd_i, rt >> sa), ..c },
            ),
            SpecialOpcode::Dsra => Ok(
                CpuState { gprs: spec_write_gpr(c.gprs, rd_i, ((rt as i64) >> sa) as u64), ..c },
            ),
            SpecialOpcode::Dsll32 => Ok(
                CpuState { gprs: spec_write_gpr(c.gprs, rd_i, rt << (sa + 32)), ..c },
            ),
            SpecialOpcode::Dsrl32 => Ok(
                CpuState { gprs: spec_write_gpr(c.gprs, rd_i, rt >> (sa + 32)), ..c },
            ),
            SpecialOpcode::Dsra32 => Ok(
                CpuState {
                    gprs: spec_write_gpr(c.gprs, rd_i, ((rt as i64) >> (sa + 32)) as u64),
                    ..c
                },
            ),
        },
    }
}

/// The effect of one REGIMM-class instruction: the sign-test branches.
pub open spec fn spec_execute_reg_imm(c: CpuState, instr: Instruction) -> Result<CpuState, Fault> {
    let w = instr.0;
    let rs = spec_read_gpr(c.gprs, ((w >> 21) & 0x1f) as int);
    let off_ext = spec_imm_sign_extended(w & 0xffff);
    match crate::opcode::spec_decode_reg_imm((w >> 16) & 0x1f) {
        Option::None => Err(Fault::UnrecognizedInstruction(w)),
        Option::Some(op) => match op {
            RegImmOpcode::Bltz => Ok(spec_branch_state(c, off_ext, (rs as i64) < 0, false)),
            RegImmOpcode::Bgez => Ok(spec_branch_state(c, off_ext, (rs as i64) >= 0, false)),
            RegImmOpcode::Bgezl => Ok(spec_branch_likely_state(c, off_ext, (rs as i64) >= 0)),
            RegImmOpcode::Bgezal => Ok(spec_branch_state(c, off_ext, (rs as i64) >= 0, true)),
        },
    }
}

/// The effect of one COP0-class instruction: register moves through
/// `spec_cp0_read_reg`/`spec_cp0_write_reg`, TLBWI, and ERET (EPC into the
/// program counter).
pub open spec fn spec_execute_cop0(c: CpuState, instr: Instruction) -> Result<CpuState, Fault> {
    let w = instr.0;
    let rt_i = ((w >> 16) & 0x1f) as int;
    let rd = (w >> 11) & 0x1f;
    match crate::opcode::spec_decode_cop0((w >> 21) & 0x1f) {
        Option::None => Err(Fault::UnrecognizedInstruction(w)),
        Option::Some(op) => match op {
            Cop0Opcode::Mfc0 => match crate::cp0::spec_cp0_read_reg(c.cp0, rd) {
                Err(f) => Err(f),
                Ok(data) => Ok(CpuState { gprs: spec_write_gpr(c.gprs, rt_i, data), ..c }),
            },
            Cop0Opcode::Mtc0 => match crate::cp0::spec_cp0_write_reg(
                c.cp0,
                rd,
                spec_read_gpr(c.gprs, rt_i),
            ) {
                Err(f) => Err(f),
                Ok(cp0) => Ok(CpuState { cp0, ..c }),
            },
            Cop0Opcode::Co => match crate::opcode::spec_decode_cop0_co(w & 0x3f) {
                Option::None => Err(Fault::UnrecognizedInstruction(w)),
                Option::Some(Cop0CoOpcode::Tlbwi) => Ok(
                    CpuState { cp0: crate::cp0::spec_cp0_tlbwi(c.cp0), ..c },
                ),
                Option::Some(Cop0CoOpcode::Eret) => match crate::cp0::spec_cp0_read_reg(
                    c.cp0,
                    14,
                ) {
                    Err(f) => Err(f),
                    Ok(epc) => Ok(CpuState { pc: epc, ..c }),
                },
            },
        },
    }
}

/// Whether a CP1 arithmetic function/format pair is one this machine
/// recognizes (and hands out for host floating-point evaluation).
pub open spec fn spec_cop1_supported(op: Cop1Opcode, fmt: u32) -> bool {
    match op {
        Cop1Opcode::Add | Cop1Opcode::Sub | Cop1Opcode::Mul | Cop1Opcode::Div | Cop1Opcode::Sqrt
            | Cop1Opcode::Abs | Cop1Opcode::Mov | Cop1Opcode::Neg | Cop1Opcode::RoundL
            | Cop1Opcode::TruncL | Cop1Opcode::CeilL | Cop1Opcode::FloorL | Cop1Opcode::RoundW
            | Cop1Opcode::TruncW | Cop1Opcode::CeilW | Cop1Opcode::FloorW | Cop1Opcode::CvtW
            | Cop1Opcode::CvtL | Cop1Opcode::Ceq | Cop1Opcode::Cle => fmt == 16 || fmt == 17,
        Cop1Opcode::CvtS => fmt == 17 || fmt == 20 || fmt == 21,
        Cop1Opcode::CvtD => fmt == 16 || fmt == 20 || fmt == 21,
        _ => false,
    }
}

/// The effect of one COP1-class instruction: format 8 branches on the
/// condition flag (selector 0 normal, 2 likely, anything else a no-op);
/// recognized arithmetic is handed out unexecuted for host floating point.
pub open spec fn spec_execute_cop1(c: CpuState, instr: Instruction) -> Result<
    (CpuState, Option<Instruction>),
    Fault,
> {
    let w = instr.0;
    let fmt = (w >> 21) & 0x1f;
    let ft = (w >> 16) & 0x1f;
    let off_ext = spec_imm_sign_extended(w & 0xffff);
    if fmt == 8 {
        let taken = (c.fcr31 & 0x0040_0000) == 0;
        if ft == 2 {
            Ok((spec_branch_likely_state(c, off_ext, taken), Option::None))
        } else if ft == 0 {
            Ok((spec_branch_state(c, off_ext, taken, false), Option::None))
        } else {
            Ok((c, Option::None))
        }
    } else {
        match crate::opcode::spec_decode_cop1(w & 0x3f) {
            Option::None => Err(Fault::UnrecognizedInstruction(w)),
            Option::Some(op) => if spec_cop1_supported(op, fmt) {
                Ok((c, Option::Some(instr)))
            } else {
                Err(Fault::UnrecognizedInstruction(w))
            },
        }
    }
}

/// The byte-by-byte store of SWL: from the unaligned address to the end of
/// its word, successive bytes of the register, high first.
pub open spec fn spec_swl(s: IcState, virt: u64, word: u64, base: u64, i: u64) -> Result<
    IcState,
    Fault,
>
    decreases 4 - i,
{
    if i >= 4 {
        Ok(s)
    } else {
        let value = ((word >> (((3 - (i - base)) * 8) as u32)) & 0xff) as u8;
        match spec_cpu_write_byte(s, vstd::wrapping::u64_specs::wrapping_add(virt, i), value) {
            Err(f) => Err(f),
            Ok(s2) => spec_swl(s2, virt, word, base, (i + 1) as u64),
        }
    }
}

/// The byte-by-byte store of SWR: `to` bytes from the word's start up to and
/// including the unaligned address, low bytes of the register last.
pub open spec fn spec_swr(s: IcState, virt: u64, word: u64, to: u64, i: u64) -> Result<
    IcState,
    Fault,
>
    decreases to - i,
{
    if i >= to {
        Ok(s)
    } else {
        let value = ((word >> (((to - i - 1) * 8) as u32)) & 0xff) as u8;
        match spec_cpu_write_byte(s, vstd::wrapping::u64_specs::wrapping_add(virt, i), value) {
            Err(f) => Err(f),
            Ok(s2) => spec_swr(s2, virt, word, to, (i + 1) as u64),
        }
    }
}

/// The effect of one decoded instruction on the CPU and the bus: the
/// spec-level interpreter `execute_instruction` is held to. The third result
/// component is the CP1 arithmetic hand-out. Faults (unrecognized encodings,
/// translation or bus faults, fatal divisions) carry no final state: they
/// abort the machine.
pub open spec fn spec_execute(c: CpuState, s: IcState, instr: Instruction) -> Result<
    (CpuState, IcState, Option<Instruction>),
    Fault,
> {
    let w = instr.0;
    let rs = spec_read_gpr(c.gprs, ((w >> 21) & 0x1f) as int);
    let rt_i = ((w >> 16) & 0x1f) as int;
    let rt = spec_read_gpr(c.gprs, rt_i);
    let imm = (w & 0xffff) as u64;
    let imm_ext = spec_imm_sign_extended(w & 0xffff);
    let va = vstd::wrapping::u64_specs::wrapping_add(rs, imm_ext);
    let jump_to = (c.pc & 0xffff_ffff_f000_0000) | (((w & 0x3ff_ffff) as u64) << 2);
    match crate::opcode::spec_decode_opcode((w >> 26) & 0x3f) {
        Option::None => Err(Fault::UnrecognizedInstruction(w)),
        Option::Some(op) => match op {
            Opcode::Special => match spec_execute_special(c, instr) {
                Err(f) => Err(f),
                Ok(c2) => Ok((c2, s, Option::None)),
            },
            Opcode::RegImm => match spec_execute_reg_imm(c, instr) {
                Err(f) => Err(f),
                Ok(c2) => Ok((c2, s, Option::None)),
            },
            Opcode::Cop0 => match spec_execute_cop0(c, instr) {
                Err(f) => Err(f),
                Ok(c2) => Ok((c2, s, Option::None)),
            },
            Opcode::Cop1 => match spec_execute_cop1(c, instr) {
                Err(f) => Err(f),
                Ok((c2, h)) => Ok((c2, s, h)),
            },
            Opcode::J => Ok((CpuState { pc: jump_to, delay_slot_pc: Some(c.pc), ..c }, s, Option::None)),
            Opcode::Jal => Ok(
                (
                    CpuState {
                        gprs: spec_write_gpr(
                            c.gprs,
                            31,
                            vstd::wrapping::u64_specs::wrapping_add(c.pc, 4),
                        ),
                        pc: jump_to,
                        delay_slot_pc: Some(c.pc),
                        ..c
                    },
                    s,
                    Option::None,
                ),
            ),
            Opcode::Blez => Ok(
                (spec_branch_state(c, imm_ext, (rs as i64) <= 0, false), s, Option::None),
            ),
            Opcode::Addi => Ok(
                (
                    CpuState {
                        gprs: spec_write_gpr(
                            c.gprs,
                            rt_i,
                            sext32_64(vstd::wrapping::u64_specs::wrapping_add(rs, imm_ext)),
                        ),
                        ..c
                    },
                    s,
                    Option::None,
                ),
            ),
            Opcode::Addiu => Ok(
                (
                    CpuState {
                        gprs: spec_write_gpr(
                            c.gprs,
                            rt_i,
                            sext32_64(vstd::wrapping::u64_specs::wrapping_add(rs, imm_ext)),
                        ),
                        ..c
                    },
                    s,
                    Option::None,
                ),
            ),
            Opcode::Slti => Ok(
                (
                    CpuState {
                        gprs: spec_write_gpr(
                            c.gprs,
                            rt_i,
                            if (rs as i64) < (imm_ext as i64) {
                                1
                            } else {
                                0
                            },
                        ),
                        ..c
                    },
                    s,
                    Option::None,
                ),
            ),
            Opcode::Sltiu => Ok(
                (
                    CpuState {
                        gprs: spec_write_gpr(
                            c.gprs,
                            rt_i,
                            if rs < imm_ext {
                                1
                            } else {
                                0
                            },
                        ),
                        ..c
                    },
                    s,
                    Option::None,
                ),
            ),
            Opcode::Andi => Ok(
                (CpuState { gprs: spec_write_gpr(c.gprs, rt_i, rs & imm), ..c }, s, Option::None),
            ),
            Opcode::Ori => Ok(
                (CpuState { gprs: spec_write_gpr(c.gprs, rt_i, rs | imm), ..c }, s, Option::None),
            ),
            Opcode::Xori => Ok(
                (CpuState { gprs: spec_write_gpr(c.gprs, rt_i, rs ^ imm), ..c }, s, Option::None),
            ),
            Opcode::Lui => Ok(
                (
                    CpuState { gprs: spec_write_gpr(c.gprs, rt_i, sext32_64(imm << 16)), ..c },
                    s,
                    Option::None,
                ),
            ),
            Opcode::Beq => Ok((spec_branch_state(c, imm_ext, rs == rt, false), s, Option::None)),
            Opcode::Bne => Ok((spec_branch_state(c, imm_ext, rs != rt, false), s, Option::None)),
            Opcode::Bgtz => Ok(
                (spec_branch_state(c, imm_ext, (rs as i64) > 0, false), s, Option::None),
            ),
            Opcode::Beql => Ok((spec_branch_likely_state(c, imm_ext, rs == rt), s, Option::None)),
            Opcode::Bnel => Ok((spec_branch_likely_state(c, imm_ext, rs != rt), s, Option::None)),
            Opcode::Blezl => Ok(
                (spec_branch_likely_state(c, imm_ext, (rs as i64) <= 0), s, Option::None),
            ),
            Opcode::Daddi => Ok(
                (
                    CpuState {
                        gprs: spec_write_gpr(
                            c.gprs,
                            rt_i,
                            vstd::wrapping::u64_specs::wrapping_add(rs, imm_ext),
                        ),
                        ..c
                    },
                    s,
                    Option::None,
                ),
            ),
            Opcode::Daddiu => Ok(
                (
                    CpuState {
                        gprs: spec_write_gpr(
                            c.gprs,
                            rt_i,
                            vstd::wrapping::u64_specs::wrapping_add(rs, imm_ext),
                        ),
                        ..c
                    },
                    s,
                    Option::None,
                ),
            ),
            Opcode::Lb => match spec_cpu_read_byte(s, va) {
                Err(f) => Err(f),
                Ok(b) => Ok(
                    (
                        CpuState { gprs: spec_write_gpr(c.gprs, rt_i, (b as i8) as u64), ..c },
                        s,
                        Option::None,
                    ),
                ),
            },
            Opcode::Lh => match spec_cpu_read_halfword(s, va) {
                Err(f) => Err(f),
                Ok(h) => Ok(
                    (
                        CpuState { gprs: spec_write_gpr(c.gprs, rt_i, (h as i16) as u64), ..c },
                        s,
                        Option::None,
                    ),
                ),
            },
            Opcode::Lwl => {
                let aligned = va & 0xffff_ffff_ffff_fffc;
                match spec_cpu_read_word(s, aligned) {
                    Err(f) => Err(f),
                    Ok(m) => {
                        let mem = m as u64;
                        let shift = (va - aligned) as u64;
                        let value = if shift == 0 {
                            mem
                        } else if shift == 1 {
                            (mem << 8) | (rt & 0xff)
                        } else if shift == 2 {
                            (mem << 16) | (rt & 0xffff)
                        } else {
                            (mem << 24) | (rt & 0xff_ffff)
                        };
                        Ok(
                            (
                                CpuState {
                                    gprs: spec_write_gpr(c.gprs, rt_i, (value as i32) as u64),
                                    ..c
                                },
                                s,
                                Option::None,
                            ),
                        )
                    },
                }
            },
            Opcode::Lw => match spec_cpu_read_word(s, va) {
                Err(f) => Err(f),
                Ok(word) => Ok(
                    (
                        CpuState { gprs: spec_write_gpr(c.gprs, rt_i, (word as i32) as u64), ..c },
                        s,
                        Option::None,
                    ),
                ),
            },
            Opcode::Lbu => match spec_cpu_read_byte(s, va) {
                Err(f) => Err(f),
                Ok(b) => Ok(
                    (
                        CpuState { gprs: spec_write_gpr(c.gprs, rt_i, b as u64), ..c },
                        s,
                        Option::None,
                    ),
                ),
            },
            Opcode::Lhu => match spec_cpu_read_halfword(s, va) {
                Err(f) => Err(f),
                Ok(h) => Ok(
                    (
                        CpuState { gprs: spec_write_gpr(c.gprs, rt_i, h as u64), ..c },
                        s,
                        Option::None,
                    ),
                ),
            },
            Opcode::Lwr => {
                let aligned = va & 0xffff_ffff_ffff_fffc;
                match spec_cpu_read_word(s, aligned) {
                    Err(f) => Err(f),
                    Ok(m) => {
                        let mem = m as u64;
                        let shift = (va - aligned) as u64;
                        let value = if shift == 0 {
                            ((mem & 0xff00_0000) >> 24) | (rt & 0xffff_ffff_ffff_ff00)
                        } else if shift == 1 {
                            ((mem & 0xffff_0000) >> 16) | (rt & 0xffff_ffff_ffff_0000)
                        } else if shift == 2 {
                            ((mem & 0xffff_ff00) >> 8) | (rt & 0xffff_ffff_ff00_0000)
                        } else {
                            (mem & 0xffff_ffff) | (rt & 0xffff_ffff_0000_0000)
                        };
                        Ok(
                            (
                                CpuState { gprs: spec_write_gpr(c.gprs, rt_i, value), ..c },
                                s,
                                Option::None,
                            ),
                        )
                    },
                }
            },
            Opcode::Lwu => match spec_cpu_read_word(s, va) {
                Err(f) => Err(f),
                Ok(word) => Ok(
                    (
                        CpuState { gprs: spec_write_gpr(c.gprs, rt_i, word as u64), ..c },
                        s,
                        Option::None,
                    ),
                ),
            },
            Opcode::Sb => match spec_cpu_write_byte(s, va, (rt & 0xff) as u8) {
                Err(f) => Err(f),
                Ok(s2) => Ok((c, s2, Option::None)),
            },
            Opcode::Sh => {
                let halfword = (rt & 0xffff) as u16;
                match spec_cpu_write_byte(s, va, (halfword >> 8) as u8) {
                    Err(f) => Err(f),
                    Ok(s1) => match spec_cpu_write_byte(
                        s1,
                        vstd::wrapping::u64_specs::wrapping_add(va, 1),
                        (halfword & 0xff) as u8,
                    ) {
                        Err(f) => Err(f),
                        Ok(s2) => Ok((c, s2, Option::None)),
                    },
                }
            },
            Opcode::Swl => match spec_swl(s, va, rt, va & 0b11, va & 0b11) {
                Err(f) => Err(f),
                Ok(s2) => Ok((c, s2, Option::None)),
            },
            Opcode::Sw => match spec_cpu_write_word(s, va, rt as u32) {
                Err(f) => Err(f),
                Ok(s2) => Ok((c, s2, Option::None)),
            },
            Opcode::Swr => match spec_swr(s, va, rt, ((va & 0b11) + 1) as u64, 0) {
                Err(f) => Err(f),
                Ok(s2) => Ok((c, s2, Option::None)),
            },
            Opcode::Cache => Ok((c, s, Option::None)),
            Opcode::Lwc1 => match spec_cpu_read_word(s, va) {
                Err(f) => Err(f),
                Ok(m) => Ok(
                    (
                        CpuState {
                            fprs: c.fprs.update(
                                rt_i,
                                ((c.fprs[rt_i] & 0xffff_ffff_0000_0000) | (m as u64)) as u64,
                            ),
                            ..c
                        },
                        s,
                        Option::None,
                    ),
                ),
            },
            Opcode::Ldc1 => match spec_cpu_read_doubleword(s, va) {
                Err(f) => Err(f),
                Ok(d) => Ok((CpuState { fprs: c.fprs.update(rt_i, d), ..c }, s, Option::None)),
            },
            Opcode::Swc1 => match spec_cpu_write_word(s, va, c.fprs[rt_i] as u32) {
                Err(f) => Err(f),
                Ok(s2) => Ok((c, s2, Option::None)),
            },
            Opcode::Sdc1 => match spec_cpu_write_doubleword(s, va, c.fprs[rt_i]) {
                Err(f) => Err(f),
                Ok(s2) => Ok((c, s2, Option::None)),
            },
            Opcode::Ld => match spec_cpu_read_doubleword(s, va) {
                Err(f) => Err(f),
                Ok(d) => Ok(
                    (CpuState { gprs: spec_write_gpr(c.gprs, rt_i, d), ..c }, s, Option::None),
                ),
            },
            Opcode::Sd => match spec_cpu_write_doubleword(s, va, rt) {
                Err(f) => Err(f),
                Ok(s2) => Ok((c, s2, Option::None)),
            },
        },
    }
}

/// One CPU step: fetch at the delay-slot latch when one is pending (the
/// branch target already sits in the program counter) with the latch
/// consumed, else at the program counter with the counter advanced past the
/// instruction; then execute per `spec_execute`.
pub open spec fn spec_cpu_step(c: CpuState, s: IcState) -> Result<
    (CpuState, IcState, Option<Instruction>),
    Fault,
> {
    match spec_cpu_read_word(s, spec_fetch_pc(c.pc, c.delay_slot_pc)) {
        Err(f) => Err(f),
        Ok(w) => {
            let c1 = match c.delay_slot_pc {
                Some(_) => CpuState { delay_slot_pc: Option::None, ..c },
                Option::None => CpuState {
                    pc: vstd::wrapping::u64_specs::wrapping_add(c.pc, 4),
                    ..c
                },
            };
            spec_execute(c1, s, Instruction(w))
        },
    }
}

impl Cpu {
    /// Register files have their 32 slots and GPR 0 reads as zero.
    pub open spec fn wf(&self) -> bool {
        &&& self.reg_gpr@.len() == 32
        &&& self.reg_fpr@.len() == 32
        &&& self.reg_gpr@[0] == 0
        &&& self.cp0.wf()
    }

    pub fn new() -> (r: Cpu)
        ensures
            r.wf(),
            r.reg_pc == INITIAL_PC,
            r.reg_gpr@ == Seq::new(32, |i: int| 0u64),
            r.reg_fpr@ == Seq::new(32, |i: int| 0u64),
            r.reg_hi == 0 && r.reg_lo == 0,
            !r.reg_llbit,
            r.reg_fcr0 == 0 && r.reg_fcr31 == 0,
            r.delay_slot_pc is None,
    {
        let mut gpr: Vec<u64> = Vec::new();
        let mut i: usize = 0;
        while i < 32
            invariant
                i <= 32,
                gpr@ == Seq::new(i as nat, |j: int| 0u64),
            decreases 32 - i,
        {
            gpr.push(0);
            i = i + 1;
            proof {
                assert(gpr@ =~= Seq::new(i as nat, |j: int| 0u64));
            }
        }
        let mut fpr: Vec<u64> = Vec::new();
        let mut i: usize = 0;
        while i < 32
            invariant
                i <= 32,
                fpr@ == Seq::new(i as nat, |j: int| 0u64),
            decreases 32 - i,
        {
            fpr.push(0);
            i = i + 1;
            proof {
                assert(fpr@ =~= Seq::new(i as nat, |j: int| 0u64));
            }
        }
        Cpu {
            reg_gpr: gpr,
            reg_fpr: fpr,

            reg_pc: INITIAL_PC,

            reg_hi: 0,
            reg_lo: 0,

            reg_llbit: false,

            reg_fcr0: 0,
            reg_fcr31: 0,

            cp0: Cp0::default(),

            delay_slot_pc: None,
        }
    }

    /// The virtual address of the instruction the next step executes.
    pub fn current_pc_virt(&self) -> (r: u64)
        ensures
            r == spec_cpu_fetch_pc(*self),
    {
        match self.delay_slot_pc {
            Some(p) => p,
            None => self.reg_pc,
        }
    }

    /// The physical address of the instruction the next step executes; a
    /// fetch address outside kseg0/kseg1 is a fatal fault.
    pub fn current_pc_phys(&self) -> (r: Result<u64, Fault>)
        ensures
            r == spec_virt_to_phys(spec_cpu_fetch_pc(*self)),
    {
        self.virt_addr_to_phys_addr(self.current_pc_virt())
    }

    pub fn will_execute_from_delay_slot(&self) -> (r: bool)
        ensures
            r == (self.delay_slot_pc is Some),
    {
        self.delay_slot_pc.is_some()
    }

    /// See `spec_virt_to_phys`.
    pub fn virt_addr_to_phys_addr(&self, virt_addr: u64) -> (r: Result<u64, Fault>)
        ensures
            r == spec_virt_to_phys(virt_addr),
    {
        let addr_bit_values = (virt_addr >> 29) & 0b111;

        if addr_bit_values == 0b100 {
            // kseg0
            if virt_addr >= 0xffff_ffff_8000_0000 {
                Ok(virt_addr - 0xffff_ffff_8000_0000)
            } else {
                Err(Fault::UnmappedVirtualAddress(virt_addr))
            }
        } else if addr_bit_values == 0b101 {
            // kseg1
            if virt_addr >= 0xffff_ffff_a000_0000 {
                Ok(virt_addr - 0xffff_ffff_a000_0000)
            } else {
                Err(Fault::UnmappedVirtualAddress(virt_addr))
            }
        } else {
            Err(Fault::UnmappedVirtualAddress(virt_addr))
        }
    }

    /// See `spec_read_gpr`: GPR 0 reads 0.
    pub fn read_reg_gpr(&self, index: usize) -> (r: u64)
        requires
            self.wf(),
            index < 32,
        ensures
            r == spec_read_gpr(self.reg_gpr@, index as int),
    {
        if index == 0 {
            0
        } else {
            self.reg_gpr[index]
        }
    }

    /// See `spec_write_gpr`: a write to GPR 0 is discarded.
    pub fn write_reg_gpr(&mut self, index: usize, value: u64)
        requires
            old(self).wf(),
            index < 32,
        ensures
            final(self).wf(),
            final(self).reg_gpr@ == spec_write_gpr(old(self).reg_gpr@, index as int, value),
            *final(self) == (Cpu { reg_gpr: final(self).reg_gpr, ..*old(self) }),
    {
        if index != 0 {
            self.reg_gpr.set(index, value);
        }
    }

    /// The raw bit pattern of a floating point register.
    pub fn read_reg_fpr(&self, index: usize) -> (r: u64)
        requires
            self.wf(),
            index < 32,
        ensures
            r == self.reg_fpr@[index as int],
    {
        self.reg_fpr[index]
    }

    /// The low 32 bits of a floating point register (the single lane).
    pub fn read_reg_fpr_single(&self, index: usize) -> (r: u32)
        requires
            self.wf(),
            index < 32,
        ensures
            r == self.reg_fpr@[index as int] as u32,
    {
        self.reg_fpr[index] as u32
    }

    /// Replaces a floating point register's raw bit pattern.
    pub fn write_reg_fpr(&mut self, index: usize, bits: u64)
        requires
            old(self).wf(),
            index < 32,
        ensures
            final(self).wf(),
            final(self).reg_fpr@ == old(self).reg_fpr@.update(index as int, bits),
            *final(self) == (Cpu { reg_fpr: final(self).reg_fpr, ..*old(self) }),
    {
        self.reg_fpr.set(index, bits);
    }

    /// Stores a single-lane bit pattern: the 32 bits land zero-extended in
    /// the 64-bit backing register.
    pub fn write_reg_fpr_single(&mut self, index: usize, bits: u32)
        requires
            old(self).wf(),
            index < 32,
        ensures
            final(self).wf(),
            final(self).reg_fpr@ == old(self).reg_fpr@.update(index as int, bits as u64),
            *final(self) == (Cpu { reg_fpr: final(self).reg_fpr, ..*old(self) }),
    {
        self.reg_fpr.set(index, bits as u64);
    }

    /// Sets or clears the CP1 compare flag, bit 23 of FCR31. The caller
    /// evaluates the floating-point predicate; this records its outcome.
    pub fn set_cp1_compare_flag(&mut self, condition: bool)
        ensures
            *final(self) == (Cpu {
                reg_fcr31: if condition {
                    old(self).reg_fcr31 | 0x0040_0000u32
                } else {
                    old(self).reg_fcr31 & 0xffbf_ffffu32
                },
                ..*old(self)
            }),
    {
        if condition {
            self.reg_fcr31 = self.reg_fcr31 | 0x0040_0000;
        } else {
            self.reg_fcr31 = self.reg_fcr31 & 0xffbf_ffff;
        }
    }

    /// Reads the word at a virtual address through the bus.
    pub fn read_word(&self, interconnect: &Interconnect, virt_addr: u64) -> (r: Result<u32, Fault>)
        requires
            ic_wf(interconnect@),
        ensures
            r == spec_cpu_read_word(interconnect@, virt_addr),
    {
        let phys_addr = match self.virt_addr_to_phys_addr(virt_addr) {
            Ok(p) => p,
            Err(f) => {
                return Err(f);
            },
        };
        interconnect.read_word(phys_addr as u32)
    }

    /// Reads the byte at a virtual address through the bus.
    pub fn read_byte(&self, interconnect: &Interconnect, virt_addr: u64) -> (r: Result<u8, Fault>)
        requires
            ic_wf(interconnect@),
        ensures
            r == spec_cpu_read_byte(interconnect@, virt_addr),
    {
        let phys_addr = match self.virt_addr_to_phys_addr(virt_addr) {
            Ok(p) => p,
            Err(f) => {
                return Err(f);
            },
        };
        interconnect.read_byte(phys_addr as u32)
    }

    /// Reads a big-endian halfword as two byte reads (see
    /// `spec_cpu_read_halfword`).
    pub fn read_halfword(&self, interconnect: &Interconnect, virt_addr: u64) -> (r: Result<
        u16,
        Fault,
    >)
        requires
            ic_wf(interconnect@),
        ensures
            r == spec_cpu_read_halfword(interconnect@, virt_addr),
    {
        let hi = match self.read_byte(interconnect, virt_addr) {
            Ok(b) => b,
            Err(f) => {
                return Err(f);
            },
        };
        let lo = match self.read_byte(interconnect, virt_addr.wrapping_add(1)) {
            Ok(b) => b,
            Err(f) => {
                return Err(f);
            },
        };
        Ok((hi as u16) << 8 | (lo as u16))
    }

    /// Reads a big-endian doubleword as two word reads (see
    /// `spec_cpu_read_doubleword`).
    pub fn read_doubleword(&self, interconnect: &Interconnect, virt_addr: u64) -> (r: Result<
        u64,
        Fault,
    >)
        requires
            ic_wf(interconnect@),
        ensures
            r == spec_cpu_read_doubleword(interconnect@, virt_addr),
    {
        let hi = match self.read_word(interconnect, virt_addr) {
            Ok(w) => w,
            Err(f) => {
                return Err(f);
            },
        };
        let lo = match self.read_word(interconnect, virt_addr.wrapping_add(4)) {
            Ok(w) => w,
            Err(f) => {
                return Err(f);
            },
        };
        Ok((hi as u64) << 32 | (lo as u64))
    }

    /// Writes the word at a virtual address through the bus.
    pub fn write_word(&self, interconnect: &mut Interconnect, virt_addr: u64, value: u32) -> (r:
        Result<(), Fault>)
        requires
            ic_wf(old(interconnect)@),
        ensures
            ic_wf(final(interconnect)@),
            match r {
                Ok(()) => spec_cpu_write_word(old(interconnect)@, virt_addr, value) == Ok::<
                    IcState,
                    Fault,
                >(final(interconnect)@),
                Err(f) => spec_cpu_write_word(old(interconnect)@, virt_addr, value) == Err::<
                    IcState,
                    Fault,
                >(f) && *final(interconnect) == *old(interconnect),
            },
    {
        let phys_addr = match self.virt_addr_to_phys_addr(virt_addr) {
            Ok(p) => p,
            Err(f) => {
                return Err(f);
            },
        };
        interconnect.write_word(phys_addr as u32, value)
    }

    /// Writes the byte at a virtual address through the bus.
    pub fn write_byte(&self, interconnect: &mut Interconnect, virt_addr: u64, value: u8) -> (r:
        Result<(), Fault>)
        requires
            ic_wf(old(interconnect)@),
        ensures
            ic_wf(final(interconnect)@),
            match r {
                Ok(()) => spec_cpu_write_byte(old(interconnect)@, virt_addr, value) == Ok::<
                    IcState,
                    Fault,
                >(final(interconnect)@),
                Err(f) => spec_cpu_write_byte(old(interconnect)@, virt_addr, value) == Err::<
                    IcState,
                    Fault,
                >(f) && *final(interconnect) == *old(interconnect),
            },
    {
        let phys_addr = match self.virt_addr_to_phys_addr(virt_addr) {
            Ok(p) => p,
            Err(f) => {
                return Err(f);
            },
        };
        interconnect.write_byte(phys_addr as u32, value)
    }

    /// Writes a big-endian doubleword as two word writes, high word first
    /// (see `spec_cpu_write_doubleword`). On a fault the completed first
    /// write, if any, stays.
    pub fn write_doubleword(
        &self,
        interconnect: &mut Interconnect,
        virt_addr: u64,
        value: u64,
    ) -> (r: Result<(), Fault>)
        requires
            ic_wf(old(interconnect)@),
        ensures
            ic_wf(final(interconnect)@),
            match r {
                Ok(()) => spec_cpu_write_doubleword(old(interconnect)@, virt_addr, value) == Ok::<
                    IcState,
                    Fault,
                >(final(interconnect)@),
                Err(f) => spec_cpu_write_doubleword(old(interconnect)@, virt_addr, value) == Err::<
                    IcState,
                    Fault,
                >(f),
            },
    {
        match self.write_word(interconnect, virt_addr, (value >> 32) as u32) {
            Ok(()) => {},
            Err(f) => {
                return Err(f);
            },
        }
        self.write_word(interconnect, virt_addr.wrapping_add(4), value as u32)
    }

    /// Truncating 32-bit signed division, computed over magnitudes (see
    /// `spec_div_i32`).
    fn div_i32(a: i32, b: i32) -> (r: i32)
        requires
            b != 0,
            !(a == i32::MIN && b == -1),
        ensures
            r == spec_div_i32(a, b),
    {
        let ua: u32 = if a < 0 {
            (-(a as i64)) as u32
        } else {
            a as u32
        };
        let ub: u32 = if b < 0 {
            (-(b as i64)) as u32
        } else {
            b as u32
        };
        let uq = ua / ub;
        proof {
            vstd::arithmetic::div_mod::lemma_div_is_ordered_by_denominator(ua as int, 1, ub as int);
        }
        if (a < 0) != (b < 0) {
            (-(uq as i64)) as i32
        } else {
            uq as i32
        }
    }

    /// The remainder matching `div_i32` (see `spec_rem_i32`).
    fn rem_i32(a: i32, b: i32) -> (r: i32)
        requires
            b != 0,
            !(a == i32::MIN && b == -1),
        ensures
            r == spec_rem_i32(a, b),
    {
        let ua: u32 = if a < 0 {
            (-(a as i64)) as u32
        } else {
            a as u32
        };
        let ub: u32 = if b < 0 {
            (-(b as i64)) as u32
        } else {
            b as u32
        };
        let ur = ua % ub;
        if a < 0 {
            (-(ur as i64)) as i32
        } else {
            ur as i32
        }
    }

    /// Truncating 64-bit signed division, computed over magnitudes (see
    /// `spec_div_i64`).
    fn div_i64(a: i64, b: i64) -> (r: i64)
        requires
            b != 0,
            !(a == i64::MIN && b == -1),
        ensures
            r == spec_div_i64(a, b),
    {
        let ua: u64 = if a < 0 {
            (-(a as i128)) as u64
        } else {
            a as u64
        };
        let ub: u64 = if b < 0 {
            (-(b as i128)) as u64
        } else {
            b as u64
        };
        let uq = ua / ub;
        proof {
            vstd::arithmetic::div_mod::lemma_div_is_ordered_by_denominator(ua as int, 1, ub as int);
        }
        if (a < 0) != (b < 0) {
            (-(uq as i128)) as i64
        } else {
            uq as i64
        }
    }

    /// The remainder matching `div_i64` (see `spec_rem_i64`).
    fn rem_i64(a: i64, b: i64) -> (r: i64)
        requires
            b != 0,
            !(a == i64::MIN && b == -1),
        ensures
            r == spec_rem_i64(a, b),
    {
        let ua: u64 = if a < 0 {
            (-(a as i128)) as u64
        } else {
            a as u64
        };
        let ub: u64 = if b < 0 {
            (-(b as i128)) as u64
        } else {
            b as u64
        };
        let ur = ua % ub;
        if a < 0 {
            (-(ur as i128)) as i64
        } else {
            ur as i64
        }
    }

    /// The effective address of a load or store: base register plus
    /// sign-extended offset, wrapping as the hardware adder does.
    pub fn resolve_offset(&self, instr: Instruction) -> (r: u64)
        requires
            self.wf(),
        ensures
            r == vstd::wrapping::u64_specs::wrapping_add(
                spec_read_gpr(self.reg_gpr@, ((instr.0 >> 21) & 0x1f) as int),
                spec_imm_sign_extended(instr.0 & 0xffff),
            ),
    {
        let base = instr.rs();
        let sign_extended_offset = instr.offset_sign_extended();
        self.read_reg_gpr(base).wrapping_add(sign_extended_offset)
    }

    /// Writes an immediate-form result into `rt`, optionally sign-extending
    /// the low 32 bits (see `spec_write_gpr` and `sext32_64`).
    fn imm_instr(&mut self, instr: Instruction, sign_extend_result: SignExtendResult, value: u64)
        requires
            old(self).wf(),
        ensures
            final(self).wf(),
            final(self).reg_gpr@ == spec_write_gpr(
                old(self).reg_gpr@,
                ((instr.0 >> 16) & 0x1f) as int,
                if sign_extend_result is Yes {
                    sext32_64(value)
                } else {
                    value
                },
            ),
            *final(self) == (Cpu { reg_gpr: final(self).reg_gpr, ..*old(self) }),
    {
        let sign_extended_value = (value as i32) as u64;
        let value = match sign_extend_result {
            SignExtendResult::Yes => sign_extended_value,
            _ => value,
        };
        self.write_reg_gpr(instr.rt(), value);
    }

    /// Writes a register-form result into `rd`, optionally sign-extending
    /// the low 32 bits.
    fn reg_instr(&mut self, instr: Instruction, sign_extend_result: SignExtendResult, value: u64)
        requires
            old(self).wf(),
        ensures
            final(self).wf(),
            final(self).reg_gpr@ == spec_write_gpr(
                old(self).reg_gpr@,
                ((instr.0 >> 11) & 0x1f) as int,
                if sign_extend_result is Yes {
                    sext32_64(value)
                } else {
                    value
                },
            ),
            *final(self) == (Cpu { reg_gpr: final(self).reg_gpr, ..*old(self) }),
    {
        let sign_extended_value = (value as i32) as u64;
        let value = match sign_extend_result {
            SignExtendResult::Yes => sign_extended_value,
            _ => value,
        };
        self.write_reg_gpr(instr.rd() as usize, value);
    }

    /// Executes a branch whose predicate has already been evaluated to
    /// `is_taken`: the link lands in GPR 31 first, and a taken branch latches
    /// the delay slot and retargets the program counter (see `spec_branch_pc`,
    /// `spec_branch_delay` and `spec_branch_gprs`).
    fn branch(&mut self, instr: Instruction, write_link: WriteLink, is_taken: bool) -> (r: bool)
        requires
            old(self).wf(),
        ensures
            final(self).wf(),
            r == is_taken,
            final(self).reg_gpr@ == spec_branch_gprs(
                old(self).reg_gpr@,
                old(self).reg_pc,
                write_link is Yes,
            ),
            final(self).reg_pc == spec_branch_pc(
                old(self).reg_pc,
                spec_imm_sign_extended(instr.0 & 0xffff),
                is_taken,
            ),
            final(self).delay_slot_pc == spec_branch_delay(
                old(self).reg_pc,
                old(self).delay_slot_pc,
                is_taken,
            ),
            *final(self) == (Cpu {
                reg_gpr: final(self).reg_gpr,
                reg_pc: final(self).reg_pc,
                delay_slot_pc: final(self).delay_slot_pc,
                ..*old(self)
            }),
    {
        let delay_slot_pc = self.reg_pc;

        if let WriteLink::Yes = write_link {
            let link_address = delay_slot_pc.wrapping_add(4);
            self.write_reg_gpr(31, link_address);
        }

        if is_taken {
            let sign_extended_offset = instr.offset_sign_extended() << 2;
            // Update the program counter before the delay slot executes.
            self.reg_pc = self.reg_pc.wrapping_add(sign_extended_offset);

            self.delay_slot_pc = Some(delay_slot_pc);
        }

        is_taken
    }

    /// A branch-likely: as `branch`, except that when it is not taken the
    /// delay slot instruction is skipped by advancing the program counter.
    fn branch_likely(&mut self, instr: Instruction, is_taken: bool)
        requires
            old(self).wf(),
        ensures
            final(self).wf(),
            final(self).reg_pc == if is_taken {
                spec_branch_pc(old(self).reg_pc, spec_imm_sign_extended(instr.0 & 0xffff), true)
            } else {
                vstd::wrapping::u64_specs::wrapping_add(old(self).reg_pc, 4)
            },
            final(self).delay_slot_pc == spec_branch_delay(
                old(self).reg_pc,
                old(self).delay_slot_pc,
                is_taken,
            ),
            final(self).reg_gpr@ == old(self).reg_gpr@,
            *final(self) == (Cpu {
                reg_gpr: final(self).reg_gpr,
                reg_pc: final(self).reg_pc,
                delay_slot_pc: final(self).delay_slot_pc,
                ..*old(self)
            }),
    {
        if !self.branch(instr, WriteLink::No, is_taken) {
            // Skip over the delay slot instruction.
            self.reg_pc = self.reg_pc.wrapping_add(4);
        }
    }

    /// Fetches the instruction word at `addr`.
    fn read_instruction(&self, interconnect: &Interconnect, addr: u64) -> (r: Result<
        Instruction,
        Fault,
    >)
        requires
            ic_wf(interconnect@),
        ensures
            match r {
                Ok(i) => spec_cpu_read_word(interconnect@, addr) == Ok::<u32, Fault>(i.0),
                Err(f) => spec_cpu_read_word(interconnect@, addr) == Err::<u32, Fault>(f),
            },
    {
        match self.read_word(interconnect, addr) {
            Ok(w) => Ok(Instruction(w)),
            Err(f) => Err(f),
        }
    }


    /// Executes the SPECIAL-class shift instructions (see
    /// `spec_execute_special`).
    #[verifier::rlimit(100)]
    fn execute_special_shift(&mut self, instr: Instruction, op: SpecialOpcode)
        requires
            old(self).wf(),
            crate::opcode::spec_decode_special(instr.0 & 0x3f) == Some(op),
            op is Sll || op is Srl || op is Sra || op is Sllv || op is Srlv || op is Srav || op is Dsllv || op is Dsrlv || op is Dsrav || op is Dsll || op is Dsrl || op is Dsra || op is Dsll32 || op is Dsrl32 || op is Dsra32,
        ensures
            final(self).wf(),
            spec_execute_special(old(self)@, instr) == Ok::<CpuState, Fault>(final(self)@),
    {
        match op {
            SpecialOpcode::Sll => {
                let rt = self.read_reg_gpr(instr.rt());
                self.reg_instr(instr, SignExtendResult::Yes, rt << instr.sa());
            },

            SpecialOpcode::Srl => {
                let rt = self.read_reg_gpr(instr.rt());
                self.reg_instr(
                    instr,
                    SignExtendResult::Yes,
                    ((rt as u32) >> instr.sa()) as u64,
                );
            },

            SpecialOpcode::Sra => {
                let rt = self.read_reg_gpr(instr.rt());
                self.reg_instr(
                    instr,
                    SignExtendResult::Yes,
                    ((rt as i32) >> instr.sa()) as u64,
                );
            },

            SpecialOpcode::Sllv => {
                let rs = self.read_reg_gpr(instr.rs());
                let rt = self.read_reg_gpr(instr.rt());
                proof {
                    lemma_mask5_u64(rs);
                }
                self.reg_instr(
                    instr,
                    SignExtendResult::Yes,
                    ((rt as u32) << (rs & 0x1f)) as u64,
                );
            },

            SpecialOpcode::Srlv => {
                let rs = self.read_reg_gpr(instr.rs());
                let rt = self.read_reg_gpr(instr.rt());
                proof {
                    lemma_mask5_u64(rs);
                }
                self.reg_instr(
                    instr,
                    SignExtendResult::Yes,
                    ((rt as u32) >> (rs & 0x1f)) as u64,
                );
            },

            SpecialOpcode::Srav => {
                let rs = self.read_reg_gpr(instr.rs());
                let rt = self.read_reg_gpr(instr.rt());
                proof {
                    lemma_mask5_u64(rs);
                }
                self.reg_instr(
                    instr,
                    SignExtendResult::Yes,
                    ((rt as i32) >> (rs & 0x1f)) as u64,
                );
            },

            SpecialOpcode::Dsllv => {
                let rs = self.read_reg_gpr(instr.rs());
                let rt = self.read_reg_gpr(instr.rt());
                proof {
                    lemma_mask6_u64(rs);
                }
                self.reg_instr(instr, SignExtendResult::No, rt << (rs & 0x3f));
            },

            SpecialOpcode::Dsrlv => {
                let rs = self.read_reg_gpr(instr.rs());
                let rt = self.read_reg_gpr(instr.rt());
                proof {
                    lemma_mask6_u64(rs);
                }
                self.reg_instr(instr, SignExtendResult::No, rt >> (rs & 0x3f));
            },

            SpecialOpcode::Dsrav => {
                let rs = self.read_reg_gpr(instr.rs());
                let rt = self.read_reg_gpr(instr.rt());
                proof {
                    lemma_mask6_u64(rs);
                }
                self.reg_instr(
                    instr,
                    SignExtendResult::No,
                    ((rt as i64) >> (rs & 0x3f)) as u64,
                );
            },

            SpecialOpcode::Dsll => {
                let rt = self.read_reg_gpr(instr.rt());
                self.reg_instr(instr, SignExtendResult::No, rt << instr.sa());
            },

            SpecialOpcode::Dsrl => {
                let rt = self.read_reg_gpr(instr.rt());
                self.reg_instr(instr, SignExtendResult::No, rt >> instr.sa());
            },

            SpecialOpcode::Dsra => {
                let rt = self.read_reg_gpr(instr.rt());
                self.reg_instr(
                    instr,
                    SignExtendResult::No,
                    ((rt as i64) >> instr.sa()) as u64,
                );
            },

            SpecialOpcode::Dsll32 => {
                let rt = self.read_reg_gpr(instr.rt());
                self.reg_instr(instr, SignExtendResult::No, rt << (instr.sa() + 32));
            },

            SpecialOpcode::Dsrl32 => {
                let rt = self.read_reg_gpr(instr.rt());
                self.reg_instr(instr, SignExtendResult::No, rt >> (instr.sa() + 32));
            },

            SpecialOpcode::Dsra32 => {
                let rt = self.read_reg_gpr(instr.rt());
                self.reg_instr(
                    instr,
                    SignExtendResult::No,
                    ((rt as i64) >> (instr.sa() + 32)) as u64,
                );
            },

            _ => {
                proof {
                    assert(false);
                }
            },
        }
    }

    /// Executes the SPECIAL-class register arithmetic and logic instructions
    /// (see `spec_execute_special`).
    #[verifier::rlimit(100)]
    fn execute_special_alu(&mut self, instr: Instruction, op: SpecialOpcode)
        requires
            old(self).wf(),
            crate::opcode::spec_decode_special(instr.0 & 0x3f) == Some(op),
            op is Add || op is Addu || op is Sub || op is Subu || op is And || op is Or || op is Xor || op is Nor || op is Slt || op is Sltu || op is Dadd || op is Daddu || op is Dsub || op is Dsubu,
        ensures
            final(self).wf(),
            spec_execute_special(old(self)@, instr) == Ok::<CpuState, Fault>(final(self)@),
    {
        match op {
            SpecialOpcode::Add => {
                // The overflow exception is not modelled: the sum
                // wraps, as for ADDU.
                let rs = self.read_reg_gpr(instr.rs());
                let rt = self.read_reg_gpr(instr.rt());
                self.reg_instr(instr, SignExtendResult::Yes, rs.wrapping_add(rt));
            },

            SpecialOpcode::Addu => {
                let rs = self.read_reg_gpr(instr.rs());
                let rt = self.read_reg_gpr(instr.rt());
                self.reg_instr(instr, SignExtendResult::Yes, rs.wrapping_add(rt));
            },

            SpecialOpcode::Sub => {
                // The overflow exception is not modelled: the
                // difference wraps, as for SUBU.
                let rs = self.read_reg_gpr(instr.rs());
                let rt = self.read_reg_gpr(instr.rt());
                self.reg_instr(instr, SignExtendResult::Yes, rs.wrapping_sub(rt));
            },

            SpecialOpcode::Subu => {
                let rs = self.read_reg_gpr(instr.rs());
                let rt = self.read_reg_gpr(instr.rt());
                self.reg_instr(instr, SignExtendResult::Yes, rs.wrapping_sub(rt));
            },

            SpecialOpcode::And => {
                let rs = self.read_reg_gpr(instr.rs());
                let rt = self.read_reg_gpr(instr.rt());
                self.reg_instr(instr, SignExtendResult::No, rs & rt);
            },

            SpecialOpcode::Or => {
                let rs = self.read_reg_gpr(instr.rs());
                let rt = self.read_reg_gpr(instr.rt());
                self.reg_instr(instr, SignExtendResult::No, rs | rt);
            },

            SpecialOpcode::Xor => {
                let rs = self.read_reg_gpr(instr.rs());
                let rt = self.read_reg_gpr(instr.rt());
                self.reg_instr(instr, SignExtendResult::No, rs ^ rt);
            },

            SpecialOpcode::Nor => {
                let rs = self.read_reg_gpr(instr.rs());
                let rt = self.read_reg_gpr(instr.rt());
                self.reg_instr(instr, SignExtendResult::No, !(rs | rt));
            },

            SpecialOpcode::Slt => {
                let rs = self.read_reg_gpr(instr.rs());
                let rt = self.read_reg_gpr(instr.rt());
                self.reg_instr(
                    instr,
                    SignExtendResult::Yes,
                    if (rs as i64) < (rt as i64) {
                        1
                    } else {
                        0
                    },
                );
            },

            SpecialOpcode::Sltu => {
                let rs = self.read_reg_gpr(instr.rs());
                let rt = self.read_reg_gpr(instr.rt());
                self.reg_instr(
                    instr,
                    SignExtendResult::Yes,
                    if rs < rt {
                        1
                    } else {
                        0
                    },
                );
            },

            SpecialOpcode::Dadd => {
                // The overflow exception is not modelled.
                let rs = self.read_reg_gpr(instr.rs());
                let rt = self.read_reg_gpr(instr.rt());
                self.reg_instr(instr, SignExtendResult::No, rs.wrapping_add(rt));
            },

            SpecialOpcode::Daddu => {
                let rs = self.read_reg_gpr(instr.rs());
                let rt = self.read_reg_gpr(instr.rt());
                self.reg_instr(instr, SignExtendResult::No, rs.wrapping_add(rt));
            },

            SpecialOpcode::Dsub => {
                // The overflow exception is not modelled.
                let rs = self.read_reg_gpr(instr.rs());
                let rt = self.read_reg_gpr(instr.rt());
                self.reg_instr(instr, SignExtendResult::No, rs.wrapping_sub(rt));
            },

            SpecialOpcode::Dsubu => {
                let rs = self.read_reg_gpr(instr.rs());
                let rt = self.read_reg_gpr(instr.rt());
                self.reg_instr(instr, SignExtendResult::No, rs.wrapping_sub(rt));
            },

            _ => {
                proof {
                    assert(false);
                }
            },
        }
    }

    /// Executes the SPECIAL-class multiply/divide and HI/LO move
    /// instructions (see `spec_execute_special`).
    #[verifier::rlimit(100)]
    fn execute_special_muldiv(&mut self, instr: Instruction, op: SpecialOpcode) -> (r: Result<
        (),
        Fault,
    >)
        requires
            old(self).wf(),
            crate::opcode::spec_decode_special(instr.0 & 0x3f) == Some(op),
            op is Multu || op is Mult || op is Dmult || op is Dmultu || op is Div || op is Divu || op is Ddiv || op is Ddivu || op is Mfhi || op is Mthi || op is Mflo || op is Mtlo,
        ensures
            final(self).wf(),
            match r {
                Ok(()) => spec_execute_special(old(self)@, instr) == Ok::<CpuState, Fault>(
                    final(self)@,
                ),
                Err(f) => spec_execute_special(old(self)@, instr) == Err::<CpuState, Fault>(f)
                    && *final(self) == *old(self),
            },
    {
        match op {
            SpecialOpcode::Multu => {
                let rs = self.read_reg_gpr(instr.rs()) as u32;
                let rt = self.read_reg_gpr(instr.rt()) as u32;

                proof {
                    lemma_u32_mul_fits(rs as u64, rt as u64);
                }
                let res = (rs as u64) * (rt as u64);

                self.reg_lo = ((res as i32) as u64);
                self.reg_hi = (((res >> 32) as i32) as u64);
            },

            SpecialOpcode::Mult => {
                let rs = self.read_reg_gpr(instr.rs()) as i32;
                let rt = self.read_reg_gpr(instr.rt()) as i32;

                proof {
                    lemma_i32_mul_fits(rs as i64, rt as i64);
                }
                let res = (rs as i64) * (rt as i64);

                self.reg_lo = ((res as i32) as u64);
                self.reg_hi = (((res >> 32) as i32) as u64);
            },

            SpecialOpcode::Dmult => {
                let rs = (self.read_reg_gpr(instr.rs()) as i64) as i128;
                let rt = (self.read_reg_gpr(instr.rt()) as i64) as i128;
                proof {
                    lemma_i64_mul_fits(rs, rt);
                }
                let mul = rs * rt;

                self.reg_lo = mul as u64;
                self.reg_hi = (mul >> 64) as u64;
            },

            SpecialOpcode::Dmultu => {
                let rs = self.read_reg_gpr(instr.rs()) as u128;
                let rt = self.read_reg_gpr(instr.rt()) as u128;
                proof {
                    lemma_u64_mul_fits(rs, rt);
                }
                let mul = rs * rt;

                self.reg_lo = mul as u64;
                self.reg_hi = (mul >> 64) as u64;
            },

            SpecialOpcode::Div => {
                let rs = self.read_reg_gpr(instr.rs()) as i32;
                let rt = self.read_reg_gpr(instr.rt()) as i32;

                if rt == 0 {
                    return Err(Fault::DivisionByZero(instr.0));
                }
                if rs == i32::MIN && rt == -1 {
                    return Err(Fault::DivideOverflow(instr.0));
                }
                self.reg_lo = Cpu::div_i32(rs, rt) as u64;
                self.reg_hi = Cpu::rem_i32(rs, rt) as u64;
            },

            SpecialOpcode::Divu => {
                let rs = self.read_reg_gpr(instr.rs()) as u32;
                let rt = self.read_reg_gpr(instr.rt()) as u32;

                if rt == 0 {
                    return Err(Fault::DivisionByZero(instr.0));
                }
                self.reg_lo = (rs / rt) as u64;
                self.reg_hi = (rs % rt) as u64;
            },

            SpecialOpcode::Ddiv => {
                let rs = self.read_reg_gpr(instr.rs()) as i64;
                let rt = self.read_reg_gpr(instr.rt()) as i64;

                if rt == 0 {
                    return Err(Fault::DivisionByZero(instr.0));
                }
                if rs == i64::MIN && rt == -1 {
                    return Err(Fault::DivideOverflow(instr.0));
                }
                self.reg_lo = Cpu::div_i64(rs, rt) as u64;
                self.reg_hi = Cpu::rem_i64(rs, rt) as u64;
            },

            SpecialOpcode::Ddivu => {
                let rs = self.read_reg_gpr(instr.rs());
                let rt = self.read_reg_gpr(instr.rt());

                if rt == 0 {
                    return Err(Fault::DivisionByZero(instr.0));
                }
                self.reg_lo = rs / rt;
                self.reg_hi = rs % rt;
            },

            SpecialOpcode::Mfhi => {
                let value = self.reg_hi;
                self.write_reg_gpr(instr.rd() as usize, value);
            },

            SpecialOpcode::Mthi => {
                let value = self.read_reg_gpr(instr.rs());
                self.reg_hi = value;
            },

            SpecialOpcode::Mflo => {
                let value = self.reg_lo;
                self.write_reg_gpr(instr.rd() as usize, value);
            },

            SpecialOpcode::Mtlo => {
                let value = self.read_reg_gpr(instr.rs());
                self.reg_lo = value;
            },

            _ => {
                proof {
                    assert(false);
                }
            },
        }
        Ok(())
    }

    /// Executes a SPECIAL-class instruction (see `spec_execute_special`).
    fn execute_special(&mut self, instr: Instruction) -> (r: Result<(), Fault>)
        requires
            old(self).wf(),
        ensures
            final(self).wf(),
            match r {
                Ok(()) => spec_execute_special(old(self)@, instr) == Ok::<CpuState, Fault>(
                    final(self)@,
                ),
                Err(f) => spec_execute_special(old(self)@, instr) == Err::<CpuState, Fault>(f)
                    && *final(self) == *old(self),
            },
    {
        let special = match instr.special_op() {
            Some(op) => op,
            None => {
                return Err(Fault::UnrecognizedInstruction(instr.0));
            },
        };
        match special {
            SpecialOpcode::Sll | SpecialOpcode::Srl | SpecialOpcode::Sra | SpecialOpcode::Sllv
                | SpecialOpcode::Srlv | SpecialOpcode::Srav | SpecialOpcode::Dsllv
                | SpecialOpcode::Dsrlv | SpecialOpcode::Dsrav | SpecialOpcode::Dsll
                | SpecialOpcode::Dsrl | SpecialOpcode::Dsra | SpecialOpcode::Dsll32
                | SpecialOpcode::Dsrl32 | SpecialOpcode::Dsra32 => {
                self.execute_special_shift(instr, special);
            },
            SpecialOpcode::Add | SpecialOpcode::Addu | SpecialOpcode::Sub | SpecialOpcode::Subu
                | SpecialOpcode::And | SpecialOpcode::Or | SpecialOpcode::Xor
                | SpecialOpcode::Nor | SpecialOpcode::Slt | SpecialOpcode::Sltu
                | SpecialOpcode::Dadd | SpecialOpcode::Daddu | SpecialOpcode::Dsub
                | SpecialOpcode::Dsubu => {
                self.execute_special_alu(instr, special);
            },
            SpecialOpcode::Multu | SpecialOpcode::Mult | SpecialOpcode::Dmult
                | SpecialOpcode::Dmultu | SpecialOpcode::Div | SpecialOpcode::Divu
                | SpecialOpcode::Ddiv | SpecialOpcode::Ddivu | SpecialOpcode::Mfhi
                | SpecialOpcode::Mthi | SpecialOpcode::Mflo | SpecialOpcode::Mtlo => {
                return self.execute_special_muldiv(instr, special);
            },
            SpecialOpcode::Jr => {
                let delay_slot_pc = self.reg_pc;

                // Update the program counter before the delay slot
                // executes.
                self.reg_pc = self.read_reg_gpr(instr.rs());

                self.delay_slot_pc = Some(delay_slot_pc);
            },

            SpecialOpcode::Jalr => {
                let delay_slot_pc = self.reg_pc;

                let link_address = delay_slot_pc.wrapping_add(4);
                self.write_reg_gpr(instr.rd() as usize, link_address);

                // Update the program counter before the delay slot executes.
                self.reg_pc = self.read_reg_gpr(instr.rs());

                self.delay_slot_pc = Some(delay_slot_pc);
            },

            SpecialOpcode::Sync => {
                // A NOP on this machine.
            },

        }
        Ok(())
    }

    /// Executes a REGIMM-class instruction (see `spec_execute_reg_imm`).
    fn execute_reg_imm(&mut self, instr: Instruction) -> (r: Result<(), Fault>)
        requires
            old(self).wf(),
        ensures
            final(self).wf(),
            match r {
                Ok(()) => spec_execute_reg_imm(old(self)@, instr) == Ok::<CpuState, Fault>(
                    final(self)@,
                ),
                Err(f) => spec_execute_reg_imm(old(self)@, instr) == Err::<CpuState, Fault>(f)
                    && *final(self) == *old(self),
            },
    {
        let reg_imm = match instr.reg_imm_op() {
            Some(op) => op,
            None => {
                return Err(Fault::UnrecognizedInstruction(instr.0));
            },
        };
        match reg_imm {
            RegImmOpcode::Bltz => {
                let rs = self.read_reg_gpr(instr.rs());
                self.branch(instr, WriteLink::No, (rs as i64) < 0);
            },
            RegImmOpcode::Bgez => {
                let rs = self.read_reg_gpr(instr.rs());
                self.branch(instr, WriteLink::No, (rs as i64) >= 0);
            },
            RegImmOpcode::Bgezl => {
                let rs = self.read_reg_gpr(instr.rs());
                self.branch_likely(instr, (rs as i64) >= 0);
            },
            RegImmOpcode::Bgezal => {
                let rs = self.read_reg_gpr(instr.rs());
                self.branch(instr, WriteLink::Yes, (rs as i64) >= 0);
            },
        }
Ok(())
    }

    /// Executes a COP0-class instruction (see `spec_execute_cop0`).
    fn execute_cop0(&mut self, instr: Instruction) -> (r: Result<(), Fault>)
        requires
            old(self).wf(),
        ensures
            final(self).wf(),
            match r {
                Ok(()) => spec_execute_cop0(old(self)@, instr) == Ok::<CpuState, Fault>(
                    final(self)@,
                ),
                Err(f) => spec_execute_cop0(old(self)@, instr) == Err::<CpuState, Fault>(f)
                    && *final(self) == *old(self),
            },
    {
        let cop0_op = match instr.cop0_op() {
            Some(op) => op,
            None => {
                return Err(Fault::UnrecognizedInstruction(instr.0));
            },
        };
        match cop0_op {
            Cop0Opcode::Mfc0 => {
                let data = match self.cp0.read_reg(instr.rd()) {
                    Ok(d) => d,
                    Err(f) => {
                        return Err(f);
                    },
                };
                self.write_reg_gpr(instr.rt(), data);
            },
            Cop0Opcode::Mtc0 => {
                let data = self.read_reg_gpr(instr.rt());
                match self.cp0.write_reg(instr.rd(), data) {
                    Ok(()) => {},
                    Err(f) => {
                        return Err(f);
                    },
                }
            },
            Cop0Opcode::Co => {
                let co_op = match instr.cop0_co_op() {
                    Some(op) => op,
                    None => {
                        return Err(Fault::UnrecognizedInstruction(instr.0));
                    },
                };
                match co_op {
                    Cop0CoOpcode::Tlbwi => self.cp0.store_tlb_entry(),
                    Cop0CoOpcode::Eret => {
                        let epc = match self.cp0.read_reg(14) {
                            Ok(d) => d,
                            Err(f) => {
                                return Err(f);
                            },
                        };
                        self.reg_pc = epc;
                    },
                }
            },
        }
Ok(())
    }

    /// Executes a COP1-class instruction: branches on the condition flag run
    /// here; arithmetic on recognized format/function pairs is returned for
    /// host floating-point evaluation (see `spec_execute_cop1`).
    fn execute_cop1(&mut self, instr: Instruction) -> (r: Result<Option<Instruction>, Fault>)
        requires
            old(self).wf(),
        ensures
            final(self).wf(),
            r matches Ok(Some(i)) ==> i == instr,
            match r {
                Ok(h) => spec_execute_cop1(old(self)@, instr) == Ok::<
                    (CpuState, Option<Instruction>),
                    Fault,
                >((final(self)@, h)),
                Err(f) => spec_execute_cop1(old(self)@, instr) == Err::<
                    (CpuState, Option<Instruction>),
                    Fault,
                >(f) && *final(self) == *old(self),
            },
    {
        if instr.fmt() == 0b01000 {
            // Branch on the CP1 condition flag.
            if instr.ft() == 0b00010 {
                let taken = (self.reg_fcr31 & 0x0040_0000) == 0;
                self.branch_likely(instr, taken);
            } else if instr.ft() == 0b00000 {
                let taken = (self.reg_fcr31 & 0x0040_0000) == 0;
                self.branch(instr, WriteLink::No, taken);
            }
            Ok(None)
        } else {
            // CP1 arithmetic needs host floating point: hand the
            // recognized encodings to the caller.
            let cop1_op = match instr.cop1_op() {
                Some(op) => op,
                None => {
                    return Err(Fault::UnrecognizedInstruction(instr.0));
                },
            };
            let fmt = instr.fmt();
            let supported = match cop1_op {
                Cop1Opcode::Add | Cop1Opcode::Sub | Cop1Opcode::Mul | Cop1Opcode::Div
                    | Cop1Opcode::Sqrt | Cop1Opcode::Abs | Cop1Opcode::Mov
                    | Cop1Opcode::Neg | Cop1Opcode::RoundL | Cop1Opcode::TruncL
                    | Cop1Opcode::CeilL | Cop1Opcode::FloorL | Cop1Opcode::RoundW
                    | Cop1Opcode::TruncW | Cop1Opcode::CeilW | Cop1Opcode::FloorW
                    | Cop1Opcode::CvtW | Cop1Opcode::CvtL | Cop1Opcode::Ceq
                    | Cop1Opcode::Cle => fmt == 16 || fmt == 17,
                Cop1Opcode::CvtS => fmt == 17 || fmt == 20 || fmt == 21,
                Cop1Opcode::CvtD => fmt == 16 || fmt == 20 || fmt == 21,
                _ => false,
            };
            if supported {
                Ok(Some(instr))
            } else {
                Err(Fault::UnrecognizedInstruction(instr.0))
            }
        }

    }

    /// Executes a jump or branch instruction (see `spec_execute`): the
    /// delay-slot latch and program counter move, and linking jumps write
    /// GPR 31.
    #[verifier::rlimit(100)]
    fn execute_branch(&mut self, instr: Instruction, op: Opcode)
        requires
            old(self).wf(),
            crate::opcode::spec_decode_opcode((instr.0 >> 26) & 0x3f) == Some(op),
            op is J || op is Jal || op is Blez || op is Beq || op is Bne || op is Bgtz || op is Beql || op is Bnel || op is Blezl,
        ensures
            final(self).wf(),
            forall|s: IcState| #[trigger] spec_execute(old(self)@, s, instr) == Ok::<
                (CpuState, IcState, Option<Instruction>),
                Fault,
            >((final(self)@, s, Option::None)),
    {
        match op {
            Opcode::J => {
                let delay_slot_pc = self.reg_pc;
                let jump_to = (delay_slot_pc & 0xffff_ffff_f000_0000) | ((instr.target() as u64)
                    << 2);
                self.reg_pc = jump_to;
                self.delay_slot_pc = Some(delay_slot_pc);
            },

            Opcode::Jal => {
                let delay_slot_pc = self.reg_pc;
                self.write_reg_gpr(31, delay_slot_pc.wrapping_add(4));
                let jump_to = (delay_slot_pc & 0xffff_ffff_f000_0000) | ((instr.target() as u64)
                    << 2);
                self.reg_pc = jump_to;
                self.delay_slot_pc = Some(delay_slot_pc);
            },

            Opcode::Blez => {
                let rs = self.read_reg_gpr(instr.rs());
                self.branch(instr, WriteLink::No, (rs as i64) <= 0);
            },

            Opcode::Beq => {
                let rs = self.read_reg_gpr(instr.rs());
                let rt = self.read_reg_gpr(instr.rt());
                self.branch(instr, WriteLink::No, rs == rt);
            },

            Opcode::Bne => {
                let rs = self.read_reg_gpr(instr.rs());
                let rt = self.read_reg_gpr(instr.rt());
                self.branch(instr, WriteLink::No, rs != rt);
            },

            Opcode::Bgtz => {
                let rs = self.read_reg_gpr(instr.rs());
                self.branch(instr, WriteLink::No, (rs as i64) > 0);
            },

            Opcode::Beql => {
                let rs = self.read_reg_gpr(instr.rs());
                let rt = self.read_reg_gpr(instr.rt());
                self.branch_likely(instr, rs == rt);
            },

            Opcode::Bnel => {
                let rs = self.read_reg_gpr(instr.rs());
                let rt = self.read_reg_gpr(instr.rt());
                self.branch_likely(instr, rs != rt);
            },

            Opcode::Blezl => {
                let rs = self.read_reg_gpr(instr.rs());
                self.branch_likely(instr, (rs as i64) <= 0);
            },

            _ => {
                proof {
                    assert(false);
                }
            },
        }
    }

    /// Executes an immediate arithmetic or logic instruction (see
    /// `spec_execute`).
    #[verifier::rlimit(100)]
    fn execute_imm(&mut self, instr: Instruction, op: Opcode)
        requires
            old(self).wf(),
            crate::opcode::spec_decode_opcode((instr.0 >> 26) & 0x3f) == Some(op),
            op is Addi || op is Addiu || op is Slti || op is Sltiu || op is Andi || op is Ori || op is Xori || op is Lui || op is Daddi || op is Daddiu,
        ensures
            final(self).wf(),
            forall|s: IcState| #[trigger] spec_execute(old(self)@, s, instr) == Ok::<
                (CpuState, IcState, Option<Instruction>),
                Fault,
            >((final(self)@, s, Option::None)),
    {
        match op {
            Opcode::Addi => {
                // The overflow exception is not modelled: the sum wraps, as
                // for ADDIU.
                let rs = self.read_reg_gpr(instr.rs());
                self.imm_instr(
                    instr,
                    SignExtendResult::Yes,
                    rs.wrapping_add(instr.imm_sign_extended()),
                );
            },

            Opcode::Addiu => {
                let rs = self.read_reg_gpr(instr.rs());
                self.imm_instr(
                    instr,
                    SignExtendResult::Yes,
                    rs.wrapping_add(instr.imm_sign_extended()),
                );
            },

            Opcode::Slti => {
                let rs = self.read_reg_gpr(instr.rs());
                let imm_sign_extended = instr.imm_sign_extended();
                self.imm_instr(
                    instr,
                    SignExtendResult::No,
                    if (rs as i64) < (imm_sign_extended as i64) {
                        1
                    } else {
                        0
                    },
                );
            },

            Opcode::Sltiu => {
                let rs = self.read_reg_gpr(instr.rs());
                let imm_sign_extended = instr.imm_sign_extended();
                self.imm_instr(
                    instr,
                    SignExtendResult::No,
                    if rs < imm_sign_extended {
                        1
                    } else {
                        0
                    },
                );
            },

            Opcode::Andi => {
                let rs = self.read_reg_gpr(instr.rs());
                self.imm_instr(instr, SignExtendResult::No, rs & (instr.imm() as u64));
            },

            Opcode::Ori => {
                let rs = self.read_reg_gpr(instr.rs());
                self.imm_instr(instr, SignExtendResult::No, rs | (instr.imm() as u64));
            },

            Opcode::Xori => {
                let rs = self.read_reg_gpr(instr.rs());
                self.imm_instr(instr, SignExtendResult::No, rs ^ (instr.imm() as u64));
            },

            Opcode::Lui => {
                self.imm_instr(instr, SignExtendResult::Yes, (instr.imm() as u64) << 16);
            },

            Opcode::Daddi => {
                // The overflow exception is not modelled.
                let rs = self.read_reg_gpr(instr.rs());
                self.imm_instr(
                    instr,
                    SignExtendResult::No,
                    rs.wrapping_add(instr.imm_sign_extended()),
                );
            },

            Opcode::Daddiu => {
                let rs = self.read_reg_gpr(instr.rs());
                self.imm_instr(
                    instr,
                    SignExtendResult::No,
                    rs.wrapping_add(instr.imm_sign_extended()),
                );
            },

            _ => {
                proof {
                    assert(false);
                }
            },
        }
    }

    /// Executes a load instruction (see `spec_execute`): the bus is read and
    /// the destination register written; bus faults are fatal.
    #[verifier::rlimit(100)]
    fn execute_load(
        &mut self,
        interconnect: &mut Interconnect,
        instr: Instruction,
        op: Opcode,
    ) -> (r: Result<(), Fault>)
        requires
            old(self).wf(),
            ic_wf(old(interconnect)@),
            crate::opcode::spec_decode_opcode((instr.0 >> 26) & 0x3f) == Some(op),
            op is Lb || op is Lh || op is Lwl || op is Lw || op is Lbu || op is Lhu || op is Lwr || op is Lwu || op is Lwc1 || op is Ldc1 || op is Ld,
        ensures
            final(self).wf(),
            ic_wf(final(interconnect)@),
            match r {
                Ok(()) => spec_execute(old(self)@, old(interconnect)@, instr) == Ok::<
                    (CpuState, IcState, Option<Instruction>),
                    Fault,
                >((final(self)@, final(interconnect)@, Option::None)),
                Err(f) => spec_execute(old(self)@, old(interconnect)@, instr) == Err::<
                    (CpuState, IcState, Option<Instruction>),
                    Fault,
                >(f),
            },
    {
        match op {
            Opcode::Lb => {
                let virt_addr = self.resolve_offset(instr);
                let byte = match self.read_byte(interconnect, virt_addr) {
                    Ok(b) => b,
                    Err(f) => {
                        return Err(f);
                    },
                };
                self.write_reg_gpr(instr.rt(), (byte as i8) as u64);
                Ok(())
            },

            Opcode::Lh => {
                let virt_addr = self.resolve_offset(instr);
                let halfword = match self.read_halfword(interconnect, virt_addr) {
                    Ok(h) => h,
                    Err(f) => {
                        return Err(f);
                    },
                };
                self.write_reg_gpr(instr.rt(), (halfword as i16) as u64);
                Ok(())
            },

            Opcode::Lwl => {
                let virt_addr = self.resolve_offset(instr);
                let aligned_addr = virt_addr & 0xffff_ffff_ffff_fffc;
                proof {
                    let v = virt_addr;
                    assert(v & 0xffff_ffff_ffff_fffcu64 <= v && v - (v
                        & 0xffff_ffff_ffff_fffcu64) < 4) by (bit_vector);
                }
                let mem = match self.read_word(interconnect, aligned_addr) {
                    Ok(w) => w as u64,
                    Err(f) => {
                        return Err(f);
                    },
                };
                let reg = self.read_reg_gpr(instr.rt());

                let shift = virt_addr - aligned_addr;

                let value = if shift == 0 {
                    mem
                } else if shift == 1 {
                    (mem << 8) | (reg & 0xff)
                } else if shift == 2 {
                    (mem << 16) | (reg & 0xffff)
                } else {
                    (mem << 24) | (reg & 0xff_ffff)
                };

                self.write_reg_gpr(instr.rt(), (value as i32) as u64);
                Ok(())
            },

            Opcode::Lw => {
                let virt_addr = self.resolve_offset(instr);
                let word = match self.read_word(interconnect, virt_addr) {
                    Ok(w) => w,
                    Err(f) => {
                        return Err(f);
                    },
                };
                self.write_reg_gpr(instr.rt(), (word as i32) as u64);
                Ok(())
            },

            Opcode::Lbu => {
                let virt_addr = self.resolve_offset(instr);
                let byte = match self.read_byte(interconnect, virt_addr) {
                    Ok(b) => b,
                    Err(f) => {
                        return Err(f);
                    },
                };
                self.write_reg_gpr(instr.rt(), byte as u64);
                Ok(())
            },

            Opcode::Lhu => {
                let virt_addr = self.resolve_offset(instr);
                let halfword = match self.read_halfword(interconnect, virt_addr) {
                    Ok(h) => h,
                    Err(f) => {
                        return Err(f);
                    },
                };
                self.write_reg_gpr(instr.rt(), halfword as u64);
                Ok(())
            },

            Opcode::Lwr => {
                let virt_addr = self.resolve_offset(instr);
                let aligned_addr = virt_addr & 0xffff_ffff_ffff_fffc;
                proof {
                    let v = virt_addr;
                    assert(v & 0xffff_ffff_ffff_fffcu64 <= v && v - (v
                        & 0xffff_ffff_ffff_fffcu64) < 4) by (bit_vector);
                }
                let mem = match self.read_word(interconnect, aligned_addr) {
                    Ok(w) => w as u64,
                    Err(f) => {
                        return Err(f);
                    },
                };
                let reg = self.read_reg_gpr(instr.rt());

                let shift = virt_addr - aligned_addr;
                let value = if shift == 0 {
                    ((mem & 0xff00_0000) >> 24) | (reg & 0xffff_ffff_ffff_ff00)
                } else if shift == 1 {
                    ((mem & 0xffff_0000) >> 16) | (reg & 0xffff_ffff_ffff_0000)
                } else if shift == 2 {
                    ((mem & 0xffff_ff00) >> 8) | (reg & 0xffff_ffff_ff00_0000)
                } else {
                    (mem & 0xffff_ffff) | (reg & 0xffff_ffff_0000_0000)
                };

                self.write_reg_gpr(instr.rt(), value);
                Ok(())
            },

            Opcode::Lwu => {
                let virt_addr = self.resolve_offset(instr);
                let word = match self.read_word(interconnect, virt_addr) {
                    Ok(w) => w,
                    Err(f) => {
                        return Err(f);
                    },
                };
                self.write_reg_gpr(instr.rt(), word as u64);
                Ok(())
            },

            Opcode::Lwc1 => {
                let virt_addr = self.resolve_offset(instr);
                let mem = match self.read_word(interconnect, virt_addr) {
                    Ok(w) => w,
                    Err(f) => {
                        return Err(f);
                    },
                };
                let reg = self.read_reg_fpr(instr.rt());
                let reg = (reg & 0xffff_ffff_0000_0000) | (mem as u64);

                self.write_reg_fpr(instr.rt(), reg);
                Ok(())
            },

            Opcode::Ldc1 => {
                let virt_addr = self.resolve_offset(instr);
                let mem = match self.read_doubleword(interconnect, virt_addr) {
                    Ok(d) => d,
                    Err(f) => {
                        return Err(f);
                    },
                };
                self.write_reg_fpr(instr.ft(), mem);
                Ok(())
            },

            Opcode::Ld => {
                let virt_addr = self.resolve_offset(instr);
                let mem = match self.read_doubleword(interconnect, virt_addr) {
                    Ok(d) => d,
                    Err(f) => {
                        return Err(f);
                    },
                };
                self.write_reg_gpr(instr.rt(), mem);
                Ok(())
            },

            _ => {
                proof {
                    assert(false);
                }
                Err(Fault::UnrecognizedInstruction(instr.0))
            },
        }
    }

    /// Executes a word-, halfword-, byte- or doubleword-store instruction
    /// (or CACHE, a no-op) (see `spec_execute`): bus faults are fatal, and a
    /// fault mid-sequence keeps the bytes already stored.
    #[verifier::rlimit(100)]
    fn execute_store(
        &mut self,
        interconnect: &mut Interconnect,
        instr: Instruction,
        op: Opcode,
    ) -> (r: Result<(), Fault>)
        requires
            old(self).wf(),
            ic_wf(old(interconnect)@),
            crate::opcode::spec_decode_opcode((instr.0 >> 26) & 0x3f) == Some(op),
            op is Sb || op is Sh || op is Sw || op is Cache || op is Swc1 || op is Sdc1 || op is Sd,
        ensures
            final(self).wf(),
            ic_wf(final(interconnect)@),
            match r {
                Ok(()) => spec_execute(old(self)@, old(interconnect)@, instr) == Ok::<
                    (CpuState, IcState, Option<Instruction>),
                    Fault,
                >((final(self)@, final(interconnect)@, Option::None)),
                Err(f) => spec_execute(old(self)@, old(interconnect)@, instr) == Err::<
                    (CpuState, IcState, Option<Instruction>),
                    Fault,
                >(f),
            },
    {
        match op {
            Opcode::Sb => {
                let byte = (self.read_reg_gpr(instr.rt()) & 0xff) as u8;
                let virt_addr = self.resolve_offset(instr);
                match self.write_byte(interconnect, virt_addr, byte) {
                    Ok(()) => Ok(()),
                    Err(f) => Err(f),
                }
            },

            Opcode::Sh => {
                let virt_addr = self.resolve_offset(instr);
                let halfword = (self.read_reg_gpr(instr.rt()) & 0xffff) as u16;
                match self.write_byte(interconnect, virt_addr, (halfword >> 8) as u8) {
                    Ok(()) => {},
                    Err(f) => {
                        return Err(f);
                    },
                }
                match self.write_byte(
                    interconnect,
                    virt_addr.wrapping_add(1),
                    (halfword & 0xff) as u8,
                ) {
                    Ok(()) => Ok(()),
                    Err(f) => Err(f),
                }
            },

            Opcode::Sw => {
                let virt_addr = self.resolve_offset(instr);
                let word = self.read_reg_gpr(instr.rt()) as u32;
                match self.write_word(interconnect, virt_addr, word) {
                    Ok(()) => Ok(()),
                    Err(f) => Err(f),
                }
            },

            Opcode::Cache => {
                // Cache maintenance is not modelled; the operands are
                // evaluated and discarded.
                let _virt_addr = self.resolve_offset(instr);
                Ok(())
            },

            Opcode::Swc1 => {
                let virt_addr = self.resolve_offset(instr);
                let word = self.read_reg_fpr(instr.rt());
                match self.write_word(interconnect, virt_addr, word as u32) {
                    Ok(()) => Ok(()),
                    Err(f) => Err(f),
                }
            },

            Opcode::Sdc1 => {
                let virt_addr = self.resolve_offset(instr);
                let mem = self.read_reg_fpr(instr.rt());
                match self.write_doubleword(interconnect, virt_addr, mem) {
                    Ok(()) => Ok(()),
                    Err(f) => Err(f),
                }
            },

            Opcode::Sd => {
                let virt_addr = self.resolve_offset(instr);
                let mem = self.read_reg_gpr(instr.rt());
                match self.write_doubleword(interconnect, virt_addr, mem) {
                    Ok(()) => Ok(()),
                    Err(f) => Err(f),
                }
            },

            _ => {
                proof {
                    assert(false);
                }
                Err(Fault::UnrecognizedInstruction(instr.0))
            },
        }
    }

    /// Executes an unaligned store (SWL/SWR) (see `spec_execute`, `spec_swl`
    /// and `spec_swr`): successively advancing byte stores, so a fault
    /// mid-sequence keeps the bytes already stored.
    #[verifier::rlimit(100)]
    #[verifier::loop_isolation(false)]
    fn execute_store_unaligned(
        &mut self,
        interconnect: &mut Interconnect,
        instr: Instruction,
        op: Opcode,
    ) -> (r: Result<(), Fault>)
        requires
            old(self).wf(),
            ic_wf(old(interconnect)@),
            crate::opcode::spec_decode_opcode((instr.0 >> 26) & 0x3f) == Some(op),
            op is Swl || op is Swr,
        ensures
            final(self).wf(),
            ic_wf(final(interconnect)@),
            match r {
                Ok(()) => spec_execute(old(self)@, old(interconnect)@, instr) == Ok::<
                    (CpuState, IcState, Option<Instruction>),
                    Fault,
                >((final(self)@, final(interconnect)@, Option::None)),
                Err(f) => spec_execute(old(self)@, old(interconnect)@, instr) == Err::<
                    (CpuState, IcState, Option<Instruction>),
                    Fault,
                >(f),
            },
    {
        match op {
            Opcode::Swl => {
                let virt_addr = self.resolve_offset(instr);
                let word = self.read_reg_gpr(instr.rt());
                let base = virt_addr & 0b11;
                proof {
                    let v = virt_addr;
                    assert(v & 0b11u64 < 4) by (bit_vector);
                }
                let mut i: u64 = base;
                while i < 4
                    invariant
                        self.wf(),
                        ic_wf(interconnect@),
                        base <= i <= 4,
                        base < 4,
                        spec_swl(old(interconnect)@, virt_addr, word, base, base) == spec_swl(
                            interconnect@,
                            virt_addr,
                            word,
                            base,
                            i,
                        ),
                    decreases 4 - i,
                {
                    let value = ((word >> (((3 - (i - base)) * 8) as u32)) & 0xff) as u8;
                    match self.write_byte(interconnect, virt_addr.wrapping_add(i), value) {
                        Ok(()) => {},
                        Err(f) => {
                            return Err(f);
                        },
                    }
                    i = i + 1;
                }
                Ok(())
            },

            Opcode::Swr => {
                let virt_addr = self.resolve_offset(instr);
                let word = self.read_reg_gpr(instr.rt());
                proof {
                    let v = virt_addr;
                    assert(v & 0b11u64 < 4) by (bit_vector);
                }
                let to = (virt_addr & 0b11) + 1;
                let mut i: u64 = 0;
                while i < to
                    invariant
                        self.wf(),
                        ic_wf(interconnect@),
                        i <= to,
                        to <= 4,
                        spec_swr(old(interconnect)@, virt_addr, word, to, 0) == spec_swr(
                            interconnect@,
                            virt_addr,
                            word,
                            to,
                            i,
                        ),
                    decreases to - i,
                {
                    let value = ((word >> (((to - i - 1) * 8) as u32)) & 0xff) as u8;
                    match self.write_byte(interconnect, virt_addr.wrapping_add(i), value) {
                        Ok(()) => {},
                        Err(f) => {
                            return Err(f);
                        },
                    }
                    i = i + 1;
                }
                Ok(())
            },

            _ => {
                proof {
                    assert(false);
                }
                Err(Fault::UnrecognizedInstruction(instr.0))
            },
        }
    }

    /// Decodes and executes one instruction word (see `step` for the
    /// delay-slot discipline around it). Unrecognized encodings, memory
    /// faults, and divisions the hardware leaves undefined (a zero divisor,
    /// or the overflowing MIN / -1) are fatal. A CP1 arithmetic instruction
    /// is returned as `Ok(Some(..))` for host floating-point evaluation
    /// instead of being executed here; everything else completes as
    /// `Ok(None)`.
    #[verifier::rlimit(100)]
    pub fn execute_instruction(&mut self, interconnect: &mut Interconnect, instr: Instruction) -> (
        r: Result<Option<Instruction>, Fault>)
        requires
            old(self).wf(),
            ic_wf(old(interconnect)@),
        ensures
            final(self).wf(),
            ic_wf(final(interconnect)@),
            r matches Ok(Some(i)) ==> i == instr && crate::opcode::spec_decode_opcode(
                (instr.0 >> 26) & 0x3f,
            ) == Some(Opcode::Cop1),
            match r {
                Ok(h) => spec_execute(old(self)@, old(interconnect)@, instr) == Ok::<
                    (CpuState, IcState, Option<Instruction>),
                    Fault,
                >((final(self)@, final(interconnect)@, h)),
                Err(f) => spec_execute(old(self)@, old(interconnect)@, instr) == Err::<
                    (CpuState, IcState, Option<Instruction>),
                    Fault,
                >(f),
            },
    {
        let opcode = match instr.opcode() {
            Some(op) => op,
            None => {
                return Err(Fault::UnrecognizedInstruction(instr.0));
            },
        };
        match opcode {
            Opcode::Special => match self.execute_special(instr) {
                Ok(()) => Ok(None),
                Err(f) => Err(f),
            },

            Opcode::RegImm => match self.execute_reg_imm(instr) {
                Ok(()) => Ok(None),
                Err(f) => Err(f),
            },

            Opcode::Cop0 => match self.execute_cop0(instr) {
                Ok(()) => Ok(None),
                Err(f) => Err(f),
            },

            Opcode::Cop1 => self.execute_cop1(instr),

            Opcode::J | Opcode::Jal | Opcode::Blez | Opcode::Beq | Opcode::Bne | Opcode::Bgtz
                | Opcode::Beql | Opcode::Bnel | Opcode::Blezl => {
                self.execute_branch(instr, opcode);
                Ok(None)
            },

            Opcode::Addi | Opcode::Addiu | Opcode::Slti | Opcode::Sltiu | Opcode::Andi
                | Opcode::Ori | Opcode::Xori | Opcode::Lui | Opcode::Daddi | Opcode::Daddiu => {
                self.execute_imm(instr, opcode);
                Ok(None)
            },

            Opcode::Lb | Opcode::Lh | Opcode::Lwl | Opcode::Lw | Opcode::Lbu | Opcode::Lhu
                | Opcode::Lwr | Opcode::Lwu | Opcode::Lwc1 | Opcode::Ldc1 | Opcode::Ld => match self
                .execute_load(interconnect, instr, opcode) {
                Ok(()) => Ok(None),
                Err(f) => Err(f),
            },

            Opcode::Sb | Opcode::Sh | Opcode::Sw | Opcode::Cache | Opcode::Swc1 | Opcode::Sdc1
                | Opcode::Sd => match self.execute_store(interconnect, instr, opcode) {
                Ok(()) => Ok(None),
                Err(f) => Err(f),
            },

            Opcode::Swl | Opcode::Swr => match self.execute_store_unaligned(
                interconnect,
                instr,
                opcode,
            ) {
                Ok(()) => Ok(None),
                Err(f) => Err(f),
            },
        }
    }

    /// Executes one instruction: when the delay-slot latch is set, the
    /// instruction at that address runs with the latch consumed (the branch
    /// target already sits in the program counter); otherwise the instruction
    /// at the program counter runs after the counter advances past it.
    ///
    /// `Ok(Some(i))` hands a CP1 arithmetic instruction to the caller for
    /// host floating-point evaluation; everything else completes in here.
    pub fn step(&mut self, interconnect: &mut Interconnect) -> (r: Result<
        Option<Instruction>,
        Fault,
    >)
        requires
            old(self).wf(),
            ic_wf(old(interconnect)@),
        ensures
            final(self).wf(),
            ic_wf(final(interconnect)@),
            final(self).reg_gpr@[0] == 0,
            match r {
                Ok(h) => spec_cpu_step(old(self)@, old(interconnect)@) == Ok::<
                    (CpuState, IcState, Option<Instruction>),
                    Fault,
                >((final(self)@, final(interconnect)@, h)),
                Err(f) => spec_cpu_step(old(self)@, old(interconnect)@) == Err::<
                    (CpuState, IcState, Option<Instruction>),
                    Fault,
                >(f),
            },
            r matches Ok(Some(i)) ==> crate::opcode::spec_decode_opcode((i.0 >> 26) & 0x3f)
                == Some(Opcode::Cop1),
    {
        if let Some(pc) = self.delay_slot_pc {
            let instr = match self.read_instruction(interconnect, pc) {
                Ok(i) => i,
                Err(f) => {
                    return Err(f);
                },
            };
            self.delay_slot_pc = None;

            self.execute_instruction(interconnect, instr)
        } else {
            let instr = match self.read_instruction(interconnect, self.reg_pc) {
                Ok(i) => i,
                Err(f) => {
                    return Err(f);
                },
            };

            self.reg_pc = self.reg_pc.wrapping_add(4);
            self.execute_instruction(interconnect, instr)
        }
    }
}

/// A write to GPR 0 leaves GPR 0 reading as zero: the zero register is
/// hard-wired on both sides.
pub proof fn lemma_gpr_zero_write_read(gprs: Seq<u64>, value: u64)
    requires
        gprs.len() == 32,
        gprs[0] == 0,
    ensures
        spec_read_gpr(spec_write_gpr(gprs, 0, value), 0) == 0,
        forall|i: int| 0 <= i < 32 ==> spec_read_gpr(#[trigger] spec_write_gpr(gprs, i, value), 0) == 0,
{
}

/// Sign extension replicates bit 31: the upper 32 bits of a sign-extended
/// 32-bit result are all copies of the result's bit 31.
pub proof fn lemma_sign_extension_upper_bits(v: u64)
    ensures
        (sext32_64(v) >> 31) & 1 == 1 ==> sext32_64(v) >> 32 == 0xffff_ffffu64,
        (sext32_64(v) >> 31) & 1 == 0 ==> sext32_64(v) >> 32 == 0,
{
    assert((((v as i32) as u64 >> 31) & 1 == 1 ==> (v as i32) as u64 >> 32 == 0xffff_ffffu64) && ((
    (v as i32) as u64 >> 31) & 1 == 0 ==> (v as i32) as u64 >> 32 == 0)) by (bit_vector);
}

/// The delay-slot law for a branch executed at `branch_pc`, so that the
/// program counter already reads `branch_pc + 4` and no delay slot is
/// pending:
/// - taken: the next fetch is `branch_pc + 4` (the delay slot), and once that
///   latch is consumed the following fetch is the branch target;
/// - not taken: no latch is pending and the next fetch is `branch_pc + 4`, so
///   execution falls straight through the delay slot;
/// - a not-taken branch-likely instead squashes the delay slot: the counter
///   skips to `branch_pc + 8`.
pub proof fn lemma_branch_delay_slot(pc: u64, offset_ext: u64)
    requires
        pc < 0xffff_ffff_ffff_fff0u64,
    ensures
        spec_fetch_pc(
            spec_branch_pc(pc, offset_ext, true),
            spec_branch_delay(pc, None, true),
        ) == pc,
        spec_fetch_pc(spec_branch_pc(pc, offset_ext, true), None) == spec_branch_pc(
            pc,
            offset_ext,
            true,
        ),
        spec_branch_delay(pc, None, false) is None,
        spec_fetch_pc(spec_branch_pc(pc, offset_ext, false), spec_branch_delay(pc, None, false))
            == pc,
        spec_fetch_pc(vstd::wrapping::u64_specs::wrapping_add(pc, 4), None) == pc + 4,
{
}

/// kseg0 and kseg1 translate by constant offsets: for a 32-bit address whose
/// top three bits read 100 (kseg0), the physical address is the virtual
/// address minus 0x8000_0000; for 101 (kseg1), minus 0xA000_0000. The 64-bit
/// fetch addresses carry the sign-extension prefix.
pub proof fn lemma_kseg_translation(v32: u32)
    ensures
        (v32 >> 29) & 7 == 4 ==> spec_virt_to_phys(0xffff_ffff_0000_0000u64 | (v32 as u64)) == Ok::<
            u64,
            Fault,
        >((v32 - 0x8000_0000u32) as u64),
        (v32 >> 29) & 7 == 5 ==> spec_virt_to_phys(0xffff_ffff_0000_0000u64 | (v32 as u64)) == Ok::<
            u64,
            Fault,
        >((v32 - 0xa000_0000u32) as u64),
{
    let v = 0xffff_ffff_0000_0000u64 | (v32 as u64);
    assert((v32 >> 29) & 7 == 4 ==> (v >> 29) & 7 == 4 && v >= 0xffff_ffff_8000_0000u64 && (v
        - 0xffff_ffff_8000_0000u64) as u64 == (v32 - 0x8000_0000u32) as u64) by (bit_vector)
        requires
            v == 0xffff_ffff_0000_0000u64 | (v32 as u64),
    ;
    assert((v32 >> 29) & 7 == 5 ==> (v >> 29) & 7 == 5 && v >= 0xffff_ffff_a000_0000u64 && (v
        - 0xffff_ffff_a000_0000u64) as u64 == (v32 - 0xa000_0000u32) as u64) by (bit_vector)
        requires
            v == 0xffff_ffff_0000_0000u64 | (v32 as u64),
    ;
}

} // verus!
