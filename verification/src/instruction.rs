//! VR4300 instruction word with its field views: register selectors, shift
//! amount, immediates (raw and sign-extended), jump target, and the decoded
//! opcode fields.

use vstd::prelude::*;

use crate::opcode::{
    decode_cop0, decode_cop0_co, decode_cop1, decode_opcode, decode_reg_imm, decode_special,
    spec_decode_cop0, spec_decode_cop0_co, spec_decode_cop1, spec_decode_opcode,
    spec_decode_reg_imm, spec_decode_special, Cop0CoOpcode, Cop0Opcode, Cop1Opcode, Opcode,
    RegImmOpcode, SpecialOpcode,
};

verus! {

/// A 5-bit field is always a register index below 32.
pub proof fn lemma_mask5(x: u32)
    ensures
        x & 0x1f < 32,
{
    assert(x & 0x1f < 32) by (bit_vector);
}

/// The 64-bit sign extension of a 16-bit immediate.
pub open spec fn spec_imm_sign_extended(imm: u32) -> u64 {
    (imm as u16) as i16 as u64
}

#[derive(Debug, Clone, Copy, PartialEq, Eq, Structural)]
pub struct Instruction(pub u32);

impl Instruction {
    /// The primary opcode at bits [31:26]; `None` is an unrecognized
    /// instruction, a fatal fault for the CPU.
    #[inline(always)]
    pub fn opcode(&self) -> (r: Option<Opcode>)
        ensures
            r == spec_decode_opcode((self.0 >> 26) & 0x3f),
    {
        decode_opcode((self.0 >> 26) & 0x3f)
    }

    #[inline(always)]
    pub fn rs(&self) -> (r: usize)
        ensures
            r == ((self.0 >> 21) & 0x1f) as usize,
            r < 32,
    {
        proof {
            lemma_mask5(self.0 >> 21);
        }
        ((self.0 >> 21) & 0x1f) as usize
    }

    #[inline(always)]
    pub fn rt(&self) -> (r: usize)
        ensures
            r == ((self.0 >> 16) & 0x1f) as usize,
            r < 32,
    {
        proof {
            lemma_mask5(self.0 >> 16);
        }
        ((self.0 >> 16) & 0x1f) as usize
    }

    /// The CP1 format selector; it aliases `rs`.
    #[inline(always)]
    pub fn fmt(&self) -> (r: usize)
        ensures
            r == ((self.0 >> 21) & 0x1f) as usize,
            r < 32,
    {
        self.rs()
    }

    #[inline(always)]
    pub fn ft(&self) -> (r: usize)
        ensures
            r == ((self.0 >> 16) & 0x1f) as usize,
            r < 32,
    {
        proof {
            lemma_mask5(self.0 >> 16);
        }
        ((self.0 >> 16) & 0x1f) as usize
    }

    #[inline(always)]
    pub fn fs(&self) -> (r: usize)
        ensures
            r == ((self.0 >> 11) & 0x1f) as usize,
            r < 32,
    {
        proof {
            lemma_mask5(self.0 >> 11);
        }
        ((self.0 >> 11) & 0x1f) as usize
    }

    #[inline(always)]
    pub fn fd(&self) -> (r: usize)
        ensures
            r == ((self.0 >> 6) & 0x1f) as usize,
            r < 32,
    {
        proof {
            lemma_mask5(self.0 >> 6);
        }
        ((self.0 >> 6) & 0x1f) as usize
    }

    #[inline(always)]
    pub fn rd(&self) -> (r: u32)
        ensures
            r == (self.0 >> 11) & 0x1f,
            r < 32,
    {
        proof {
            lemma_mask5(self.0 >> 11);
        }
        (self.0 >> 11) & 0x1f
    }

    #[inline(always)]
    pub fn sa(&self) -> (r: u32)
        ensures
            r == (self.0 >> 6) & 0x1f,
            r < 32,
    {
        proof {
            lemma_mask5(self.0 >> 6);
        }
        (self.0 >> 6) & 0x1f
    }

    #[inline(always)]
    pub fn imm(&self) -> (r: u32)
        ensures
            r == self.0 & 0xffff,
            r <= 0xffff,
    {
        proof {
            let v = self.0;
            assert(v & 0xffff <= 0xffff) by (bit_vector);
        }
        self.0 & 0xffff
    }

    /// The immediate sign-extended to 64 bits.
    #[inline(always)]
    pub fn imm_sign_extended(&self) -> (r: u64)
        ensures
            r == spec_imm_sign_extended(self.0 & 0xffff),
    {
        ((self.0 & 0xffff) as u16) as i16 as u64
    }

    /// The 26-bit jump target field.
    #[inline(always)]
    pub fn target(&self) -> (r: u32)
        ensures
            r == self.0 & 0x3ff_ffff,
            r <= 0x3ff_ffff,
    {
        proof {
            let v = self.0;
            assert(v & 0x3ff_ffff <= 0x3ff_ffff) by (bit_vector);
        }
        self.0 & 0x3ff_ffff
    }

    /// The load/store offset; it aliases `imm`.
    #[inline(always)]
    pub fn offset(&self) -> (r: u32)
        ensures
            r == self.0 & 0xffff,
            r <= 0xffff,
    {
        self.imm()
    }

    /// The offset sign-extended to 64 bits.
    #[inline(always)]
    pub fn offset_sign_extended(&self) -> (r: u64)
        ensures
            r == spec_imm_sign_extended(self.0 & 0xffff),
    {
        self.imm_sign_extended()
    }

    /// The SPECIAL function at bits [5:0].
    #[inline(always)]
    pub fn special_op(&self) -> (r: Option<SpecialOpcode>)
        ensures
            r == spec_decode_special(self.0 & 0x3f),
    {
        decode_special(self.0 & 0x3f)
    }

    /// The REGIMM selector at bits [20:16].
    #[inline(always)]
    pub fn reg_imm_op(&self) -> (r: Option<RegImmOpcode>)
        ensures
            r == spec_decode_reg_imm((self.0 >> 16) & 0x1f),
    {
        decode_reg_imm((self.0 >> 16) & 0x1f)
    }

    /// The COP0 selector at bits [25:21].
    #[inline(always)]
    pub fn cop0_op(&self) -> (r: Option<Cop0Opcode>)
        ensures
            r == spec_decode_cop0((self.0 >> 21) & 0x1f),
    {
        decode_cop0((self.0 >> 21) & 0x1f)
    }

    /// The COP0 CO function at bits [5:0].
    #[inline(always)]
    pub fn cop0_co_op(&self) -> (r: Option<Cop0CoOpcode>)
        ensures
            r == spec_decode_cop0_co(self.0 & 0x3f),
    {
        decode_cop0_co(self.0 & 0x3f)
    }

    /// The COP1 function at bits [5:0].
    #[inline(always)]
    pub fn cop1_op(&self) -> (r: Option<Cop1Opcode>)
        ensures
            r == spec_decode_cop1(self.0 & 0x3f),
    {
        decode_cop1(self.0 & 0x3f)
    }
}

} // verus!
