//! RSP instruction word with its field views. The RSP is a 32-bit core, so
//! its sign-extended offset is 32 bits wide.

use vstd::prelude::*;

use crate::instruction::lemma_mask5;
use crate::rsp_opcode::{
    decode_rsp_opcode, decode_rsp_special, spec_decode_rsp_opcode, spec_decode_rsp_special,
    RspOpcode, RspSpecialOpcode,
};

verus! {

/// The 32-bit sign extension of a 16-bit immediate.
pub open spec fn spec_imm_sign_extended32(imm: u32) -> u32 {
    (imm as u16) as i16 as u32
}

#[derive(Debug, Clone, Copy, PartialEq, Eq, Structural)]
pub struct Instruction(pub u32);

impl Instruction {
    /// The primary opcode at bits [31:26]; `None` is an unrecognized RSP
    /// instruction, a fatal fault.
    #[inline(always)]
    pub fn opcode(&self) -> (r: Option<RspOpcode>)
        ensures
            r == spec_decode_rsp_opcode((self.0 >> 26) & 0x3f),
    {
        decode_rsp_opcode((self.0 >> 26) & 0x3f)
    }

    #[inline(always)]
    pub fn rs(&self) -> (r: usize)
        ensures
            r == ((self.0 >> 21) & 0x1f) as usize,
            r < 32,
    {
        proof {
            lemma_mask5(self.0 >> 21);
        }
        ((self.0 >> 21) & 0x1f) as usize
    }

    #[inline(always)]
    pub fn rt(&self) -> (r: usize)
        ensures
            r == ((self.0 >> 16) & 0x1f) as usize,
            r < 32,
    {
        proof {
            lemma_mask5(self.0 >> 16);
        }
        ((self.0 >> 16) & 0x1f) as usize
    }

    #[inline(always)]
    pub fn rd(&self) -> (r: u32)
        ensures
            r == (self.0 >> 11) & 0x1f,
            r < 32,
    {
        proof {
            lemma_mask5(self.0 >> 11);
        }
        (self.0 >> 11) & 0x1f
    }

    #[inline(always)]
    pub fn sa(&self) -> (r: u32)
        ensures
            r == (self.0 >> 6) & 0x1f,
            r < 32,
    {
        proof {
            lemma_mask5(self.0 >> 6);
        }
        (self.0 >> 6) & 0x1f
    }

    #[inline(always)]
    pub fn imm(&self) -> (r: u32)
        ensures
            r == self.0 & 0xffff,
            r <= 0xffff,
    {
        proof {
            let v = self.0;
            assert(v & 0xffff <= 0xffff) by (bit_vector);
        }
        self.0 & 0xffff
    }

    /// The 26-bit jump target field.
    #[inline(always)]
    pub fn target(&self) -> (r: u32)
        ensures
            r == self.0 & 0x3ff_ffff,
            r <= 0x3ff_ffff,
    {
        proof {
            let v = self.0;
            assert(v & 0x3ff_ffff <= 0x3ff_ffff) by (bit_vector);
        }
        self.0 & 0x3ff_ffff
    }

    /// The load/store offset; it aliases `imm`.
    #[inline(always)]
    pub fn offset(&self) -> (r: u32)
        ensures
            r == self.0 & 0xffff,
            r <= 0xffff,
    {
        self.imm()
    }

    /// The offset sign-extended to 32 bits.
    #[inline(always)]
    pub fn offset_sign_extended(&self) -> (r: u32)
        ensures
            r == spec_imm_sign_extended32(self.0 & 0xffff),
    {
        proof {
            let v = self.0;
            assert(v & 0xffff <= 0xffff) by (bit_vector);
        }
        ((self.0 & 0xffff) as u16) as i16 as u32
    }

    /// The SPECIAL function at bits [5:0].
    #[inline(always)]
    pub fn special_op(&self) -> (r: Option<RspSpecialOpcode>)
        ensures
            r == spec_decode_rsp_special(self.0 & 0x3f),
    {
        decode_rsp_special(self.0 & 0x3f)
    }
}

} // verus!
