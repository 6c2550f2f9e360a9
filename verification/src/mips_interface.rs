//! MI: the MIPS interface. Mode bits and the interrupt mask, each written
//! through per-bit clear/set pairs.

use vstd::prelude::*;

verus! {

#[derive(Debug, Clone, Copy, PartialEq, Eq, Structural)]
pub struct MipsIntrMaskReg {
    pub sp_intr_mask: bool,
    pub si_intr_mask: bool,
    pub ai_intr_mask: bool,
    pub vi_intr_mask: bool,
    pub pi_intr_mask: bool,
    pub dp_intr_mask: bool,
}

#[derive(Debug, Clone, Copy, PartialEq, Eq, Structural)]
pub struct MipsInterface {
    pub init_length: u8,
    pub init_mode: bool,
    pub ebus_test_mode: bool,
    pub rdram_reg_mode: bool,

    pub intr_mask: MipsIntrMaskReg,
}

/// A clear/set bit pair: bit `clear_bit` of `value` clears the flag, bit
/// `clear_bit + 1` sets it; the set bit wins when both are given.
pub open spec fn clear_set_bit(value: u32, clear_bit: u32, flag: bool) -> bool {
    if value & (1u32 << (clear_bit + 1)) != 0 {
        true
    } else if value & (1u32 << clear_bit) != 0 {
        false
    } else {
        flag
    }
}

/// The mode register the guest reads back: the 7-bit init length plus the
/// three mode flags.
pub open spec fn spec_mi_mode(mi: MipsInterface) -> u32 {
    (mi.init_length as u32 | (if mi.init_mode {
        0x80u32
    } else {
        0u32
    }) | (if mi.ebus_test_mode {
        0x100u32
    } else {
        0u32
    }) | (if mi.rdram_reg_mode {
        0x200u32
    } else {
        0u32
    })) as u32
}

/// The effect of a mode register write: the low 7 bits load the init length,
/// and clear/set bit pairs drive the three mode flags.
pub open spec fn spec_mi_write_mode(mi: MipsInterface, value: u32) -> MipsInterface {
    MipsInterface {
        init_length: (value & 0x7f) as u8,
        init_mode: clear_set_bit(value, 7, mi.init_mode),
        ebus_test_mode: clear_set_bit(value, 9, mi.ebus_test_mode),
        rdram_reg_mode: clear_set_bit(value, 12, mi.rdram_reg_mode),
        ..mi
    }
}

/// The effect of an interrupt-mask write: one clear/set bit pair per source.
pub open spec fn spec_mi_write_intr_mask(mi: MipsInterface, value: u32) -> MipsInterface {
    MipsInterface {
        intr_mask: MipsIntrMaskReg {
            sp_intr_mask: clear_set_bit(value, 0, mi.intr_mask.sp_intr_mask),
            si_intr_mask: clear_set_bit(value, 2, mi.intr_mask.si_intr_mask),
            ai_intr_mask: clear_set_bit(value, 4, mi.intr_mask.ai_intr_mask),
            vi_intr_mask: clear_set_bit(value, 6, mi.intr_mask.vi_intr_mask),
            pi_intr_mask: clear_set_bit(value, 8, mi.intr_mask.pi_intr_mask),
            dp_intr_mask: clear_set_bit(value, 10, mi.intr_mask.dp_intr_mask),
        },
        ..mi
    }
}

impl MipsInterface {
    pub fn new() -> (r: MipsInterface)
        ensures
            r.init_length == 0,
            !r.init_mode && !r.ebus_test_mode && !r.rdram_reg_mode,
            r.intr_mask == (MipsIntrMaskReg {
                sp_intr_mask: false,
                si_intr_mask: false,
                ai_intr_mask: false,
                vi_intr_mask: false,
                pi_intr_mask: false,
                dp_intr_mask: false,
            }),
    {
        MipsInterface {
            init_length: 0,
            init_mode: false,
            ebus_test_mode: false,
            rdram_reg_mode: false,

            intr_mask: MipsIntrMaskReg {
                sp_intr_mask: false,
                si_intr_mask: false,
                ai_intr_mask: false,
                vi_intr_mask: false,
                pi_intr_mask: false,
                dp_intr_mask: false,
            },
        }
    }

    pub fn read_mode_reg(&self) -> (r: u32)
        ensures
            r == spec_mi_mode(*self),
    {
        self.init_length as u32 | (if self.init_mode {
            0x80u32
        } else {
            0u32
        }) | (if self.ebus_test_mode {
            0x100u32
        } else {
            0u32
        }) | (if self.rdram_reg_mode {
            0x200u32
        } else {
            0u32
        })
    }

    /// All four component versions read back as 1.
    pub fn read_version_reg(&self) -> (r: u32)
        ensures
            r == 0x0101_0101u32,
    {
        let io_version: u32 = 1;
        let rac_version: u32 = 1;
        let rdp_version: u32 = 1;
        let rsp_version: u32 = 1;
        let r = io_version | (rac_version << 8) | (rdp_version << 16) | (rsp_version << 24);
        assert(1u32 | (1u32 << 8) | (1u32 << 16) | (1u32 << 24) == 0x0101_0101u32) by (bit_vector);
        r
    }

    #[verifier::rlimit(30)]
    pub fn write_mode_reg(&mut self, value: u32)
        ensures
            *final(self) == spec_mi_write_mode(*old(self), value),
    {
        self.init_length = (value & 0x7f) as u8;
        if (value & (1u32 << 8)) != 0 {
            self.init_mode = true;
        } else if (value & (1u32 << 7)) != 0 {
            self.init_mode = false;
        }
        if (value & (1u32 << 10)) != 0 {
            self.ebus_test_mode = true;
        } else if (value & (1u32 << 9)) != 0 {
            self.ebus_test_mode = false;
        }
        // Bit 11 would clear the DP interrupt, which is not modelled.
        if (value & (1u32 << 13)) != 0 {
            self.rdram_reg_mode = true;
        } else if (value & (1u32 << 12)) != 0 {
            self.rdram_reg_mode = false;
        }
    }

    #[verifier::rlimit(60)]
    pub fn write_intr_mask_reg(&mut self, value: u32)
        ensures
            *final(self) == spec_mi_write_intr_mask(*old(self), value),
    {
        if (value & (1u32 << 1)) != 0 {
            self.intr_mask.sp_intr_mask = true;
        } else if (value & (1u32 << 0)) != 0 {
            self.intr_mask.sp_intr_mask = false;
        }
        if (value & (1u32 << 3)) != 0 {
            self.intr_mask.si_intr_mask = true;
        } else if (value & (1u32 << 2)) != 0 {
            self.intr_mask.si_intr_mask = false;
        }
        if (value & (1u32 << 5)) != 0 {
            self.intr_mask.ai_intr_mask = true;
        } else if (value & (1u32 << 4)) != 0 {
            self.intr_mask.ai_intr_mask = false;
        }
        if (value & (1u32 << 7)) != 0 {
            self.intr_mask.vi_intr_mask = true;
        } else if (value & (1u32 << 6)) != 0 {
            self.intr_mask.vi_intr_mask = false;
        }
        if (value & (1u32 << 9)) != 0 {
            self.intr_mask.pi_intr_mask = true;
        } else if (value & (1u32 << 8)) != 0 {
            self.intr_mask.pi_intr_mask = false;
        }
        if (value & (1u32 << 11)) != 0 {
            self.intr_mask.dp_intr_mask = true;
        } else if (value & (1u32 << 10)) != 0 {
            self.intr_mask.dp_intr_mask = false;
        }
    }
}

} // verus!
