//! CP0 Cause register: a structured view of the exception cause word.

use vstd::prelude::*;

verus! {

/// The Cause register fields. Only the two software interrupt pending bits
/// are guest-writable; the timer pending bit clears on any Compare write.
#[derive(Debug, Clone, Copy, PartialEq, Eq)]
pub struct RegCause {
    /// Whether the last exception occurred in a branch delay slot.
    pub bd: bool,
    /// The coprocessor of a coprocessor-unusable exception.
    pub ce: u8,

    /// Timer interrupt pending.
    pub ip_timer: bool,
    /// The five external interrupt pending bits.
    pub ip_external: [bool; 5],
    /// The two software interrupt pending bits.
    pub ip_software: [bool; 2],

    /// The 5-bit exception code.
    pub exception_code: u8,
}

impl Default for RegCause {
    fn default() -> (r: RegCause)
        ensures
            !r.bd && r.ce == 0 && !r.ip_timer && r.exception_code == 0,
            forall|i: int| 0 <= i < 5 ==> !r.ip_external[i],
            forall|i: int| 0 <= i < 2 ==> !r.ip_software[i],
    {
        RegCause {
            bd: false,
            ce: 0,
            ip_timer: false,
            ip_external: [false, false, false, false, false],
            ip_software: [false, false],
            exception_code: 0,
        }
    }
}

/// The packed Cause word: `bd<<31 | ce<<28 | ip_timer<<15 | ip_ext[i]<<(10+i)
/// | ip_sw[i]<<(8+i) | exception_code<<2`.
pub open spec fn spec_cause_to_u32(c: RegCause) -> u32 {
    ((if c.bd {
        0x8000_0000u32
    } else {
        0u32
    }) | ((c.ce as u32) << 28) | (if c.ip_timer {
        0x8000u32
    } else {
        0u32
    }) | (if c.ip_external[0] {
        0x400u32
    } else {
        0u32
    }) | (if c.ip_external[1] {
        0x800u32
    } else {
        0u32
    }) | (if c.ip_external[2] {
        0x1000u32
    } else {
        0u32
    }) | (if c.ip_external[3] {
        0x2000u32
    } else {
        0u32
    }) | (if c.ip_external[4] {
        0x4000u32
    } else {
        0u32
    }) | (if c.ip_software[0] {
        0x100u32
    } else {
        0u32
    }) | (if c.ip_software[1] {
        0x200u32
    } else {
        0u32
    }) | ((c.exception_code as u32) << 2)) as u32
}

/// The Cause word unpacked into its fields.
pub open spec fn spec_cause_from(value: u32) -> RegCause {
    RegCause {
        bd: value & 0x8000_0000u32 != 0,
        ce: ((value >> 28) & 0x03) as u8,
        ip_timer: value & 0x8000u32 != 0,
        ip_external: [
            value & 0x400u32 != 0,
            value & 0x800u32 != 0,
            value & 0x1000u32 != 0,
            value & 0x2000u32 != 0,
            value & 0x4000u32 != 0,
        ],
        ip_software: [value & 0x100u32 != 0, value & 0x200u32 != 0],
        exception_code: ((value >> 2) & 0x1f) as u8,
    }
}

impl RegCause {
    /// Unpacks a Cause word.
    pub fn from_u32(value: u32) -> (r: RegCause)
        ensures
            r == spec_cause_from(value),
    {
        RegCause {
            bd: value & 0x8000_0000u32 != 0,
            ce: ((value >> 28) & 0x03) as u8,
            ip_timer: value & 0x8000u32 != 0,
            ip_external: [
                value & 0x400u32 != 0,
                value & 0x800u32 != 0,
                value & 0x1000u32 != 0,
                value & 0x2000u32 != 0,
                value & 0x4000u32 != 0,
            ],
            ip_software: [value & 0x100u32 != 0, value & 0x200u32 != 0],
            exception_code: ((value >> 2) & 0x1f) as u8,
        }
    }

    /// A guest write to Cause touches only the two software interrupt
    /// pending bits; everything else is ignored.
    #[allow(non_snake_case)]
    pub fn setSoftwareInterruptPendingFields(&mut self, value: u32)
        ensures
            *final(self) == (RegCause {
                ip_software: spec_cause_from(value).ip_software,
                ..*old(self)
            }),
    {
        let new_value = RegCause::from_u32(value);
        self.ip_software = new_value.ip_software;
    }

    /// Any Compare write clears the pending timer interrupt.
    #[allow(non_snake_case)]
    pub fn clearTimerInterruptPending(&mut self)
        ensures
            *final(self) == (RegCause { ip_timer: false, ..*old(self) }),
    {
        self.ip_timer = false;
    }

    /// Packs the fields back into the Cause word.
    pub fn to_u32(&self) -> (r: u32)
        ensures
            r == spec_cause_to_u32(*self),
    {
        (if self.bd {
            0x8000_0000u32
        } else {
            0u32
        }) | ((self.ce as u32) << 28) | (if self.ip_timer {
            0x8000u32
        } else {
            0u32
        }) | (if self.ip_external[0] {
            0x400u32
        } else {
            0u32
        }) | (if self.ip_external[1] {
            0x800u32
        } else {
            0u32
        }) | (if self.ip_external[2] {
            0x1000u32
        } else {
            0u32
        }) | (if self.ip_external[3] {
            0x2000u32
        } else {
            0u32
        }) | (if self.ip_external[4] {
            0x4000u32
        } else {
            0u32
        }) | (if self.ip_software[0] {
            0x100u32
        } else {
            0u32
        }) | (if self.ip_software[1] {
            0x200u32
        } else {
            0u32
        }) | ((self.exception_code as u32) << 2)
    }
}

} // verus!
