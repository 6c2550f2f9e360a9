//! RDP command unit: only the DPC status register is mapped, as a stub that
//! reads 0 and discards writes. Rasterization is outside this core.

use vstd::prelude::*;

verus! {

#[derive(Debug, Clone, Copy, PartialEq, Eq, Structural)]
pub struct Rdp;

impl Rdp {
    pub fn read_status_reg(&self) -> (r: u32)
        ensures
            r == 0u32,
    {
        0
    }

    pub fn write_status_reg(&mut self, value: u32)
        ensures
            *final(self) == *old(self),
    {
        let _ = value;
    }
}

} // verus!
