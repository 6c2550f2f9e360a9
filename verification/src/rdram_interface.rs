//! RI: the RDRAM interface. Every register is a stub in this core: reads
//! return 0 and writes are accepted and discarded.

use vstd::prelude::*;

verus! {

#[derive(Debug, Clone, Copy, PartialEq, Eq, Structural)]
pub struct RdramInterface;

impl Default for RdramInterface {
    fn default() -> (r: RdramInterface)
        ensures
            r == RdramInterface,
    {
        RdramInterface
    }
}

impl RdramInterface {
    pub fn read_select_reg(&self) -> (r: u32)
        ensures
            r == 0u32,
    {
        0
    }

    pub fn read_refresh_reg(&self) -> (r: u32)
        ensures
            r == 0u32,
    {
        0
    }

    pub fn write_mode_reg(&self, value: u32) {
        let _ = value;
    }

    pub fn write_config_reg(&self, value: u32) {
        let _ = value;
    }

    pub fn write_current_load_reg(&self, value: u32) {
        let _ = value;
    }

    pub fn write_select_reg(&self, value: u32) {
        let _ = value;
    }

    pub fn write_refresh_reg(&self, value: u32) {
        let _ = value;
    }

    pub fn read_rdram_mode_reg(&self) -> (r: u32)
        ensures
            r == 0u32,
    {
        0
    }

    pub fn write_rdram_mode_reg(&self, value: u32) {
        let _ = value;
    }
}

} // verus!
