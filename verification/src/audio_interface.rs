//! AI: the audio interface register bank. Only the DRAM address and length
//! registers are modelled; the remaining writes are accepted and discarded.

use vstd::prelude::*;

verus! {

#[derive(Debug, Clone, Copy, PartialEq, Eq, Structural)]
pub struct AudioInterface {
    pub dram_addr: u32,
    pub length: u32,
}

impl Default for AudioInterface {
    fn default() -> (r: AudioInterface)
        ensures
            r.dram_addr == 0 && r.length == 0,
    {
        AudioInterface { dram_addr: 0, length: 0 }
    }
}

impl AudioInterface {
    pub fn read_dram_addr_reg(&self) -> (r: u32)
        ensures
            r == self.dram_addr,
    {
        self.dram_addr
    }

    /// Keeps the RDRAM-side address, masked to the 16 MiB bus window.
    pub fn write_dram_addr_reg(&mut self, value: u32)
        ensures
            *final(self) == (AudioInterface { dram_addr: value & 0x00ff_ffff, ..*old(self) }),
    {
        self.dram_addr = value & 0x00ff_ffff;
    }

    pub fn read_len_reg(&self) -> (r: u32)
        ensures
            r == self.length,
    {
        self.length
    }

    /// Keeps the transfer length, masked to its valid bits.
    pub fn write_len_reg(&mut self, value: u32)
        ensures
            *final(self) == (AudioInterface { length: value & 0x0003_fff8, ..*old(self) }),
    {
        self.length = value & 0x0003_fff8;
    }

    /// Accepted and discarded; audio output is outside this core.
    pub fn write_control_reg(&mut self, value: u32)
        ensures
            *final(self) == *old(self),
    {
        let _ = value;
    }

    /// Accepted and discarded; audio output is outside this core.
    pub fn write_status_reg(&mut self, value: u32)
        ensures
            *final(self) == *old(self),
    {
        let _ = value;
    }

    /// Accepted and discarded; audio output is outside this core.
    pub fn write_dacrate_reg(&mut self, value: u32)
        ensures
            *final(self) == *old(self),
    {
        let _ = value;
    }

    /// Accepted and discarded; audio output is outside this core.
    pub fn write_bitrate_reg(&mut self, value: u32)
        ensures
            *final(self) == *old(self),
    {
        let _ = value;
    }
}

} // verus!
