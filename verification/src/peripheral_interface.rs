//! PI: the peripheral interface. Holds the cartridge and RDRAM addresses and
//! arms the write DMA that copies cartridge bytes into RDRAM.

use vstd::prelude::*;

use crate::dma::{spec_chunk, spec_rest, DMARequest};

verus! {

/// The PI write DMA drains in chunks of at most this many bytes per tick.
pub const PI_DMA_CHUNK_SIZE: u32 = 0x10000;

#[derive(Debug, Clone, Copy, PartialEq, Eq, Structural)]
pub struct PeripheralInterface {
    pub dram_addr: u32,
    pub cart_addr: u32,

    pub dma_write: DMARequest,
}

impl Default for PeripheralInterface {
    fn default() -> (r: PeripheralInterface)
        ensures
            r.dram_addr == 0 && r.cart_addr == 0 && r.dma_write.length == 0,
            r.dma_write.from == 0 && r.dma_write.to == 0,
    {
        PeripheralInterface { dram_addr: 0, cart_addr: 0, dma_write: Default::default() }
    }
}

impl PeripheralInterface {
    /// Carves the next chunk (at most 0x10000 bytes) off the pending write
    /// DMA; an idle DMA yields an empty chunk.
    pub fn get_dma_write_chunk(&mut self) -> (chunk: DMARequest)
        ensures
            chunk == spec_chunk(old(self).dma_write, PI_DMA_CHUNK_SIZE),
            *final(self) == (PeripheralInterface {
                dma_write: spec_rest(old(self).dma_write, PI_DMA_CHUNK_SIZE),
                ..*old(self)
            }),
    {
        self.dma_write.get_chunk(PI_DMA_CHUNK_SIZE)
    }

    /// Keeps the RDRAM-side address, masked to the 16 MiB bus window.
    pub fn write_dram_addr_reg(&mut self, value: u32)
        ensures
            *final(self) == (PeripheralInterface { dram_addr: value & 0x00ff_ffff, ..*old(self) }),
    {
        self.dram_addr = value & 0x00ff_ffff;
    }

    pub fn write_cart_addr_reg(&mut self, value: u32)
        ensures
            *final(self) == (PeripheralInterface { cart_addr: value, ..*old(self) }),
    {
        self.cart_addr = value;
    }

    /// Arms a cart-to-RDRAM DMA: `from` is the cartridge address, `to` the
    /// RDRAM address, and the length is the even-masked register value plus 2.
    pub fn write_wr_len_reg(&mut self, value: u32)
        ensures
            *final(self) == (PeripheralInterface {
                dma_write: DMARequest {
                    from: old(self).cart_addr,
                    to: old(self).dram_addr,
                    length: ((value & 0x00ff_fffe) + 2) as u32,
                },
                ..*old(self)
            }),
    {
        proof {
            assert(value & 0x00ff_fffe <= 0x00ff_fffe) by (bit_vector);
        }
        self.dma_write = DMARequest {
            from: self.cart_addr,
            to: self.dram_addr,
            length: (value & 0x00ff_fffe) + 2,
        };
    }

    /// Bit 0 reports whether a DMA is still pending.
    pub fn read_status_reg(&self) -> (r: u32)
        ensures
            r == if self.dma_write.length != 0 {
                1u32
            } else {
                0u32
            },
    {
        if self.dma_write.is_pending() {
            1
        } else {
            0
        }
    }

    /// The reset-controller and clear-interrupt bits are acknowledged and
    /// discarded; neither is modelled.
    pub fn write_status_reg(&mut self, value: u32)
        ensures
            *final(self) == *old(self),
    {
        let _ = value;
    }

    pub fn read_bsd_dom1_lat_reg(&self) -> (r: u32)
        ensures
            r == 0u32,
    {
        0
    }

    pub fn write_bsd_dom1_lat_reg(&mut self, value: u32)
        ensures
            *final(self) == *old(self),
    {
        let _ = value;
    }

    pub fn read_bsd_dom1_pwd_reg(&self) -> (r: u32)
        ensures
            r == 0u32,
    {
        0
    }

    pub fn write_bsd_dom1_pwd_reg(&mut self, value: u32)
        ensures
            *final(self) == *old(self),
    {
        let _ = value;
    }

    pub fn read_bsd_dom1_pgs_reg(&self) -> (r: u32)
        ensures
            r == 0u32,
    {
        0
    }

    pub fn write_bsd_dom1_pgs_reg(&mut self, value: u32)
        ensures
            *final(self) == *old(self),
    {
        let _ = value;
    }

    pub fn read_bsd_dom1_rls_reg(&self) -> (r: u32)
        ensures
            r == 0u32,
    {
        0
    }

    pub fn write_bsd_dom1_rls_reg(&mut self, value: u32)
        ensures
            *final(self) == *old(self),
    {
        let _ = value;
    }
}

} // verus!
