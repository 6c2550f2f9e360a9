//! RSP: the Reality Signal Processor. `RspRegs` is the memory-mapped side
//! (status flags, DMA programming, 4 KiB DMEM and IMEM, the task PC) owned by
//! the interconnect; `Rsp` is the scalar interpreter core that steps against
//! it.

use vstd::prelude::*;

use crate::bytes::{read_be_u32, spec_be_u32, spec_be_u32_store, write_be_u32};
use crate::dma::{spec_chunk, spec_rest, DMARequest};
use crate::mem_map::{SP_DMEM_LENGTH, SP_DMEM_START, SP_IMEM_LENGTH};
use crate::rsp_opcode::RspSpecialOpcode;
use crate::Fault;

verus! {

/// The RSP read DMA drains in chunks of at most this many bytes per tick.
pub const RSP_DMA_CHUNK_SIZE: u32 = 8192;

/// A recognized guest program executed directly instead of interpreted.
#[derive(Debug, Clone, Copy, PartialEq, Eq, Structural)]
pub enum RspHleOperation {
    Cicx105Ucode,
}

#[derive(Debug, Clone, Copy, PartialEq, Eq, Structural)]
pub struct RspStatusReg {
    pub halt: bool,
    pub broke: bool,
    pub interrupt_enable: bool,
    pub clear: bool,
    pub sstep: bool,
    pub interrupt_on_break: bool,
    pub signal0: bool,
    pub signal1: bool,
    pub signal2: bool,
    pub signal3: bool,
    pub signal4: bool,
    pub signal5: bool,
    pub signal6: bool,
    pub signal7: bool,
}

pub struct RspRegs {
    pub pc: u32,

    pub status: RspStatusReg,

    pub dram_addr: u32,
    pub mem_addr: u32,
    pub dma_read: DMARequest,

    pub dmem: Vec<u8>,
    pub imem: Vec<u8>,

    /// A pending HLE operation, scheduled when the status write that starts
    /// the RSP recognizes a known task signature.
    pub hle_operation: Option<RspHleOperation>,
}

/// The packed status word the guest reads: halt, interrupt enable, DMA busy,
/// interrupt-on-break and the eight signal bits.
pub open spec fn spec_rsp_status_word(status: RspStatusReg, dma_pending: bool) -> u32 {
    ((if status.halt {
        1u32
    } else {
        0u32
    }) | (if status.interrupt_enable {
        2u32
    } else {
        0u32
    }) | (if dma_pending {
        4u32
    } else {
        0u32
    }) | (if status.interrupt_on_break {
        0x40u32
    } else {
        0u32
    }) | (if status.signal0 {
        0x80u32
    } else {
        0u32
    }) | (if status.signal1 {
        0x100u32
    } else {
        0u32
    }) | (if status.signal2 {
        0x200u32
    } else {
        0u32
    }) | (if status.signal3 {
        0x400u32
    } else {
        0u32
    }) | (if status.signal4 {
        0x800u32
    } else {
        0u32
    }) | (if status.signal5 {
        0x1000u32
    } else {
        0u32
    }) | (if status.signal6 {
        0x2000u32
    } else {
        0u32
    }) | (if status.signal7 {
        0x4000u32
    } else {
        0u32
    })) as u32
}

/// The sum of the first `n` bytes of `s`.
pub open spec fn spec_byte_sum(s: Seq<u8>, n: int) -> int
    decreases n,
{
    if n <= 0 {
        0
    } else {
        spec_byte_sum(s, n - 1) + s[n - 1]
    }
}

/// The HLE task signature check made when the RSP starts running: the ucode
/// boot size word at DMEM 0xFCC must exceed 1000 and the first 44 IMEM bytes
/// must sum to 0x9E2, which identifies the CIC x105 boot ucode.
pub open spec fn spec_hle_detect(dmem: Seq<u8>, imem: Seq<u8>) -> Option<RspHleOperation> {
    if spec_be_u32(dmem, 0xfcc) > 1000 && spec_byte_sum(imem, 44) == 0x9e2 {
        Some(RspHleOperation::Cicx105Ucode)
    } else {
        None
    }
}

/// The status flags after a status-register write: one clear/set bit pair
/// per flag; bit 2 only clears `broke`.
pub open spec fn spec_rsp_status_update(s: RspStatusReg, value: u32) -> RspStatusReg {
    RspStatusReg {
        halt: if value & 2 != 0 {
            true
        } else if value & 1 != 0 {
            false
        } else {
            s.halt
        },
        broke: if value & 4 != 0 {
            false
        } else {
            s.broke
        },
        interrupt_enable: if value & 0x10 != 0 {
            true
        } else if value & 8 != 0 {
            false
        } else {
            s.interrupt_enable
        },
        sstep: if value & 0x40 != 0 {
            true
        } else if value & 0x20 != 0 {
            false
        } else {
            s.sstep
        },
        interrupt_on_break: if value & 0x100 != 0 {
            true
        } else if value & 0x80 != 0 {
            false
        } else {
            s.interrupt_on_break
        },
        signal0: if value & 0x400 != 0 {
            true
        } else if value & 0x200 != 0 {
            false
        } else {
            s.signal0
        },
        signal1: if value & 0x1000 != 0 {
            true
        } else if value & 0x800 != 0 {
            false
        } else {
            s.signal1
        },
        signal2: if value & 0x4000 != 0 {
            true
        } else if value & 0x2000 != 0 {
            false
        } else {
            s.signal2
        },
        signal3: if value & 0x10000 != 0 {
            true
        } else if value & 0x8000 != 0 {
            false
        } else {
            s.signal3
        },
        signal4: if value & 0x40000 != 0 {
            true
        } else if value & 0x20000 != 0 {
            false
        } else {
            s.signal4
        },
        signal5: if value & 0x100000 != 0 {
            true
        } else if value & 0x80000 != 0 {
            false
        } else {
            s.signal5
        },
        signal6: if value & 0x400000 != 0 {
            true
        } else if value & 0x200000 != 0 {
            false
        } else {
            s.signal6
        },
        signal7: if value & 0x1000000 != 0 {
            true
        } else if value & 0x800000 != 0 {
            false
        } else {
            s.signal7
        },
        ..s
    }
}

/// A status-register write: the per-bit update of `spec_rsp_status_update`,
/// and when the write takes the RSP from halted-or-broke to running, the HLE
/// signature check of `spec_hle_detect`.
pub open spec fn spec_rsp_write_status(r: RspRegs, value: u32) -> RspRegs {
    let was_halted_or_broke = r.status.halt || r.status.broke;
    let status = spec_rsp_status_update(r.status, value);
    if was_halted_or_broke && !status.halt && !status.broke {
        RspRegs { status, hle_operation: spec_hle_detect(r.dmem@, r.imem@), ..r }
    } else {
        RspRegs { status, ..r }
    }
}

impl RspRegs {
    /// DMEM and IMEM are always exactly 4 KiB each.
    pub open spec fn wf(&self) -> bool {
        self.dmem@.len() == SP_DMEM_LENGTH && self.imem@.len() == SP_IMEM_LENGTH
    }

    pub fn new() -> (r: RspRegs)
        ensures
            r.wf(),
            r.pc == 0,
            r.status == (RspStatusReg {
                halt: true,
                broke: false,
                interrupt_enable: false,
                clear: false,
                sstep: false,
                interrupt_on_break: false,
                signal0: false,
                signal1: false,
                signal2: false,
                signal3: false,
                signal4: false,
                signal5: false,
                signal6: false,
                signal7: false,
            }),
            r.dram_addr == 0,
            r.mem_addr == SP_DMEM_START,
            r.dma_read.length == 0 && r.dma_read.from == 0 && r.dma_read.to == 0,
            r.dmem@ == Seq::new(SP_DMEM_LENGTH as nat, |i: int| 0u8),
            r.imem@ == Seq::new(SP_IMEM_LENGTH as nat, |i: int| 0u8),
            r.hle_operation is None,
    {
        let mut dmem: Vec<u8> = Vec::new();
        let mut i: usize = 0;
        while i < SP_DMEM_LENGTH as usize
            invariant
                i <= SP_DMEM_LENGTH,
                dmem@ == Seq::new(i as nat, |j: int| 0u8),
            decreases SP_DMEM_LENGTH - i,
        {
            dmem.push(0);
            i = i + 1;
            proof {
                assert(dmem@ =~= Seq::new(i as nat, |j: int| 0u8));
            }
        }
        let mut imem: Vec<u8> = Vec::new();
        let mut i: usize = 0;
        while i < SP_IMEM_LENGTH as usize
            invariant
                i <= SP_IMEM_LENGTH,
                imem@ == Seq::new(i as nat, |j: int| 0u8),
            decreases SP_IMEM_LENGTH - i,
        {
            imem.push(0);
            i = i + 1;
            proof {
                assert(imem@ =~= Seq::new(i as nat, |j: int| 0u8));
            }
        }
        RspRegs {
            pc: 0,

            status: RspStatusReg {
                halt: true,
                broke: false,
                interrupt_enable: false,
                clear: false,
                sstep: false,
                interrupt_on_break: false,
                signal0: false,
                signal1: false,
                signal2: false,
                signal3: false,
                signal4: false,
                signal5: false,
                signal6: false,
                signal7: false,
            },

            dram_addr: 0,
            mem_addr: SP_DMEM_START,
            dma_read: Default::default(),

            dmem,
            imem,

            hle_operation: None,
        }
    }

    /// Reads the big-endian DMEM word at `offset`; a word crossing the 4 KiB
    /// end is a fatal fault.
    pub fn read_dmem(&self, offset: u32) -> (r: Result<u32, Fault>)
        requires
            self.wf(),
        ensures
            match r {
                Ok(w) => offset + 4 <= SP_DMEM_LENGTH && w == spec_be_u32(
                    self.dmem@,
                    offset as int,
                ),
                Err(f) => offset + 4 > SP_DMEM_LENGTH && f == Fault::OutOfBounds(offset),
            },
    {
        if offset as u64 + 4 <= SP_DMEM_LENGTH as u64 {
            Ok(read_be_u32(&self.dmem, offset as usize))
        } else {
            Err(Fault::OutOfBounds(offset))
        }
    }

    /// Writes the big-endian DMEM word at `offset`.
    pub fn write_dmem(&mut self, offset: u32, value: u32) -> (r: Result<(), Fault>)
        requires
            old(self).wf(),
        ensures
            final(self).wf(),
            match r {
                Ok(()) => offset + 4 <= SP_DMEM_LENGTH && *final(self) == (RspRegs {
                    dmem: final(self).dmem,
                    ..*old(self)
                }) && final(self).dmem@ == spec_be_u32_store(old(self).dmem@, offset as int, value),
                Err(f) => offset + 4 > SP_DMEM_LENGTH && f == Fault::OutOfBounds(offset) && *final(self) == *old(self),
            },
    {
        if offset as u64 + 4 <= SP_DMEM_LENGTH as u64 {
            write_be_u32(&mut self.dmem, offset as usize, value);
            Ok(())
        } else {
            Err(Fault::OutOfBounds(offset))
        }
    }

    /// Reads the big-endian IMEM word at `offset`.
    pub fn read_imem(&self, offset: u32) -> (r: Result<u32, Fault>)
        requires
            self.wf(),
        ensures
            match r {
                Ok(w) => offset + 4 <= SP_IMEM_LENGTH && w == spec_be_u32(
                    self.imem@,
                    offset as int,
                ),
                Err(f) => offset + 4 > SP_IMEM_LENGTH && f == Fault::OutOfBounds(offset),
            },
    {
        if offset as u64 + 4 <= SP_IMEM_LENGTH as u64 {
            Ok(read_be_u32(&self.imem, offset as usize))
        } else {
            Err(Fault::OutOfBounds(offset))
        }
    }

    /// Writes the big-endian IMEM word at `offset`.
    pub fn write_imem(&mut self, offset: u32, value: u32) -> (r: Result<(), Fault>)
        requires
            old(self).wf(),
        ensures
            final(self).wf(),
            match r {
                Ok(()) => offset + 4 <= SP_IMEM_LENGTH && *final(self) == (RspRegs {
                    imem: final(self).imem,
                    ..*old(self)
                }) && final(self).imem@ == spec_be_u32_store(old(self).imem@, offset as int, value),
                Err(f) => offset + 4 > SP_IMEM_LENGTH && f == Fault::OutOfBounds(offset) && *final(self) == *old(self),
            },
    {
        if offset as u64 + 4 <= SP_IMEM_LENGTH as u64 {
            write_be_u32(&mut self.imem, offset as usize, value);
            Ok(())
        } else {
            Err(Fault::OutOfBounds(offset))
        }
    }

    pub fn read_dmem_byte(&self, offset: u32) -> (r: u8)
        requires
            self.wf(),
            offset < SP_DMEM_LENGTH,
        ensures
            r == self.dmem@[offset as int],
    {
        self.dmem[offset as usize]
    }

    pub fn write_dmem_byte(&mut self, offset: u32, value: u8)
        requires
            old(self).wf(),
            offset < SP_DMEM_LENGTH,
        ensures
            final(self).wf(),
            *final(self) == (RspRegs { dmem: final(self).dmem, ..*old(self) }),
            final(self).dmem@ == old(self).dmem@.update(offset as int, value),
    {
        self.dmem.set(offset as usize, value);
    }

    pub fn read_imem_byte(&self, offset: u32) -> (r: u8)
        requires
            self.wf(),
            offset < SP_IMEM_LENGTH,
        ensures
            r == self.imem@[offset as int],
    {
        self.imem[offset as usize]
    }

    pub fn write_imem_byte(&mut self, offset: u32, value: u8)
        requires
            old(self).wf(),
            offset < SP_IMEM_LENGTH,
        ensures
            final(self).wf(),
            *final(self) == (RspRegs { imem: final(self).imem, ..*old(self) }),
            final(self).imem@ == old(self).imem@.update(offset as int, value),
    {
        self.imem.set(offset as usize, value);
    }

    /// Carves the next chunk (at most 8192 bytes) off the pending read DMA.
    pub fn get_dma_read_chunk(&mut self) -> (chunk: DMARequest)
        ensures
            chunk == spec_chunk(old(self).dma_read, RSP_DMA_CHUNK_SIZE),
            *final(self) == (RspRegs {
                dma_read: spec_rest(old(self).dma_read, RSP_DMA_CHUNK_SIZE),
                ..*old(self)
            }),
    {
        self.dma_read.get_chunk(RSP_DMA_CHUNK_SIZE)
    }

    /// Loads the SP-memory-side DMA address. The mask folds the DMEM base
    /// address in: `&` binds tighter than the written-out sum
    /// `0x1fff + SP_DMEM_START`, so the register keeps only the low bits of
    /// the value that overlap that combined constant.
    pub fn write_mem_addr_reg(&mut self, value: u32)
        ensures
            *final(self) == (RspRegs { mem_addr: value & 0x0400_1fff, ..*old(self) }),
    {
        self.mem_addr = value & 0x0400_1fff;
    }

    /// Loads the RDRAM-side DMA address, masked to the 16 MiB bus window.
    pub fn write_dram_addr_reg(&mut self, value: u32)
        ensures
            *final(self) == (RspRegs { dram_addr: value & 0x00ff_ffff, ..*old(self) }),
    {
        self.dram_addr = value & 0x00ff_ffff;
    }

    /// Arms an RDRAM-to-DMEM DMA of `(value & 0xFFC) + 4` bytes. A non-zero
    /// count field (a multi-part DMA) is a fatal fault that changes nothing.
    pub fn write_rd_len_reg(&mut self, value: u32) -> (r: Result<(), Fault>)
        ensures
            match r {
                Ok(()) => (value >> 12) & 0xff == 0 && *final(self) == (RspRegs {
                    dma_read: DMARequest {
                        from: old(self).dram_addr,
                        to: old(self).mem_addr,
                        length: ((value & 0xffc) + 4) as u32,
                    },
                    ..*old(self)
                }),
                Err(f) => (value >> 12) & 0xff != 0 && f == Fault::MultiPartDma(value) && *final(self) == *old(self),
            },
    {
        let count = (value >> 12) & 0xff;
        if count != 0 {
            return Err(Fault::MultiPartDma(value));
        }

        proof {
            assert(value & 0xffc <= 0xffc) by (bit_vector);
        }
        self.dma_read = DMARequest {
            from: self.dram_addr,
            to: self.mem_addr,
            length: (value & 0xffc) + 4,
        };
        Ok(())
    }

    /// See `spec_rsp_status_word`.
    pub fn read_status_reg(&self) -> (r: u32)
        ensures
            r == spec_rsp_status_word(self.status, self.dma_read.length != 0),
    {
        (if self.status.halt {
            1u32
        } else {
            0u32
        }) | (if self.status.interrupt_enable {
            2u32
        } else {
            0u32
        }) | (if self.dma_read.is_pending() {
            4u32
        } else {
            0u32
        }) | (if self.status.interrupt_on_break {
            0x40u32
        } else {
            0u32
        }) | (if self.status.signal0 {
            0x80u32
        } else {
            0u32
        }) | (if self.status.signal1 {
            0x100u32
        } else {
            0u32
        }) | (if self.status.signal2 {
            0x200u32
        } else {
            0u32
        }) | (if self.status.signal3 {
            0x400u32
        } else {
            0u32
        }) | (if self.status.signal4 {
            0x800u32
        } else {
            0u32
        }) | (if self.status.signal5 {
            0x1000u32
        } else {
            0u32
        }) | (if self.status.signal6 {
            0x2000u32
        } else {
            0u32
        }) | (if self.status.signal7 {
            0x4000u32
        } else {
            0u32
        })
    }

    /// See `spec_rsp_write_status`: per-bit clear/set pairs, and the HLE
    /// signature check when the write starts the RSP running.
    #[verifier::rlimit(100)]
    pub fn write_status_reg(&mut self, value: u32)
        requires
            old(self).wf(),
        ensures
            final(self).wf(),
            *final(self) == spec_rsp_write_status(*old(self), value),
    {
        let is_halted_or_broke = self.status.halt || self.status.broke;

        let status = RspStatusReg {
            halt: if value & 2 != 0 {
                true
            } else if value & 1 != 0 {
                false
            } else {
                self.status.halt
            },
            broke: if value & 4 != 0 {
                false
            } else {
                self.status.broke
            },
            interrupt_enable: if value & 0x10 != 0 {
                true
            } else if value & 8 != 0 {
                false
            } else {
                self.status.interrupt_enable
            },
            sstep: if value & 0x40 != 0 {
                true
            } else if value & 0x20 != 0 {
                false
            } else {
                self.status.sstep
            },
            interrupt_on_break: if value & 0x100 != 0 {
                true
            } else if value & 0x80 != 0 {
                false
            } else {
                self.status.interrupt_on_break
            },
            signal0: if value & 0x400 != 0 {
                true
            } else if value & 0x200 != 0 {
                false
            } else {
                self.status.signal0
            },
            signal1: if value & 0x1000 != 0 {
                true
            } else if value & 0x800 != 0 {
                false
            } else {
                self.status.signal1
            },
            signal2: if value & 0x4000 != 0 {
                true
            } else if value & 0x2000 != 0 {
                false
            } else {
                self.status.signal2
            },
            signal3: if value & 0x10000 != 0 {
                true
            } else if value & 0x8000 != 0 {
                false
            } else {
                self.status.signal3
            },
            signal4: if value & 0x40000 != 0 {
                true
            } else if value & 0x20000 != 0 {
                false
            } else {
                self.status.signal4
            },
            signal5: if value & 0x100000 != 0 {
                true
            } else if value & 0x80000 != 0 {
                false
            } else {
                self.status.signal5
            },
            signal6: if value & 0x400000 != 0 {
                true
            } else if value & 0x200000 != 0 {
                false
            } else {
                self.status.signal6
            },
            signal7: if value & 0x1000000 != 0 {
                true
            } else if value & 0x800000 != 0 {
                false
            } else {
                self.status.signal7
            },
            ..self.status
        };
        self.status = status;

        // The RSP was just reactivated: look for a task this core can run
        // directly.
        if is_halted_or_broke && !self.status.halt && !self.status.broke {
            self.try_hle_emulation();
        }
    }

    /// Runs the HLE signature check (see `spec_hle_detect`) and schedules the
    /// recognized operation, or clears any stale one.
    pub fn try_hle_emulation(&mut self)
        requires
            old(self).wf(),
        ensures
            final(self).wf(),
            *final(self) == (RspRegs {
                hle_operation: spec_hle_detect(old(self).dmem@, old(self).imem@),
                ..*old(self)
            }),
    {
        self.hle_operation = None;

        let task_ucode_boot_size = match self.read_dmem(0xfcc) {
            Ok(w) => w,
            Err(_) => {
                proof {
                    assert(false);
                }
                0
            },
        };
        if task_ucode_boot_size > 1000 {
            let mut sum: u32 = 0;
            let mut i: usize = 0;
            while i < 44
                invariant
                    self.wf(),
                    i <= 44,
                    sum == spec_byte_sum(self.imem@, i as int),
                    sum <= 255 * i,
                decreases 44 - i,
            {
                sum = sum + self.imem[i] as u32;
                i = i + 1;
            }
            if sum == 0x9e2 {
                self.hle_operation = Some(RspHleOperation::Cicx105Ucode);
            }
        }
    }

    /// The DMA busy register always reads 0 in this core.
    pub fn read_dma_busy_reg(&self) -> (r: u32)
        ensures
            r == 0u32,
    {
        0
    }

    /// The DMA busy register is read-only: every write is a fatal fault.
    pub fn write_dma_busy_reg(&self, value: u32) -> (r: Result<(), Fault>)
        ensures
            r == Err::<(), Fault>(Fault::WriteToDmaBusy(value)),
    {
        Err(Fault::WriteToDmaBusy(value))
    }

    /// Accepted and discarded; the semaphore is not modelled.
    pub fn write_semaphore_reg(&mut self, value: u32)
        ensures
            *final(self) == *old(self),
    {
        let _ = value;
    }

    pub fn read_pc_reg(&self) -> (r: u32)
        ensures
            r == self.pc,
    {
        self.pc
    }

    pub fn write_pc_reg(&mut self, value: u32)
        ensures
            *final(self) == (RspRegs { pc: value, ..*old(self) }),
    {
        self.pc = value;
    }
}

/// Reading an RSP general purpose register: index 0 always reads 0.
pub open spec fn spec_read_gpr32(gprs: Seq<u32>, index: int) -> u32 {
    if index == 0 {
        0
    } else {
        gprs[index]
    }
}

/// Writing an RSP general purpose register: a write to index 0 is discarded.
pub open spec fn spec_write_gpr32(gprs: Seq<u32>, index: int, value: u32) -> Seq<u32> {
    if index == 0 {
        gprs
    } else {
        gprs.update(index, value)
    }
}

/// The effect of one RSP instruction on the register file, the delay-slot
/// latch, and the bus (which holds the task counter and status): the
/// spec-level interpreter `Rsp::execute_instruction` is held to.
pub open spec fn spec_rsp_execute(
    gprs: Seq<u32>,
    delay: Option<u32>,
    s: crate::interconnect::IcState,
    instr: crate::rsp_instruction::Instruction,
) -> Result<(Seq<u32>, Option<u32>, crate::interconnect::IcState), Fault> {
    let w = instr.0;
    let rs = spec_read_gpr32(gprs, ((w >> 21) & 0x1f) as int);
    let rt_i = ((w >> 16) & 0x1f) as int;
    let rt = spec_read_gpr32(gprs, rt_i);
    let rd_i = ((w >> 11) & 0x1f) as int;
    let sa = (w >> 6) & 0x1f;
    let imm = w & 0xffff;
    let imm_ext = crate::rsp_instruction::spec_imm_sign_extended32(w & 0xffff);
    let dmem_addr = vstd::wrapping::u32_specs::wrapping_add(rs, imm_ext) & 0x0fff;
    match crate::rsp_opcode::spec_decode_rsp_opcode((w >> 26) & 0x3f) {
        Option::None => Err(Fault::UnrecognizedInstruction(w)),
        Option::Some(op) => match op {
            crate::rsp_opcode::RspOpcode::Special => match crate::rsp_opcode::spec_decode_rsp_special(
                w & 0x3f,
            ) {
                Option::None => Err(Fault::UnrecognizedInstruction(w)),
                Option::Some(sop) => match sop {
                    RspSpecialOpcode::Sll => Ok(
                        (spec_write_gpr32(gprs, rd_i, rt << sa), delay, s),
                    ),
                    RspSpecialOpcode::Srl => Ok(
                        (spec_write_gpr32(gprs, rd_i, rt >> sa), delay, s),
                    ),
                    RspSpecialOpcode::Sra => Ok(
                        (spec_write_gpr32(gprs, rd_i, ((rt as i32) >> sa) as u32), delay, s),
                    ),
                    RspSpecialOpcode::Sllv => Ok(
                        (spec_write_gpr32(gprs, rd_i, rt << (rs & 0x1f)), delay, s),
                    ),
                    RspSpecialOpcode::Srlv => Ok(
                        (spec_write_gpr32(gprs, rd_i, rt >> (rs & 0x1f)), delay, s),
                    ),
                    RspSpecialOpcode::Srav => Ok(
                        (
                            spec_write_gpr32(gprs, rd_i, ((rt as i32) >> (rs & 0x1f)) as u32),
                            delay,
                            s,
                        ),
                    ),
                    RspSpecialOpcode::Break => Ok(
                        (
                            gprs,
                            delay,
                            crate::interconnect::IcState {
                                rsp_status: RspStatusReg { broke: true, ..s.rsp_status },
                                rsp_pc: 0,
                                ..s
                            },
                        ),
                    ),
                    RspSpecialOpcode::Add => Ok(
                        (
                            spec_write_gpr32(
                                gprs,
                                rd_i,
                                vstd::wrapping::u32_specs::wrapping_add(rs, rt),
                            ),
                            delay,
                            s,
                        ),
                    ),
                    RspSpecialOpcode::Addu => Ok(
                        (
                            spec_write_gpr32(
                                gprs,
                                rd_i,
                                vstd::wrapping::u32_specs::wrapping_add(rs, rt),
                            ),
                            delay,
                            s,
                        ),
                    ),
                    RspSpecialOpcode::Sub => Ok(
                        (
                            spec_write_gpr32(
                                gprs,
                                rd_i,
                                vstd::wrapping::u32_specs::wrapping_sub(rs, rt),
                            ),
                            delay,
                            s,
                        ),
                    ),
                    RspSpecialOpcode::Subu => Ok(
                        (
                            spec_write_gpr32(
                                gprs,
                                rd_i,
                                vstd::wrapping::u32_specs::wrapping_sub(rs, rt),
                            ),
                            delay,
                            s,
                        ),
                    ),
                    RspSpecialOpcode::And => Ok(
                        (spec_write_gpr32(gprs, rd_i, rs & rt), delay, s),
                    ),
                    RspSpecialOpcode::Or => Ok(
                        (spec_write_gpr32(gprs, rd_i, rs | rt), delay, s),
                    ),
                    RspSpecialOpcode::Xor => Ok(
                        (spec_write_gpr32(gprs, rd_i, rs ^ rt), delay, s),
                    ),
                    RspSpecialOpcode::Nor => Ok(
                        (spec_write_gpr32(gprs, rd_i, !(rs | rt)), delay, s),
                    ),
                },
            },
            crate::rsp_opcode::RspOpcode::J => Ok(
                (
                    gprs,
                    Some(s.rsp_pc),
                    crate::interconnect::IcState {
                        rsp_pc: ((w & 0x3ff_ffff) << 2) & 0x0fff,
                        ..s
                    },
                ),
            ),
            crate::rsp_opcode::RspOpcode::Addi => Ok(
                (
                    spec_write_gpr32(
                        gprs,
                        rt_i,
                        vstd::wrapping::u32_specs::wrapping_add(rs, imm_ext),
                    ),
                    delay,
                    s,
                ),
            ),
            crate::rsp_opcode::RspOpcode::Addiu => Ok(
                (
                    spec_write_gpr32(
                        gprs,
                        rt_i,
                        vstd::wrapping::u32_specs::wrapping_add(rs, imm_ext),
                    ),
                    delay,
                    s,
                ),
            ),
            crate::rsp_opcode::RspOpcode::Andi => Ok(
                (spec_write_gpr32(gprs, rt_i, rs & imm), delay, s),
            ),
            crate::rsp_opcode::RspOpcode::Ori => Ok(
                (spec_write_gpr32(gprs, rt_i, rs | imm), delay, s),
            ),
            crate::rsp_opcode::RspOpcode::Xori => Ok(
                (spec_write_gpr32(gprs, rt_i, rs ^ imm), delay, s),
            ),
            crate::rsp_opcode::RspOpcode::Lui => Ok(
                (spec_write_gpr32(gprs, rt_i, imm << 16), delay, s),
            ),
            crate::rsp_opcode::RspOpcode::Lw => match crate::interconnect::spec_read_word(
                s,
                (SP_DMEM_START + dmem_addr) as u32,
            ) {
                Err(f) => Err(f),
                Ok(mem) => Ok((spec_write_gpr32(gprs, rt_i, mem), delay, s)),
            },
            crate::rsp_opcode::RspOpcode::Sh => {
                let reg = rt as u16;
                match crate::interconnect::spec_write_byte(
                    s,
                    (SP_DMEM_START + dmem_addr) as u32,
                    (reg >> 8) as u8,
                ) {
                    Err(f) => Err(f),
                    Ok(s1) => match crate::interconnect::spec_write_byte(
                        s1,
                        (SP_DMEM_START + dmem_addr + 1) as u32,
                        (reg & 0xff) as u8,
                    ) {
                        Err(f) => Err(f),
                        Ok(s2) => Ok((gprs, delay, s2)),
                    },
                }
            },
            crate::rsp_opcode::RspOpcode::Sw => match crate::interconnect::spec_write_word(
                s,
                (SP_DMEM_START + dmem_addr) as u32,
                rt,
            ) {
                Err(f) => Err(f),
                Ok(s2) => Ok((gprs, delay, s2)),
            },
        },
    }
}

/// The staging phase of the CIC x105 HLE operation: 0x7C words copied from
/// RDRAM 0x1E8 into IMEM 0x120.
pub open spec fn spec_hle_stage(s: crate::interconnect::IcState, i: u32) -> Result<
    crate::interconnect::IcState,
    Fault,
>
    decreases 0x7c - i,
{
    if i >= 0x7c {
        Ok(s)
    } else {
        match crate::interconnect::spec_read_word(s, (0x01e8 + i * 4) as u32) {
            Err(f) => Err(f),
            Ok(val) => match crate::interconnect::spec_write_word(
                s,
                (0x0400_1000 + 0x0120 + i * 4) as u32,
                val,
            ) {
                Err(f) => Err(f),
                Ok(s2) => spec_hle_stage(s2, (i + 1) as u32),
            },
        }
    }
}

/// The scatter phase of the CIC x105 HLE operation: 24 pairs of IMEM words
/// written back over RDRAM, one pair every 0xFF0 bytes.
pub open spec fn spec_hle_scatter(
    s: crate::interconnect::IcState,
    dst: u32,
    src: u32,
    i: u32,
) -> Result<crate::interconnect::IcState, Fault>
    decreases 24 - i,
{
    if i >= 24 {
        Ok(s)
    } else {
        match crate::interconnect::spec_read_word(s, (0x0400_1000 + src) as u32) {
            Err(f) => Err(f),
            Ok(val1) => match crate::interconnect::spec_read_word(
                s,
                (0x0400_1000 + src + 4) as u32,
            ) {
                Err(f) => Err(f),
                Ok(val2) => match crate::interconnect::spec_write_word(s, dst, val1) {
                    Err(f) => Err(f),
                    Ok(s1) => match crate::interconnect::spec_write_word(
                        s1,
                        (dst + 4) as u32,
                        val2,
                    ) {
                        Err(f) => Err(f),
                        Ok(s2) => spec_hle_scatter(
                            s2,
                            (dst + 0xff0) as u32,
                            (src + 8) as u32,
                            (i + 1) as u32,
                        ),
                    },
                },
            },
        }
    }
}

/// The whole CIC x105 HLE operation: staging, then scattering.
pub open spec fn spec_hle_cicx105(s: crate::interconnect::IcState) -> Result<
    crate::interconnect::IcState,
    Fault,
> {
    match spec_hle_stage(s, 0) {
        Err(f) => Err(f),
        Ok(s2) => spec_hle_scatter(s2, 0x002f_b1f0, 0x0120, 0),
    }
}

/// One RSP step: nothing while halted or broke; a pending HLE operation runs
/// instead of an instruction (clearing the pending slot, then breaking and
/// halting); otherwise one instruction is fetched from IMEM — at the
/// delay-slot latch if one is pending (with the latch consumed), else at the
/// task counter with the counter advanced in its 12 bits — and executed per
/// `spec_rsp_execute`.
pub open spec fn spec_rsp_step(
    gprs: Seq<u32>,
    delay: Option<u32>,
    s: crate::interconnect::IcState,
) -> Result<(Seq<u32>, Option<u32>, crate::interconnect::IcState), Fault> {
    if s.rsp_status.halt || s.rsp_status.broke {
        Ok((gprs, delay, s))
    } else {
        let s0 = crate::interconnect::IcState { rsp_hle: Option::None, ..s };
        match s.rsp_hle {
            Some(RspHleOperation::Cicx105Ucode) => match spec_hle_cicx105(s0) {
                Err(f) => Err(f),
                Ok(s2) => Ok(
                    (
                        gprs,
                        delay,
                        crate::interconnect::IcState {
                            rsp_status: RspStatusReg { broke: true, halt: true, ..s2.rsp_status },
                            ..s2
                        },
                    ),
                ),
            },
            Option::None => match delay {
                Some(p) => match crate::interconnect::spec_read_word(
                    s0,
                    vstd::wrapping::u32_specs::wrapping_add(p, crate::mem_map::SP_IMEM_START),
                ) {
                    Err(f) => Err(f),
                    Ok(w) => spec_rsp_execute(
                        gprs,
                        Option::None,
                        s0,
                        crate::rsp_instruction::Instruction(w),
                    ),
                },
                Option::None => match crate::interconnect::spec_read_word(
                    s0,
                    vstd::wrapping::u32_specs::wrapping_add(
                        s.rsp_pc,
                        crate::mem_map::SP_IMEM_START,
                    ),
                ) {
                    Err(f) => Err(f),
                    Ok(w) => spec_rsp_execute(
                        gprs,
                        Option::None,
                        crate::interconnect::IcState {
                            rsp_pc: vstd::wrapping::u32_specs::wrapping_add(s.rsp_pc, 4) & 0x0fff,
                            ..s0
                        },
                        crate::rsp_instruction::Instruction(w),
                    ),
                },
            },
        }
    }
}

/// The RSP scalar interpreter: 32 32-bit general purpose registers (index 0
/// hard-wired to zero) and a branch delay-slot latch; the task program
/// counter lives in the memory-mapped `RspRegs` block.
pub struct Rsp {
    pub reg_gpr: Vec<u32>,

    pub delay_slot_pc: Option<u32>,
}

impl Rsp {
    /// The register file has its 32 slots and GPR 0 reads as zero.
    pub open spec fn wf(&self) -> bool {
        &&& self.reg_gpr@.len() == 32
        &&& self.reg_gpr@[0] == 0
    }

    pub fn new() -> (r: Rsp)
        ensures
            r.wf(),
            r.reg_gpr@ == Seq::new(32, |i: int| 0u32),
            r.delay_slot_pc is None,
    {
        let mut gpr: Vec<u32> = Vec::new();
        let mut i: usize = 0;
        while i < 32
            invariant
                i <= 32,
                gpr@ == Seq::new(i as nat, |j: int| 0u32),
            decreases 32 - i,
        {
            gpr.push(0);
            i = i + 1;
            proof {
                assert(gpr@ =~= Seq::new(i as nat, |j: int| 0u32));
            }
        }
        Rsp { reg_gpr: gpr, delay_slot_pc: None }
    }

    /// See `spec_read_gpr32`: GPR 0 reads 0.
    pub fn read_reg_gpr(&self, index: usize) -> (r: u32)
        requires
            self.wf(),
            index < 32,
        ensures
            r == spec_read_gpr32(self.reg_gpr@, index as int),
    {
        if index == 0 {
            0
        } else {
            self.reg_gpr[index]
        }
    }

    /// See `spec_write_gpr32`: a write to GPR 0 is discarded.
    pub fn write_reg_gpr(&mut self, index: usize, value: u32)
        requires
            old(self).wf(),
            index < 32,
        ensures
            final(self).wf(),
            final(self).reg_gpr@ == spec_write_gpr32(old(self).reg_gpr@, index as int, value),
            *final(self) == (Rsp { reg_gpr: final(self).reg_gpr, ..*old(self) }),
    {
        if index != 0 {
            self.reg_gpr.set(index, value);
        }
    }

    /// Writes an immediate-form result into `rt`.
    fn imm_instr(&mut self, instr: crate::rsp_instruction::Instruction, value: u32)
        requires
            old(self).wf(),
        ensures
            final(self).wf(),
            final(self).reg_gpr@ == spec_write_gpr32(
                old(self).reg_gpr@,
                ((instr.0 >> 16) & 0x1f) as int,
                value,
            ),
            *final(self) == (Rsp { reg_gpr: final(self).reg_gpr, ..*old(self) }),
    {
        self.write_reg_gpr(instr.rt(), value);
    }

    /// Writes a register-form result into `rd`.
    fn reg_instr(&mut self, instr: crate::rsp_instruction::Instruction, value: u32)
        requires
            old(self).wf(),
        ensures
            final(self).wf(),
            final(self).reg_gpr@ == spec_write_gpr32(
                old(self).reg_gpr@,
                ((instr.0 >> 11) & 0x1f) as int,
                value,
            ),
            *final(self) == (Rsp { reg_gpr: final(self).reg_gpr, ..*old(self) }),
    {
        self.write_reg_gpr(instr.rd() as usize, value);
    }

    /// Fetches the RSP instruction word at task counter `pc`, which indexes
    /// IMEM through the bus.
    pub fn read_instruction(
        &self,
        interconnect: &crate::interconnect::Interconnect,
        pc: u32,
    ) -> (r: Result<crate::rsp_instruction::Instruction, Fault>)
        requires
            crate::interconnect::ic_wf(interconnect@),
        ensures
            match r {
                Ok(i) => crate::interconnect::spec_read_word(
                    interconnect@,
                    vstd::wrapping::u32_specs::wrapping_add(pc, crate::mem_map::SP_IMEM_START),
                ) == Ok::<u32, Fault>(i.0),
                Err(f) => crate::interconnect::spec_read_word(
                    interconnect@,
                    vstd::wrapping::u32_specs::wrapping_add(pc, crate::mem_map::SP_IMEM_START),
                ) == Err::<u32, Fault>(f),
            },
    {
        match interconnect.read_word(pc.wrapping_add(crate::mem_map::SP_IMEM_START)) {
            Ok(w) => Ok(crate::rsp_instruction::Instruction(w)),
            Err(f) => Err(f),
        }
    }

    /// Decodes and executes one RSP instruction (the scalar subset); see
    /// `spec_rsp_execute`. Unrecognized encodings and bus faults are fatal.
    #[verifier::rlimit(100)]
    pub fn execute_instruction(
        &mut self,
        interconnect: &mut crate::interconnect::Interconnect,
        instr: crate::rsp_instruction::Instruction,
    ) -> (r: Result<(), Fault>)
        requires
            old(self).wf(),
            crate::interconnect::ic_wf(old(interconnect)@),
        ensures
            final(self).wf(),
            crate::interconnect::ic_wf(final(interconnect)@),
            match r {
                Ok(()) => spec_rsp_execute(
                    old(self).reg_gpr@,
                    old(self).delay_slot_pc,
                    old(interconnect)@,
                    instr,
                ) == Ok::<(Seq<u32>, Option<u32>, crate::interconnect::IcState), Fault>(
                    (final(self).reg_gpr@, final(self).delay_slot_pc, final(interconnect)@),
                ),
                Err(f) => spec_rsp_execute(
                    old(self).reg_gpr@,
                    old(self).delay_slot_pc,
                    old(interconnect)@,
                    instr,
                ) == Err::<(Seq<u32>, Option<u32>, crate::interconnect::IcState), Fault>(f),
            },
    {
        let opcode = match instr.opcode() {
            Some(op) => op,
            None => {
                return Err(Fault::UnrecognizedInstruction(instr.0));
            },
        };
        match opcode {
            crate::rsp_opcode::RspOpcode::Special => {
                let special = match instr.special_op() {
                    Some(op) => op,
                    None => {
                        return Err(Fault::UnrecognizedInstruction(instr.0));
                    },
                };
                match special {
                    RspSpecialOpcode::Sll => {
                        let rt = self.read_reg_gpr(instr.rt());
                        self.reg_instr(instr, rt << instr.sa());
                    },
                    RspSpecialOpcode::Srl => {
                        let rt = self.read_reg_gpr(instr.rt());
                        self.reg_instr(instr, rt >> instr.sa());
                    },
                    RspSpecialOpcode::Sra => {
                        let rt = self.read_reg_gpr(instr.rt());
                        self.reg_instr(instr, ((rt as i32) >> instr.sa()) as u32);
                    },
                    RspSpecialOpcode::Sllv => {
                        let rs = self.read_reg_gpr(instr.rs());
                        let rt = self.read_reg_gpr(instr.rt());
                        proof {
                            assert(rs & 0x1f < 32) by (bit_vector);
                        }
                        self.reg_instr(instr, rt << (rs & 0x1f));
                    },
                    RspSpecialOpcode::Srlv => {
                        let rs = self.read_reg_gpr(instr.rs());
                        let rt = self.read_reg_gpr(instr.rt());
                        proof {
                            assert(rs & 0x1f < 32) by (bit_vector);
                        }
                        self.reg_instr(instr, rt >> (rs & 0x1f));
                    },
                    RspSpecialOpcode::Srav => {
                        let rs = self.read_reg_gpr(instr.rs());
                        let rt = self.read_reg_gpr(instr.rt());
                        proof {
                            assert(rs & 0x1f < 32) by (bit_vector);
                        }
                        self.reg_instr(instr, ((rt as i32) >> (rs & 0x1f)) as u32);
                    },
                    RspSpecialOpcode::Break => {
                        interconnect.rsp.status.broke = true;
                        interconnect.rsp.pc = 0;
                    },
                    RspSpecialOpcode::Add => {
                        let rs = self.read_reg_gpr(instr.rs());
                        let rt = self.read_reg_gpr(instr.rt());
                        self.reg_instr(instr, rs.wrapping_add(rt));
                    },
                    RspSpecialOpcode::Addu => {
                        let rs = self.read_reg_gpr(instr.rs());
                        let rt = self.read_reg_gpr(instr.rt());
                        self.reg_instr(instr, rs.wrapping_add(rt));
                    },
                    RspSpecialOpcode::Sub => {
                        let rs = self.read_reg_gpr(instr.rs());
                        let rt = self.read_reg_gpr(instr.rt());
                        self.reg_instr(instr, rs.wrapping_sub(rt));
                    },
                    RspSpecialOpcode::Subu => {
                        let rs = self.read_reg_gpr(instr.rs());
                        let rt = self.read_reg_gpr(instr.rt());
                        self.reg_instr(instr, rs.wrapping_sub(rt));
                    },
                    RspSpecialOpcode::And => {
                        let rs = self.read_reg_gpr(instr.rs());
                        let rt = self.read_reg_gpr(instr.rt());
                        self.reg_instr(instr, rs & rt);
                    },
                    RspSpecialOpcode::Or => {
                        let rs = self.read_reg_gpr(instr.rs());
                        let rt = self.read_reg_gpr(instr.rt());
                        self.reg_instr(instr, rs | rt);
                    },
                    RspSpecialOpcode::Xor => {
                        let rs = self.read_reg_gpr(instr.rs());
                        let rt = self.read_reg_gpr(instr.rt());
                        self.reg_instr(instr, rs ^ rt);
                    },
                    RspSpecialOpcode::Nor => {
                        let rs = self.read_reg_gpr(instr.rs());
                        let rt = self.read_reg_gpr(instr.rt());
                        self.reg_instr(instr, !(rs | rt));
                    },
                }
                Ok(())
            },
            crate::rsp_opcode::RspOpcode::J => {
                let delay_slot_pc = interconnect.rsp.pc;
                let jump_to = (instr.target() << 2) & 0x0fff;
                interconnect.rsp.pc = jump_to;
                self.delay_slot_pc = Some(delay_slot_pc);
                Ok(())
            },
            crate::rsp_opcode::RspOpcode::Addi => {
                let rs = self.read_reg_gpr(instr.rs());
                self.imm_instr(instr, rs.wrapping_add(instr.offset_sign_extended()));
                Ok(())
            },
            crate::rsp_opcode::RspOpcode::Addiu => {
                let rs = self.read_reg_gpr(instr.rs());
                self.imm_instr(instr, rs.wrapping_add(instr.offset_sign_extended()));
                Ok(())
            },
            crate::rsp_opcode::RspOpcode::Andi => {
                let rs = self.read_reg_gpr(instr.rs());
                self.imm_instr(instr, rs & instr.imm());
                Ok(())
            },
            crate::rsp_opcode::RspOpcode::Ori => {
                let rs = self.read_reg_gpr(instr.rs());
                self.imm_instr(instr, rs | instr.imm());
                Ok(())
            },
            crate::rsp_opcode::RspOpcode::Xori => {
                let rs = self.read_reg_gpr(instr.rs());
                self.imm_instr(instr, rs ^ instr.imm());
                Ok(())
            },
            crate::rsp_opcode::RspOpcode::Lui => {
                self.imm_instr(instr, instr.imm() << 16);
                Ok(())
            },
            crate::rsp_opcode::RspOpcode::Lw => {
                let base = self.read_reg_gpr(instr.rs());
                let dmem_addr = base.wrapping_add(instr.offset_sign_extended()) & 0x0fff;
                proof {
                    let v = base;
                    assert(forall|x: u32| #[trigger] (x & 0x0fffu32) <= 0x0fff) by (bit_vector);
                }
                let mem = match interconnect.read_word(SP_DMEM_START + dmem_addr) {
                    Ok(w) => w,
                    Err(f) => {
                        return Err(f);
                    },
                };
                self.write_reg_gpr(instr.rt(), mem);
                Ok(())
            },
            crate::rsp_opcode::RspOpcode::Sh => {
                let base = self.read_reg_gpr(instr.rs());
                let dmem_addr = base.wrapping_add(instr.offset_sign_extended()) & 0x0fff;
                proof {
                    assert(forall|x: u32| #[trigger] (x & 0x0fffu32) <= 0x0fff) by (bit_vector);
                }
                let reg = self.read_reg_gpr(instr.rt()) as u16;
                match interconnect.write_byte(SP_DMEM_START + dmem_addr, (reg >> 8) as u8) {
                    Ok(()) => {},
                    Err(f) => {
                        return Err(f);
                    },
                }
                match interconnect.write_byte(
                    SP_DMEM_START + dmem_addr + 1,
                    (reg & 0xff) as u8,
                ) {
                    Ok(()) => Ok(()),
                    Err(f) => Err(f),
                }
            },
            crate::rsp_opcode::RspOpcode::Sw => {
                let base = self.read_reg_gpr(instr.rs());
                let dmem_addr = base.wrapping_add(instr.offset_sign_extended()) & 0x0fff;
                proof {
                    assert(forall|x: u32| #[trigger] (x & 0x0fffu32) <= 0x0fff) by (bit_vector);
                }
                let reg = self.read_reg_gpr(instr.rt());
                match interconnect.write_word(SP_DMEM_START + dmem_addr, reg) {
                    Ok(()) => Ok(()),
                    Err(f) => Err(f),
                }
            },
        }
    }

    /// One RSP step. A halted or broke RSP does nothing. A pending HLE
    /// operation runs instead of an instruction: the CIC x105 boot ucode is
    /// reproduced by copying its staging block from RDRAM into IMEM and
    /// scattering it back over RDRAM, after which the RSP breaks and halts.
    /// Otherwise one instruction executes, from the delay-slot latch if one
    /// is pending, else from the task counter (which advances, wrapping in
    /// its 12 bits).
    #[verifier::rlimit(100)]
    #[verifier::loop_isolation(false)]
    pub fn step(&mut self, interconnect: &mut crate::interconnect::Interconnect) -> (r: Result<
        (),
        Fault,
    >)
        requires
            old(self).wf(),
            crate::interconnect::ic_wf(old(interconnect)@),
        ensures
            final(self).wf(),
            crate::interconnect::ic_wf(final(interconnect)@),
            old(interconnect)@.rsp_status.halt || old(interconnect)@.rsp_status.broke ==> r is Ok
                && *final(self) == *old(self) && *final(interconnect) == *old(interconnect),
            match r {
                Ok(()) => spec_rsp_step(
                    old(self).reg_gpr@,
                    old(self).delay_slot_pc,
                    old(interconnect)@,
                ) == Ok::<(Seq<u32>, Option<u32>, crate::interconnect::IcState), Fault>(
                    (final(self).reg_gpr@, final(self).delay_slot_pc, final(interconnect)@),
                ),
                Err(f) => spec_rsp_step(
                    old(self).reg_gpr@,
                    old(self).delay_slot_pc,
                    old(interconnect)@,
                ) == Err::<(Seq<u32>, Option<u32>, crate::interconnect::IcState), Fault>(f),
            },
    {
        if interconnect.rsp.status.halt || interconnect.rsp.status.broke {
            return Ok(());
        }

        let hle_op = interconnect.rsp.hle_operation;
        interconnect.rsp.hle_operation = None;
        match hle_op {
            Some(RspHleOperation::Cicx105Ucode) => {
                // Stage the ucode block: RDRAM 0x1E8 into IMEM 0x120.
                let ghost s0 = interconnect@;
                let mut i: u32 = 0;
                while i < 0x7c
                    invariant
                        crate::interconnect::ic_wf(interconnect@),
                        i <= 0x7c,
                        spec_hle_stage(s0, 0) == spec_hle_stage(interconnect@, i),
                    decreases 0x7c - i,
                {
                    let val = match interconnect.read_word(0x01e8 + i * 4) {
                        Ok(w) => w,
                        Err(f) => {
                            return Err(f);
                        },
                    };
                    match interconnect.write_word(0x0400_1000 + 0x0120 + i * 4, val) {
                        Ok(()) => {},
                        Err(f) => {
                            return Err(f);
                        },
                    }
                    i = i + 1;
                }

                // Scatter pairs of words back over RDRAM, one pair every
                // 0xFF0 bytes.
                let ghost s1 = interconnect@;
                let mut dst_addr: u32 = 0x002f_b1f0;
                let mut src_imem_addr: u32 = 0x0120;
                let mut i: u32 = 0;
                while i < 24
                    invariant
                        crate::interconnect::ic_wf(interconnect@),
                        i <= 24,
                        dst_addr == 0x002f_b1f0 + i * 0xff0,
                        src_imem_addr == 0x0120 + i * 8,
                        spec_hle_scatter(s1, 0x002f_b1f0, 0x0120, 0) == spec_hle_scatter(
                            interconnect@,
                            dst_addr,
                            src_imem_addr,
                            i,
                        ),
                    decreases 24 - i,
                {
                    let val1 = match interconnect.read_word(0x0400_1000 + src_imem_addr) {
                        Ok(w) => w,
                        Err(f) => {
                            return Err(f);
                        },
                    };
                    let val2 = match interconnect.read_word(0x0400_1000 + src_imem_addr + 4) {
                        Ok(w) => w,
                        Err(f) => {
                            return Err(f);
                        },
                    };
                    match interconnect.write_word(dst_addr, val1) {
                        Ok(()) => {},
                        Err(f) => {
                            return Err(f);
                        },
                    }
                    match interconnect.write_word(dst_addr + 4, val2) {
                        Ok(()) => {},
                        Err(f) => {
                            return Err(f);
                        },
                    }
                    dst_addr = dst_addr + 0xff0;
                    src_imem_addr = src_imem_addr + 0x8;
                    i = i + 1;
                }

                interconnect.rsp.status.broke = true;
                interconnect.rsp.status.halt = true;

                return Ok(());
            },
            None => {},
        }

        if let Some(pc) = self.delay_slot_pc {
            let instr = match self.read_instruction(interconnect, pc) {
                Ok(instr) => instr,
                Err(f) => {
                    return Err(f);
                },
            };
            self.delay_slot_pc = None;

            self.execute_instruction(interconnect, instr)
        } else {
            let reg_pc = interconnect.rsp.pc;
            let instr = match self.read_instruction(interconnect, reg_pc) {
                Ok(instr) => instr,
                Err(f) => {
                    return Err(f);
                },
            };

            let new_pc = reg_pc.wrapping_add(4);
            interconnect.rsp.pc = new_pc & 0x0fff;
            self.execute_instruction(interconnect, instr)
        }
    }
}

} // verus!
