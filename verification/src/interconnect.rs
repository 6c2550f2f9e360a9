//! The interconnect: the address-decoded bus that dispatches word and byte
//! accesses to RDRAM, SP memories, cartridge ROM, PIF and the device register
//! banks, drains DMA requests one chunk per tick, and paces framebuffer
//! scan-out.

use vstd::prelude::*;

use crate::audio_interface::AudioInterface;
use crate::bytes::{read_be_u32, spec_be_u32, spec_be_u32_store, write_be_u32};
use crate::dma::{spec_chunk, spec_rest, DMARequest};
use crate::mem_map::{
    map_addr, spec_map_addr, Addr, PIF_RAM_LENGTH, RDRAM_LENGTH, SP_DMEM_LENGTH, SP_IMEM_LENGTH,
};
use crate::mips_interface::{spec_mi_mode, spec_mi_write_intr_mask, spec_mi_write_mode,
    MipsInterface};
use crate::peripheral_interface::{PeripheralInterface, PI_DMA_CHUNK_SIZE};
use crate::pif::{spec_pif_write_ram, Pif};
use crate::rdp::Rdp;
use crate::rdram_interface::RdramInterface;
use crate::rsp::{
    spec_hle_detect, spec_rsp_status_update, spec_rsp_status_word, RspHleOperation, RspRegs,
    RSP_DMA_CHUNK_SIZE,
};
use crate::serial_interface::SerialInterface;
use crate::sinks::{Sink, VideoFrame, VideoFrameView};
use crate::video_interface::{
    spec_framebuffer_description, spec_timing_from, spec_vi_write_h_start, spec_vi_write_intr,
    spec_vi_write_origin, spec_vi_write_status, spec_vi_write_width, FramebufferDescription,
    FramebufferFormat, VideoInterface,
};
use crate::Fault;

verus! {

/// The interconnect restarts the frame countdown at this pacing constant;
/// one frame is scanned out every time it runs down.
pub const FRAME_COUNTDOWN: u32 = 100000;

pub struct Interconnect {
    pub rdram: Vec<u8>,

    pub pif: Pif,

    pub rsp: RspRegs,
    pub rdp: Rdp,

    pub mi: MipsInterface,
    pub ai: AudioInterface,
    pub vi: VideoInterface,

    pub pi: PeripheralInterface,
    pub ri: RdramInterface,
    pub si: SerialInterface,

    pub cart_rom: Vec<u8>,

    pub steps_to_next_frame: u32,
}

/// The mathematical image of the whole bus-visible machine state.
pub ghost struct IcState {
    pub rdram: Seq<u8>,
    pub cart: Seq<u8>,
    pub pif_boot: Seq<u8>,
    pub pif_ram: Seq<u8>,
    pub dmem: Seq<u8>,
    pub imem: Seq<u8>,

    pub rsp_pc: u32,
    pub rsp_status: crate::rsp::RspStatusReg,
    pub rsp_dram_addr: u32,
    pub rsp_mem_addr: u32,
    pub rsp_dma_read: DMARequest,
    pub rsp_hle: Option<RspHleOperation>,

    pub rdp: Rdp,
    pub mi: MipsInterface,
    pub ai: AudioInterface,
    pub vi: VideoInterface,
    pub pi: PeripheralInterface,
    pub ri: RdramInterface,
    pub si: SerialInterface,

    pub steps_to_next_frame: u32,
}

impl View for Interconnect {
    type V = IcState;

    open spec fn view(&self) -> IcState {
        IcState {
            rdram: self.rdram@,
            cart: self.cart_rom@,
            pif_boot: self.pif.boot_rom_bytes(),
            pif_ram: self.pif.ram_bytes(),
            dmem: self.rsp.dmem@,
            imem: self.rsp.imem@,

            rsp_pc: self.rsp.pc,
            rsp_status: self.rsp.status,
            rsp_dram_addr: self.rsp.dram_addr,
            rsp_mem_addr: self.rsp.mem_addr,
            rsp_dma_read: self.rsp.dma_read,
            rsp_hle: self.rsp.hle_operation,

            rdp: self.rdp,
            mi: self.mi,
            ai: self.ai,
            vi: self.vi,
            pi: self.pi,
            ri: self.ri,
            si: self.si,

            steps_to_next_frame: self.steps_to_next_frame,
        }
    }
}

/// Bus-state well-formedness: the memories have their fixed sizes, the frame
/// countdown stays within its cycle, and the programmed framebuffer stays
/// within the masks its register writes enforce.
pub open spec fn ic_wf(s: IcState) -> bool {
    &&& s.rdram.len() == RDRAM_LENGTH
    &&& s.dmem.len() == SP_DMEM_LENGTH
    &&& s.imem.len() == SP_IMEM_LENGTH
    &&& s.pif_ram.len() == PIF_RAM_LENGTH
    &&& 1 <= s.steps_to_next_frame <= FRAME_COUNTDOWN
    &&& s.vi.framebuffer.width <= 0x0fff
    &&& s.vi.framebuffer.height <= 0x0bff
    &&& s.vi.framebuffer.origin <= 0x00ff_ffff
}

/// A byte read: only RDRAM, SP DMEM/IMEM, and cartridge ROM are byte
/// readable.
pub open spec fn spec_read_byte(s: IcState, addr: u32) -> Result<u8, Fault> {
    match spec_map_addr(addr) {
        Option::None => Err(Fault::UnmappedAddress(addr)),
        Option::Some(region) => match region {
            Addr::RdramMemory(off) => Ok(s.rdram[off as int]),
            Addr::SpDmem(off) => Ok(s.dmem[off as int]),
            Addr::SpImem(off) => Ok(s.imem[off as int]),
            Addr::CartDom1(off) => if off < s.cart.len() {
                Ok(s.cart[off as int])
            } else {
                Err(Fault::OutOfBounds(off))
            },
            _ => Err(Fault::UnsupportedReadByte(addr)),
        },
    }
}

/// A byte write: only RDRAM and SP DMEM/IMEM are byte writable.
pub open spec fn spec_write_byte(s: IcState, addr: u32, value: u8) -> Result<IcState, Fault> {
    match spec_map_addr(addr) {
        Option::None => Err(Fault::UnmappedAddress(addr)),
        Option::Some(region) => match region {
            Addr::RdramMemory(off) => Ok(IcState { rdram: s.rdram.update(off as int, value), ..s }),
            Addr::SpDmem(off) => Ok(IcState { dmem: s.dmem.update(off as int, value), ..s }),
            Addr::SpImem(off) => Ok(IcState { imem: s.imem.update(off as int, value), ..s }),
            _ => Err(Fault::UnsupportedWriteByte(addr)),
        },
    }
}

/// A word read, dispatched over the memory map. Memory-like regions read
/// big-endian words; device registers read the values their banks' read
/// handlers give; everything else is a fatal fault.
pub open spec fn spec_read_word(s: IcState, addr: u32) -> Result<u32, Fault> {
    match spec_map_addr(addr) {
        Option::None => Err(Fault::UnmappedAddress(addr)),
        Option::Some(region) => match region {
            Addr::RdramMemory(off) => if off + 4 <= RDRAM_LENGTH {
                Ok(spec_be_u32(s.rdram, off as int))
            } else {
                Err(Fault::OutOfBounds(off))
            },
            Addr::RdramModeReg => Ok(0),
            Addr::SpDmem(off) => if off + 4 <= SP_DMEM_LENGTH {
                Ok(spec_be_u32(s.dmem, off as int))
            } else {
                Err(Fault::OutOfBounds(off))
            },
            Addr::SpImem(off) => if off + 4 <= SP_IMEM_LENGTH {
                Ok(spec_be_u32(s.imem, off as int))
            } else {
                Err(Fault::OutOfBounds(off))
            },
            Addr::SpStatusReg => Ok(
                spec_rsp_status_word(s.rsp_status, s.rsp_dma_read.length != 0),
            ),
            Addr::SpDmaBusyReg => Ok(0),
            Addr::SpPcReg => Ok(s.rsp_pc),
            Addr::DpcStatusReg => Ok(0),
            Addr::MiModeReg => Ok(spec_mi_mode(s.mi)),
            Addr::MiVersionReg => Ok(0x0101_0101),
            Addr::ViIntrReg => Ok(s.vi.interrupt_half_line),
            Addr::ViCurrentReg => Ok(s.vi.current_line),
            Addr::ViHStartReg => Ok(
                ((s.vi.active_video_start << 16) | s.vi.active_video_end) as u32,
            ),
            Addr::AiDramAddrReg => Ok(s.ai.dram_addr),
            Addr::AiLenReg => Ok(s.ai.length),
            Addr::PiStatusReg => Ok(
                if s.pi.dma_write.length != 0 {
                    1
                } else {
                    0
                },
            ),
            Addr::PiBsdDom1LatReg => Ok(0),
            Addr::PiBsdDom1PwdReg => Ok(0),
            Addr::PiBsdDom1PgsReg => Ok(0),
            Addr::PiBsdDom1RlsReg => Ok(0),
            Addr::RiSelectReg => Ok(0),
            Addr::RiRefreshReg => Ok(0),
            Addr::SiStatusReg => Ok(0),
            Addr::CartDom1(off) => if off + 4 <= s.cart.len() {
                Ok(spec_be_u32(s.cart, off as int))
            } else {
                Err(Fault::OutOfBounds(off))
            },
            Addr::PifRom(off) => if off + 4 <= s.pif_boot.len() {
                Ok(spec_be_u32(s.pif_boot, off as int))
            } else {
                Err(Fault::OutOfBounds(off))
            },
            Addr::PifRam(off) => if off + 4 <= PIF_RAM_LENGTH {
                Ok(spec_be_u32(s.pif_ram, off as int))
            } else {
                Err(Fault::OutOfBounds(off))
            },
            _ => Err(Fault::UnsupportedReadWord(addr)),
        },
    }
}

/// The debug probe: a word read only where it is side-effect free and
/// implemented (RDRAM, SP memories, PIF ROM and RAM), `None` anywhere else.
pub open spec fn spec_read_word_debug(s: IcState, addr: u32) -> Option<u32> {
    match spec_map_addr(addr) {
        Option::None => Option::None,
        Option::Some(region) => match region {
            Addr::RdramMemory(off) => if off + 4 <= RDRAM_LENGTH {
                Option::Some(spec_be_u32(s.rdram, off as int))
            } else {
                Option::None
            },
            Addr::SpDmem(off) => if off + 4 <= SP_DMEM_LENGTH {
                Option::Some(spec_be_u32(s.dmem, off as int))
            } else {
                Option::None
            },
            Addr::SpImem(off) => if off + 4 <= SP_IMEM_LENGTH {
                Option::Some(spec_be_u32(s.imem, off as int))
            } else {
                Option::None
            },
            Addr::PifRom(off) => if off + 4 <= s.pif_boot.len() {
                Option::Some(spec_be_u32(s.pif_boot, off as int))
            } else {
                Option::None
            },
            Addr::PifRam(off) => if off + 4 <= PIF_RAM_LENGTH {
                Option::Some(spec_be_u32(s.pif_ram, off as int))
            } else {
                Option::None
            },
            _ => Option::None,
        },
    }
}

/// A word write, dispatched over the memory map. Memory-like regions store
/// big-endian words; device registers update per their banks' write handlers;
/// ROM writes and unmapped or write-less regions are fatal faults, and a
/// fault leaves the state unchanged.
pub open spec fn spec_write_word(s: IcState, addr: u32, value: u32) -> Result<IcState, Fault> {
    match spec_map_addr(addr) {
        Option::None => Err(Fault::UnmappedAddress(addr)),
        Option::Some(region) => match region {
            Addr::RdramMemory(off) => if off + 4 <= RDRAM_LENGTH {
                Ok(IcState { rdram: spec_be_u32_store(s.rdram, off as int, value), ..s })
            } else {
                Err(Fault::OutOfBounds(off))
            },
            Addr::RdramModeReg => Ok(s),
            Addr::RdramUnknownReg(_) => Ok(s),
            Addr::SpDmem(off) => if off + 4 <= SP_DMEM_LENGTH {
                Ok(IcState { dmem: spec_be_u32_store(s.dmem, off as int, value), ..s })
            } else {
                Err(Fault::OutOfBounds(off))
            },
            Addr::SpImem(off) => if off + 4 <= SP_IMEM_LENGTH {
                Ok(IcState { imem: spec_be_u32_store(s.imem, off as int, value), ..s })
            } else {
                Err(Fault::OutOfBounds(off))
            },
            Addr::SpMemAddrReg => Ok(IcState { rsp_mem_addr: value & 0x0400_1fff, ..s }),
            Addr::SpDramAddrReg => Ok(IcState { rsp_dram_addr: value & 0x00ff_ffff, ..s }),
            Addr::SpRdLenReg => if (value >> 12) & 0xff == 0 {
                Ok(
                    IcState {
                        rsp_dma_read: DMARequest {
                            from: s.rsp_dram_addr,
                            to: s.rsp_mem_addr,
                            length: ((value & 0xffc) + 4) as u32,
                        },
                        ..s
                    },
                )
            } else {
                Err(Fault::MultiPartDma(value))
            },
            Addr::SpStatusReg => {
                let was_halted_or_broke = s.rsp_status.halt || s.rsp_status.broke;
                let status = spec_rsp_status_update(s.rsp_status, value);
                if was_halted_or_broke && !status.halt && !status.broke {
                    Ok(
                        IcState {
                            rsp_status: status,
                            rsp_hle: spec_hle_detect(s.dmem, s.imem),
                            ..s
                        },
                    )
                } else {
                    Ok(IcState { rsp_status: status, ..s })
                }
            },
            Addr::SpDmaBusyReg => Err(Fault::WriteToDmaBusy(value)),
            Addr::SpSemaphoreReg => Ok(s),
            Addr::SpPcReg => Ok(IcState { rsp_pc: value, ..s }),
            Addr::DpcStatusReg => Ok(s),
            Addr::MiModeReg => Ok(IcState { mi: spec_mi_write_mode(s.mi, value), ..s }),
            Addr::MiIntrMaskReg => Ok(IcState { mi: spec_mi_write_intr_mask(s.mi, value), ..s }),
            Addr::ViStatusReg => Ok(IcState { vi: spec_vi_write_status(s.vi, value), ..s }),
            Addr::ViOriginReg => Ok(IcState { vi: spec_vi_write_origin(s.vi, value), ..s }),
            Addr::ViWidthReg => Ok(IcState { vi: spec_vi_write_width(s.vi, value), ..s }),
            Addr::ViIntrReg => Ok(IcState { vi: spec_vi_write_intr(s.vi, value), ..s }),
            Addr::ViCurrentReg => Ok(s),
            Addr::ViTimingReg => Ok(
                IcState { vi: VideoInterface { timing_reg: spec_timing_from(value), ..s.vi }, ..s },
            ),
            Addr::ViVSyncReg => Ok(
                IcState { vi: VideoInterface { v_sync_reg: value, ..s.vi }, ..s },
            ),
            Addr::ViHSyncReg => Ok(
                IcState { vi: VideoInterface { h_sync_reg: value, ..s.vi }, ..s },
            ),
            Addr::ViHSyncLeapReg => Ok(s),
            Addr::ViHStartReg => Ok(IcState { vi: spec_vi_write_h_start(s.vi, value), ..s }),
            Addr::ViVStartReg => Ok(s),
            Addr::ViVBurstReg => Ok(s),
            Addr::ViXScaleReg => Ok(s),
            Addr::ViYScaleReg => Ok(s),
            Addr::AiDramAddrReg => Ok(
                IcState { ai: AudioInterface { dram_addr: value & 0x00ff_ffff, ..s.ai }, ..s },
            ),
            Addr::AiLenReg => Ok(
                IcState { ai: AudioInterface { length: value & 0x0003_fff8, ..s.ai }, ..s },
            ),
            Addr::AiControlReg => Ok(s),
            Addr::AiStatusReg => Ok(s),
            Addr::AiDacrateReg => Ok(s),
            Addr::AiBitrateReg => Ok(s),
            Addr::PiDramAddrReg => Ok(
                IcState {
                    pi: PeripheralInterface { dram_addr: value & 0x00ff_ffff, ..s.pi },
                    ..s
                },
            ),
            Addr::PiCartAddrReg => Ok(
                IcState { pi: PeripheralInterface { cart_addr: value, ..s.pi }, ..s },
            ),
            Addr::PiWrLenReg => Ok(
                IcState {
                    pi: PeripheralInterface {
                        dma_write: DMARequest {
                            from: s.pi.cart_addr,
                            to: s.pi.dram_addr,
                            length: ((value & 0x00ff_fffe) + 2) as u32,
                        },
                        ..s.pi
                    },
                    ..s
                },
            ),
            Addr::PiStatusReg => Ok(s),
            Addr::PiBsdDom1LatReg => Ok(s),
            Addr::PiBsdDom1PwdReg => Ok(s),
            Addr::PiBsdDom1PgsReg => Ok(s),
            Addr::PiBsdDom1RlsReg => Ok(s),
            Addr::RiModeReg => Ok(s),
            Addr::RiConfigReg => Ok(s),
            Addr::RiCurrentLoadReg => Ok(s),
            Addr::RiSelectReg => Ok(s),
            Addr::RiRefreshReg => Ok(s),
            Addr::SiStatusReg => Ok(s),
            Addr::CartDom1(_) => Err(Fault::WriteToRom(addr)),
            Addr::PifRom(_) => Err(Fault::WriteToRom(addr)),
            Addr::PifRam(off) => match spec_pif_write_ram(s.pif_boot, s.pif_ram, off, value) {
                Option::None => Err(Fault::OutOfBounds(off)),
                Option::Some((boot, ram)) => Ok(IcState { pif_boot: boot, pif_ram: ram, ..s }),
            },
            _ => Err(Fault::UnsupportedWriteWord(addr)),
        },
    }
}

/// A zero-filled byte buffer of length `n`.
fn zeroed(n: usize) -> (r: Vec<u8>)
    ensures
        r@ == Seq::new(n as nat, |i: int| 0u8),
{
    let mut v: Vec<u8> = Vec::new();
    let mut i: usize = 0;
    while i < n
        invariant
            i <= n,
            v@ == Seq::new(i as nat, |j: int| 0u8),
        decreases n - i,
    {
        v.push(0);
        i = i + 1;
        proof {
            assert(v@ =~= Seq::new(i as nat, |j: int| 0u8));
        }
    }
    v
}

impl Interconnect {
    /// Builds the bus: zeroed RDRAM, the PIF around the given boot ROM, reset
    /// device banks, the cartridge, and a full frame countdown, then selects
    /// the CIC seed from the cartridge checksum. An unknown checksum is a
    /// fatal fault.
    pub fn new(boot_rom: Vec<u8>, cart_rom: Vec<u8>) -> (r: Result<Interconnect, Fault>)
        requires
            cart_rom@.len() >= 0x1000,
        ensures
            ({
                let crc = crate::pif::spec_crc32(cart_rom@.subrange(0x40, 0x1000));
                let known = crc == 0x90bb_6cb5 || crc == 0x98bc_2c86;
                match r {
                    Ok(ic) => known && ic_wf(ic@) && ic@.rdram == Seq::new(
                        RDRAM_LENGTH as nat,
                        |i: int| 0u8,
                    ) && ic@.cart == cart_rom@ && ic@.pif_boot == boot_rom@ && ic@.pif_ram
                        == spec_be_u32_store(
                        Seq::new(PIF_RAM_LENGTH as nat, |i: int| 0u8),
                        0x24,
                        if crc == 0x90bb_6cb5 {
                            0x3f3fu32
                        } else {
                            0x913fu32
                        },
                    ) && ic@.dmem == Seq::new(SP_DMEM_LENGTH as nat, |i: int| 0u8) && ic@.imem
                        == Seq::new(SP_IMEM_LENGTH as nat, |i: int| 0u8) && ic@.rsp_pc == 0
                        && ic@.rsp_status.halt && !ic@.rsp_status.broke && ic@.rsp_dma_read.length
                        == 0 && ic@.rsp_hle is None && ic@.vi.framebuffer.width == 0
                        && ic@.vi.framebuffer.format is Blank && ic@.pi.dma_write.length == 0
                        && ic@.steps_to_next_frame == FRAME_COUNTDOWN,
                    Err(f) => !known && f == Fault::UnknownCicCrc(crc),
                }
            }),
    {
        let mut pif = Pif::new(boot_rom);
        match pif.init_cic_seed(cart_rom.as_slice()) {
            Ok(()) => {},
            Err(f) => {
                return Err(f);
            },
        }

        let interconnect = Interconnect {
            rdram: zeroed(RDRAM_LENGTH as usize),

            pif,

            rdp: Rdp,
            rsp: RspRegs::new(),

            mi: MipsInterface::new(),
            ai: Default::default(),
            vi: VideoInterface::new(),

            pi: Default::default(),
            ri: Default::default(),
            si: Default::default(),

            cart_rom,

            steps_to_next_frame: FRAME_COUNTDOWN,
        };

        Ok(interconnect)
    }

    /// Read-only access to the PIF for the boot handshake's observers.
    pub fn pif(&self) -> (r: &Pif)
        ensures
            *r == self.pif,
    {
        &self.pif
    }

    /// Mutable access to the RSP register block for the scalar core.
    pub fn rsp(&mut self) -> (r: &mut RspRegs)
        ensures
            *r == old(self).rsp,
            *final(self) == (Interconnect { rsp: *final(r), ..*old(self) }),
    {
        &mut self.rsp
    }

    /// See `spec_read_word_debug`.
    pub fn read_word_debug(&self, addr: u32) -> (r: Option<u32>)
        requires
            ic_wf(self@),
        ensures
            r == spec_read_word_debug(self@, addr),
    {
        match map_addr(addr) {
            Option::None => Option::None,
            Option::Some(region) => match region {
                Addr::RdramMemory(off) => if off + 4 <= RDRAM_LENGTH {
                    Option::Some(read_be_u32(&self.rdram, off as usize))
                } else {
                    Option::None
                },
                Addr::SpDmem(off) => match self.rsp.read_dmem(off) {
                    Ok(w) => Option::Some(w),
                    Err(_) => Option::None,
                },
                Addr::SpImem(off) => match self.rsp.read_imem(off) {
                    Ok(w) => Option::Some(w),
                    Err(_) => Option::None,
                },
                Addr::PifRom(off) => match self.pif.read_boot_rom(off) {
                    Ok(w) => Option::Some(w),
                    Err(_) => Option::None,
                },
                Addr::PifRam(off) => match self.pif.read_ram(off) {
                    Ok(w) => Option::Some(w),
                    Err(_) => Option::None,
                },
                _ => Option::None,
            },
        }
    }

    /// See `spec_read_word`.
    #[verifier::rlimit(100)]
    pub fn read_word(&self, addr: u32) -> (r: Result<u32, Fault>)
        requires
            ic_wf(self@),
        ensures
            r == spec_read_word(self@, addr),
    {
        match map_addr(addr) {
            Option::None => Err(Fault::UnmappedAddress(addr)),
            Option::Some(region) => match region {
                Addr::RdramMemory(off) => if off + 4 <= RDRAM_LENGTH {
                    Ok(read_be_u32(&self.rdram, off as usize))
                } else {
                    Err(Fault::OutOfBounds(off))
                },
                Addr::RdramModeReg => Ok(self.ri.read_rdram_mode_reg()),
                Addr::SpDmem(off) => self.rsp.read_dmem(off),
                Addr::SpImem(off) => self.rsp.read_imem(off),

                Addr::SpStatusReg => Ok(self.rsp.read_status_reg()),
                Addr::SpDmaBusyReg => Ok(self.rsp.read_dma_busy_reg()),
                Addr::SpPcReg => Ok(self.rsp.read_pc_reg()),

                Addr::DpcStatusReg => Ok(self.rdp.read_status_reg()),

                Addr::MiModeReg => Ok(self.mi.read_mode_reg()),
                Addr::MiVersionReg => Ok(self.mi.read_version_reg()),

                Addr::ViIntrReg => Ok(self.vi.read_intr_reg()),
                Addr::ViCurrentReg => Ok(self.vi.read_current_reg()),
                Addr::ViHStartReg => Ok(self.vi.read_h_start_reg()),

                Addr::AiDramAddrReg => Ok(self.ai.read_dram_addr_reg()),
                Addr::AiLenReg => Ok(self.ai.read_len_reg()),

                Addr::PiStatusReg => Ok(self.pi.read_status_reg()),
                Addr::PiBsdDom1LatReg => Ok(self.pi.read_bsd_dom1_lat_reg()),
                Addr::PiBsdDom1PwdReg => Ok(self.pi.read_bsd_dom1_pwd_reg()),
                Addr::PiBsdDom1PgsReg => Ok(self.pi.read_bsd_dom1_pgs_reg()),
                Addr::PiBsdDom1RlsReg => Ok(self.pi.read_bsd_dom1_rls_reg()),

                Addr::RiSelectReg => Ok(self.ri.read_select_reg()),
                Addr::RiRefreshReg => Ok(self.ri.read_refresh_reg()),

                Addr::SiStatusReg => Ok(self.si.read_status_reg()),

                Addr::CartDom1(off) => if (off as u64) + 4 <= self.cart_rom.len() as u64 {
                    Ok(read_be_u32(&self.cart_rom, off as usize))
                } else {
                    Err(Fault::OutOfBounds(off))
                },

                Addr::PifRom(off) => self.pif.read_boot_rom(off),
                Addr::PifRam(off) => self.pif.read_ram(off),

                _ => Err(Fault::UnsupportedReadWord(addr)),
            },
        }
    }

    /// See `spec_write_word`. A fault leaves the machine unchanged.
    #[verifier::rlimit(100)]
    pub fn write_word(&mut self, addr: u32, value: u32) -> (r: Result<(), Fault>)
        requires
            ic_wf(old(self)@),
        ensures
            ic_wf(final(self)@),
            match r {
                Ok(()) => spec_write_word(old(self)@, addr, value) == Ok::<IcState, Fault>(
                    final(self)@,
                ),
                Err(f) => spec_write_word(old(self)@, addr, value) == Err::<IcState, Fault>(f)
                    && *final(self) == *old(self),
            },
    {
        match map_addr(addr) {
            Option::None => Err(Fault::UnmappedAddress(addr)),
            Option::Some(region) => match region {
                Addr::RdramMemory(off) => if off + 4 <= RDRAM_LENGTH {
                    write_be_u32(&mut self.rdram, off as usize, value);
                    Ok(())
                } else {
                    Err(Fault::OutOfBounds(off))
                },
                Addr::RdramModeReg => {
                    self.ri.write_rdram_mode_reg(value);
                    Ok(())
                },
                Addr::RdramUnknownReg(_) => {
                    // Discarded, as the register is not understood.
                    Ok(())
                },

                Addr::SpDmem(off) => self.rsp.write_dmem(off, value),
                Addr::SpImem(off) => self.rsp.write_imem(off, value),

                Addr::SpMemAddrReg => {
                    self.rsp.write_mem_addr_reg(value);
                    Ok(())
                },
                Addr::SpDramAddrReg => {
                    self.rsp.write_dram_addr_reg(value);
                    Ok(())
                },
                Addr::SpRdLenReg => self.rsp.write_rd_len_reg(value),
                Addr::SpStatusReg => {
                    self.rsp.write_status_reg(value);
                    Ok(())
                },
                Addr::SpDmaBusyReg => self.rsp.write_dma_busy_reg(value),
                Addr::SpSemaphoreReg => {
                    self.rsp.write_semaphore_reg(value);
                    Ok(())
                },
                Addr::SpPcReg => {
                    self.rsp.write_pc_reg(value);
                    Ok(())
                },

                Addr::DpcStatusReg => {
                    self.rdp.write_status_reg(value);
                    Ok(())
                },

                Addr::MiModeReg => {
                    self.mi.write_mode_reg(value);
                    Ok(())
                },
                Addr::MiIntrMaskReg => {
                    self.mi.write_intr_mask_reg(value);
                    Ok(())
                },

                Addr::ViStatusReg => {
                    self.vi.write_status_reg(value);
                    Ok(())
                },
                Addr::ViOriginReg => {
                    self.vi.write_origin_reg(value);
                    proof {
                        assert(value & 0x00ff_ffff <= 0x00ff_ffff) by (bit_vector);
                    }
                    Ok(())
                },
                Addr::ViWidthReg => {
                    self.vi.write_width_reg(value);
                    proof {
                        assert(value & 0x0fff <= 0x0fff) by (bit_vector);
                        assert((value & 0x0fff) * 3 / 4 <= 0x0bff) by (nonlinear_arith)
                            requires value & 0x0fff <= 0x0fff;
                    }
                    Ok(())
                },
                Addr::ViIntrReg => {
                    self.vi.write_intr_reg(value);
                    Ok(())
                },
                Addr::ViCurrentReg => {
                    self.vi.write_current_reg(value);
                    Ok(())
                },
                Addr::ViTimingReg => {
                    self.vi.write_timing_reg(value);
                    Ok(())
                },
                Addr::ViVSyncReg => {
                    self.vi.write_v_sync_reg(value);
                    Ok(())
                },
                Addr::ViHSyncReg => {
                    self.vi.write_h_sync_reg(value);
                    Ok(())
                },
                Addr::ViHSyncLeapReg => {
                    self.vi.write_h_sync_leap_reg(value);
                    Ok(())
                },
                Addr::ViHStartReg => {
                    self.vi.write_h_start_reg(value);
                    Ok(())
                },
                Addr::ViVStartReg => {
                    self.vi.write_v_start_reg(value);
                    Ok(())
                },
                Addr::ViVBurstReg => {
                    self.vi.write_v_burst_reg(value);
                    Ok(())
                },
                Addr::ViXScaleReg => {
                    self.vi.write_x_scale_reg(value);
                    Ok(())
                },
                Addr::ViYScaleReg => {
                    self.vi.write_y_scale_reg(value);
                    Ok(())
                },

                Addr::AiDramAddrReg => {
                    self.ai.write_dram_addr_reg(value);
                    Ok(())
                },
                Addr::AiLenReg => {
                    self.ai.write_len_reg(value);
                    Ok(())
                },
                Addr::AiControlReg => {
                    self.ai.write_control_reg(value);
                    Ok(())
                },
                Addr::AiStatusReg => {
                    self.ai.write_status_reg(value);
                    Ok(())
                },
                Addr::AiDacrateReg => {
                    self.ai.write_dacrate_reg(value);
                    Ok(())
                },
                Addr::AiBitrateReg => {
                    self.ai.write_bitrate_reg(value);
                    Ok(())
                },

                Addr::PiDramAddrReg => {
                    self.pi.write_dram_addr_reg(value);
                    Ok(())
                },
                Addr::PiCartAddrReg => {
                    self.pi.write_cart_addr_reg(value);
                    Ok(())
                },
                Addr::PiWrLenReg => {
                    self.pi.write_wr_len_reg(value);
                    Ok(())
                },
                Addr::PiStatusReg => {
                    self.pi.write_status_reg(value);
                    Ok(())
                },
                Addr::PiBsdDom1LatReg => {
                    self.pi.write_bsd_dom1_lat_reg(value);
                    Ok(())
                },
                Addr::PiBsdDom1PwdReg => {
                    self.pi.write_bsd_dom1_pwd_reg(value);
                    Ok(())
                },
                Addr::PiBsdDom1PgsReg => {
                    self.pi.write_bsd_dom1_pgs_reg(value);
                    Ok(())
                },
                Addr::PiBsdDom1RlsReg => {
                    self.pi.write_bsd_dom1_rls_reg(value);
                    Ok(())
                },

                Addr::RiModeReg => {
                    self.ri.write_mode_reg(value);
                    Ok(())
                },
                Addr::RiConfigReg => {
                    self.ri.write_config_reg(value);
                    Ok(())
                },
                Addr::RiCurrentLoadReg => {
                    self.ri.write_current_load_reg(value);
                    Ok(())
                },
                Addr::RiSelectReg => {
                    self.ri.write_select_reg(value);
                    Ok(())
                },
                Addr::RiRefreshReg => {
                    self.ri.write_refresh_reg(value);
                    Ok(())
                },

                Addr::SiStatusReg => {
                    self.si.write_status_reg(value);
                    Ok(())
                },

                Addr::CartDom1(_) => Err(Fault::WriteToRom(addr)),
                Addr::PifRom(_) => Err(Fault::WriteToRom(addr)),
                Addr::PifRam(off) => self.pif.write_ram(off, value),

                _ => Err(Fault::UnsupportedWriteWord(addr)),
            },
        }
    }

    /// See `spec_read_byte`.
    pub fn read_byte(&self, addr: u32) -> (r: Result<u8, Fault>)
        requires
            ic_wf(self@),
        ensures
            r == spec_read_byte(self@, addr),
    {
        match map_addr(addr) {
            Option::None => Err(Fault::UnmappedAddress(addr)),
            Option::Some(region) => match region {
                Addr::RdramMemory(off) => Ok(self.rdram[off as usize]),
                Addr::SpDmem(off) => Ok(self.rsp.read_dmem_byte(off)),
                Addr::SpImem(off) => Ok(self.rsp.read_imem_byte(off)),
                Addr::CartDom1(off) => if (off as usize) < self.cart_rom.len() {
                    Ok(self.cart_rom[off as usize])
                } else {
                    Err(Fault::OutOfBounds(off))
                },
                _ => Err(Fault::UnsupportedReadByte(addr)),
            },
        }
    }

    /// See `spec_write_byte`. A fault leaves the machine unchanged.
    pub fn write_byte(&mut self, addr: u32, value: u8) -> (r: Result<(), Fault>)
        requires
            ic_wf(old(self)@),
        ensures
            ic_wf(final(self)@),
            match r {
                Ok(()) => spec_write_byte(old(self)@, addr, value) == Ok::<IcState, Fault>(
                    final(self)@,
                ),
                Err(f) => spec_write_byte(old(self)@, addr, value) == Err::<IcState, Fault>(f)
                    && *final(self) == *old(self),
            },
    {
        match map_addr(addr) {
            Option::None => Err(Fault::UnmappedAddress(addr)),
            Option::Some(region) => match region {
                Addr::RdramMemory(off) => {
                    self.rdram.set(off as usize, value);
                    Ok(())
                },
                Addr::SpDmem(off) => {
                    self.rsp.write_dmem_byte(off, value);
                    Ok(())
                },
                Addr::SpImem(off) => {
                    self.rsp.write_imem_byte(off, value);
                    Ok(())
                },
                _ => Err(Fault::UnsupportedWriteByte(addr)),
            },
        }
    }
}

/// One DMA chunk copied a byte at a time: for each `i < len`, the byte read
/// at `from + i` is written at `to + i`, in increasing order. Faults of the
/// underlying byte accesses propagate, as does address wrap-around.
pub open spec fn spec_dma_copy(s: IcState, from: u32, to: u32, len: u32) -> Result<IcState, Fault>
    decreases len,
{
    if len == 0 {
        Ok(s)
    } else {
        match spec_read_byte(s, from) {
            Err(f) => Err(f),
            Ok(b) => match spec_write_byte(s, to, b) {
                Err(f) => Err(f),
                Ok(s2) => if len == 1 {
                    Ok(s2)
                } else if from == 0xffff_ffffu32 {
                    Err(Fault::OutOfBounds(from))
                } else if to == 0xffff_ffffu32 {
                    Err(Fault::OutOfBounds(to))
                } else {
                    spec_dma_copy(s2, (from + 1) as u32, (to + 1) as u32, (len - 1) as u32)
                },
            },
        }
    }
}

/// A DMA copy lands only in the byte-writable memories: every register bank,
/// both ROMs, the PIF and the frame countdown come through unchanged.
#[verifier::rlimit(100)]
pub proof fn lemma_dma_copy_regs(s: IcState, from: u32, to: u32, len: u32)
    ensures
        spec_dma_copy(s, from, to, len) matches Ok(s2) ==> s2 == (IcState {
            rdram: s2.rdram,
            dmem: s2.dmem,
            imem: s2.imem,
            ..s
        }),
    decreases len,
{
    if len != 0 {
        match spec_read_byte(s, from) {
            Err(_) => {},
            Ok(b) => match spec_write_byte(s, to, b) {
                Err(_) => {},
                Ok(s2) => {
                    if len > 1 && from != 0xffff_ffffu32 && to != 0xffff_ffffu32 {
                        lemma_dma_copy_regs(
                            s2,
                            (from + 1) as u32,
                            (to + 1) as u32,
                            (len - 1) as u32,
                        );
                    }
                },
            },
        }
    }
}

/// The DMA phase of one interconnect tick: one chunk of the PI write DMA,
/// then one chunk of the RSP read DMA, each copied by `spec_dma_copy`.
pub open spec fn spec_dma_phase(s: IcState) -> Result<IcState, Fault> {
    let chunk1 = spec_chunk(s.pi.dma_write, PI_DMA_CHUNK_SIZE);
    let s1 = IcState {
        pi: PeripheralInterface {
            dma_write: spec_rest(s.pi.dma_write, PI_DMA_CHUNK_SIZE),
            ..s.pi
        },
        ..s
    };
    match spec_dma_copy(s1, chunk1.from, chunk1.to, chunk1.length) {
        Err(f) => Err(f),
        Ok(s2) => {
            let chunk2 = spec_chunk(s2.rsp_dma_read, RSP_DMA_CHUNK_SIZE);
            let s3 = IcState {
                rsp_dma_read: spec_rest(s2.rsp_dma_read, RSP_DMA_CHUNK_SIZE),
                ..s2
            };
            spec_dma_copy(s3, chunk2.from, chunk2.to, chunk2.length)
        },
    }
}

/// The high pixel of an RGBA16 framebuffer word, expanded to 24-bit ARGB:
/// each 5-bit component re-placed into the high bits of its byte.
pub open spec fn rgba16_hi(p: u32) -> u32 {
    ((((p >> 26) & 0x1f) << 19) | (((p >> 21) & 0x1f) << 11) | (((p >> 16) & 0x1f) << 3)) as u32
}

/// The low pixel of an RGBA16 framebuffer word, expanded to 24-bit ARGB.
pub open spec fn rgba16_lo(p: u32) -> u32 {
    ((((p >> 10) & 0x1f) << 19) | (((p >> 5) & 0x1f) << 11) | ((p & 0x1f) << 3)) as u32
}

/// Whether the `n` pixel words starting at `origin` all read successfully.
pub open spec fn scan_reads_ok(s: IcState, origin: u32, n: int) -> bool {
    forall|i: int| 0 <= i < n ==> #[trigger] spec_read_word(s, (origin + i * 4) as u32) is Ok
}

/// The scanned-out pixel sequence for framebuffer description `fb`, reading
/// every pixel word from the bus: RGBA32 words drop their alpha byte; RGBA16
/// words hold two packed 5-5-5-1 pixels each (an odd trailing pixel stays 0).
/// `None` when any pixel read faults.
pub open spec fn spec_scan_out(s: IcState, fb: FramebufferDescription) -> Option<Seq<u32>> {
    let size = fb.width * fb.height;
    match fb.format {
        FramebufferFormat::RGBA32Bit => if scan_reads_ok(s, fb.origin, size) {
            Option::Some(
                Seq::new(
                    size as nat,
                    |i: int| spec_read_word(s, (fb.origin + i * 4) as u32)->Ok_0 >> 8,
                ),
            )
        } else {
            Option::None
        },
        FramebufferFormat::RGBA16Bit => {
            let words = size / 2;
            if scan_reads_ok(s, fb.origin, words) {
                Option::Some(
                    Seq::new(
                        size as nat,
                        |j: int|
                            if j < 2 * words {
                                if j % 2 == 0 {
                                    rgba16_hi(
                                        spec_read_word(s, (fb.origin + (j / 2) * 4) as u32)->Ok_0,
                                    )
                                } else {
                                    rgba16_lo(
                                        spec_read_word(s, (fb.origin + (j / 2) * 4) as u32)->Ok_0,
                                    )
                                }
                            } else {
                                0u32
                            },
                    ),
                )
            } else {
                Option::None
            }
        },
        FramebufferFormat::Blank => Option::Some(Seq::new(size as nat, |i: int| 0u32)),
    }
}

impl Interconnect {
    /// Copies one DMA chunk byte by byte through the bus, so every byte lands
    /// in its addressed region. A fault stops the copy where it happened.
    fn do_dma(&mut self, dma: DMARequest) -> (r: Result<(), Fault>)
        requires
            ic_wf(old(self)@),
        ensures
            ic_wf(final(self)@),
            match r {
                Ok(()) => spec_dma_copy(old(self)@, dma.from, dma.to, dma.length) == Ok::<
                    IcState,
                    Fault,
                >(final(self)@),
                Err(f) => spec_dma_copy(old(self)@, dma.from, dma.to, dma.length) == Err::<
                    IcState,
                    Fault,
                >(f),
            },
    {
        let mut from = dma.from;
        let mut to = dma.to;
        let mut remaining = dma.length;
        while remaining > 0
            invariant
                ic_wf(self@),
                spec_dma_copy(old(self)@, dma.from, dma.to, dma.length) == spec_dma_copy(
                    self@,
                    from,
                    to,
                    remaining,
                ),
            decreases remaining,
        {
            let b = match self.read_byte(from) {
                Ok(b) => b,
                Err(f) => {
                    return Err(f);
                },
            };
            match self.write_byte(to, b) {
                Ok(()) => {},
                Err(f) => {
                    return Err(f);
                },
            }
            if remaining > 1 {
                if from == 0xffff_ffff {
                    return Err(Fault::OutOfBounds(from));
                }
                if to == 0xffff_ffff {
                    return Err(Fault::OutOfBounds(to));
                }
                from = from + 1;
                to = to + 1;
            }
            remaining = remaining - 1;
        }
        Ok(())
    }

    /// Builds the frame for the framebuffer description the VI currently
    /// exposes (see `spec_scan_out`).
    #[verifier::rlimit(100)]
    fn scan_out(&self, fb: FramebufferDescription) -> (r: Result<VideoFrame, Fault>)
        requires
            ic_wf(self@),
            spec_framebuffer_description(self@.vi) == Some(fb),
        ensures
            match r {
                Ok(frame) => spec_scan_out(self@, fb) == Some(frame@.argb_data) && frame@.width
                    == fb.width && frame@.height == fb.height,
                Err(_) => spec_scan_out(self@, fb) is None,
            },
    {
        let width = fb.width;
        let height = fb.height;
        proof {
            assert(width * height <= 0x0fff * 0x0bff) by (nonlinear_arith)
                requires
                    width <= 0x0fff,
                    height <= 0x0bff,
            ;
        }
        let size: usize = (width as usize) * (height as usize);
        let mut argb: Vec<u32> = Vec::new();

        match fb.format {
            FramebufferFormat::RGBA32Bit => {
                let mut i: usize = 0;
                while i < size
                    invariant
                        ic_wf(self@),
                        spec_framebuffer_description(self@.vi) == Some(fb),
                        size == fb.width * fb.height,
                        size <= 0x0fff * 0x0bff,
                        fb.origin <= 0x00ff_ffff,
                        fb.format is RGBA32Bit,
                        i <= size,
                        argb@.len() == i,
                        forall|k: int|
                            0 <= k < i ==> spec_read_word(
                                self@,
                                #[trigger] ((fb.origin + k * 4) as u32),
                            ) is Ok,
                        forall|k: int|
                            0 <= k < i ==> argb@[k] == spec_read_word(
                                self@,
                                #[trigger] ((fb.origin + k * 4) as u32),
                            )->Ok_0 >> 8,
                    decreases size - i,
                {
                    let addr = fb.origin + (i as u32) * 4;
                    proof {
                        assert(fb.origin + (i as int) * 4 < 0x1_0000_0000int);
                        assert(addr == (fb.origin + (i as int) * 4) as u32);
                    }
                    let w = match self.read_word(addr) {
                        Ok(w) => w,
                        Err(f) => {
                            proof {
                                assert(!(spec_read_word(
                                    self@,
                                    (fb.origin + (i as int) * 4) as u32,
                                ) is Ok));
                                assert(!scan_reads_ok(self@, fb.origin, fb.width * fb.height));
                                assert(spec_scan_out(self@, fb) is None);
                            }
                            return Err(f);
                        },
                    };
                    argb.push(w >> 8);
                    i = i + 1;
                }
                proof {
                    assert(argb@ =~= spec_scan_out(self@, fb)->Some_0);
                }
            },
            FramebufferFormat::RGBA16Bit => {
                let words = size / 2;
                let mut i: usize = 0;
                while i < words
                    invariant
                        ic_wf(self@),
                        spec_framebuffer_description(self@.vi) == Some(fb),
                        size == fb.width * fb.height,
                        size <= 0x0fff * 0x0bff,
                        words == size / 2,
                        fb.origin <= 0x00ff_ffff,
                        fb.format is RGBA16Bit,
                        i <= words,
                        argb@.len() == 2 * i,
                        forall|k: int|
                            0 <= k < i ==> spec_read_word(
                                self@,
                                #[trigger] ((fb.origin + k * 4) as u32),
                            ) is Ok,
                        forall|j: int|
                            0 <= j < 2 * i ==> argb@[j] == (if j % 2 == 0 {
                                rgba16_hi(
                                    spec_read_word(self@, ((fb.origin + (j / 2) * 4) as u32))->Ok_0,
                                )
                            } else {
                                rgba16_lo(
                                    spec_read_word(self@, ((fb.origin + (j / 2) * 4) as u32))->Ok_0,
                                )
                            }),
                    decreases words - i,
                {
                    let addr = fb.origin + (i as u32) * 4;
                    proof {
                        assert(fb.origin + (i as int) * 4 < 0x1_0000_0000int);
                        assert(addr == (fb.origin + (i as int) * 4) as u32);
                    }
                    let p = match self.read_word(addr) {
                        Ok(p) => p,
                        Err(f) => {
                            proof {
                                assert(!(spec_read_word(
                                    self@,
                                    (fb.origin + (i as int) * 4) as u32,
                                ) is Ok));
                                assert(!scan_reads_ok(
                                    self@,
                                    fb.origin,
                                    (fb.width * fb.height) / 2,
                                ));
                                assert(spec_scan_out(self@, fb) is None);
                            }
                            return Err(f);
                        },
                    };
                    argb.push((((p >> 26) & 0x1f) << 19) | (((p >> 21) & 0x1f) << 11) | (((p >> 16)
                        & 0x1f) << 3));
                    argb.push((((p >> 10) & 0x1f) << 19) | (((p >> 5) & 0x1f) << 11) | ((p & 0x1f)
                        << 3));
                    i = i + 1;
                }
                while argb.len() < size
                    invariant
                        ic_wf(self@),
                        spec_framebuffer_description(self@.vi) == Some(fb),
                        size == fb.width * fb.height,
                        words == size / 2,
                        fb.format is RGBA16Bit,
                        scan_reads_ok(self@, fb.origin, words as int),
                        2 * words <= size,
                        argb@.len() >= 2 * words,
                        argb@.len() <= size,
                        forall|j: int|
                            0 <= j < argb@.len() ==> argb@[j] == (if j < 2 * words {
                                if j % 2 == 0 {
                                    rgba16_hi(
                                        spec_read_word(
                                            self@,
                                            ((fb.origin + (j / 2) * 4) as u32),
                                        )->Ok_0,
                                    )
                                } else {
                                    rgba16_lo(
                                        spec_read_word(
                                            self@,
                                            ((fb.origin + (j / 2) * 4) as u32),
                                        )->Ok_0,
                                    )
                                }
                            } else {
                                0u32
                            }),
                    decreases size - argb@.len(),
                {
                    argb.push(0);
                }
                proof {
                    assert(argb@ =~= spec_scan_out(self@, fb)->Some_0);
                }
            },
            FramebufferFormat::Blank => {
                // `spec_framebuffer_description` never exposes a blank
                // framebuffer.
                proof {
                    assert(false);
                }
                return Err(Fault::UnsupportedReadWord(fb.origin));
            },
        }

        Ok(VideoFrame { argb_data: argb, width, height })
    }

    /// Whether one interconnect tick faults: its DMA phase faults, or the
    /// countdown runs out onto an exposed framebuffer whose scan-out faults.
    pub open spec fn spec_ic_step_fails(pre: IcState) -> bool {
        ||| spec_dma_phase(pre) matches Err(_)
        ||| {
            let s2 = spec_dma_phase(pre)->Ok_0;
            &&& spec_dma_phase(pre) matches Ok(_)
            &&& s2.steps_to_next_frame == 1
            &&& spec_framebuffer_description(s2.vi) is Some
            &&& spec_scan_out(
                IcState { steps_to_next_frame: FRAME_COUNTDOWN, ..s2 },
                spec_framebuffer_description(s2.vi)->Some_0,
            ) is None
        }
    }

    /// The fault-free effect of one interconnect tick from `pre`: the DMA
    /// phase runs, the countdown falls (restarting when it runs out), and on
    /// the restart the exposed framebuffer — if any — is scanned out and its
    /// frame is the one value appended to the sink history.
    pub open spec fn spec_ic_step_ok(
        pre: IcState,
        post: IcState,
        sunk_pre: Seq<VideoFrameView>,
        sunk_post: Seq<VideoFrameView>,
    ) -> bool {
        spec_dma_phase(pre) matches Ok(s2) && {
            let s2 = spec_dma_phase(pre)->Ok_0;
            if s2.steps_to_next_frame == 1 {
                let s3 = IcState { steps_to_next_frame: FRAME_COUNTDOWN, ..s2 };
                match spec_framebuffer_description(s3.vi) {
                    Some(fb) => post == s3 && spec_scan_out(s3, fb) is Some && sunk_post
                        == sunk_pre.push(
                        VideoFrameView {
                            argb_data: spec_scan_out(s3, fb)->Some_0,
                            width: fb.width,
                            height: fb.height,
                        },
                    ),
                    None => post == s3 && sunk_post == sunk_pre,
                }
            } else {
                post == (IcState {
                    steps_to_next_frame: (s2.steps_to_next_frame - 1) as u32,
                    ..s2
                }) && sunk_post == sunk_pre
            }
        }
    }

    /// The frame half of a tick: count down toward the next frame; when the
    /// countdown runs out it restarts at `FRAME_COUNTDOWN` and, if the VI
    /// exposes a framebuffer, the frame is scanned out and pushed into
    /// `frame_sink`.
    #[verifier::rlimit(100)]
    fn frame_tick<S: Sink<VideoFrame>>(&mut self, frame_sink: &mut S) -> (r: Result<(), Fault>)
        requires
            ic_wf(old(self)@),
        ensures
            ic_wf(final(self)@),
            r is Err <==> (old(self)@.steps_to_next_frame == 1 && spec_framebuffer_description(
                old(self)@.vi,
            ) is Some && spec_scan_out(
                IcState { steps_to_next_frame: FRAME_COUNTDOWN, ..old(self)@ },
                spec_framebuffer_description(old(self)@.vi)->Some_0,
            ) is None),
            match r {
                Ok(()) => if old(self)@.steps_to_next_frame == 1 {
                    let s3 = IcState { steps_to_next_frame: FRAME_COUNTDOWN, ..old(self)@ };
                    match spec_framebuffer_description(s3.vi) {
                        Some(fb) => final(self)@ == s3 && spec_scan_out(s3, fb) is Some && final(frame_sink).sunk() == old(frame_sink).sunk().push(
                            VideoFrameView {
                                argb_data: spec_scan_out(s3, fb)->Some_0,
                                width: fb.width,
                                height: fb.height,
                            },
                        ),
                        None => final(self)@ == s3 && final(frame_sink).sunk() == old(
                            frame_sink,
                        ).sunk(),
                    }
                } else {
                    final(self)@ == (IcState {
                        steps_to_next_frame: (old(self)@.steps_to_next_frame - 1) as u32,
                        ..old(self)@
                    }) && final(frame_sink).sunk() == old(frame_sink).sunk()
                },
                Err(_) => final(frame_sink).sunk() == old(frame_sink).sunk(),
            },
    {
        self.steps_to_next_frame = self.steps_to_next_frame - 1;
        if self.steps_to_next_frame == 0 {
            self.steps_to_next_frame = FRAME_COUNTDOWN;
            match self.vi.framebuffer_description() {
                Some(fb) => {
                    let frame = match self.scan_out(fb) {
                        Ok(frame) => frame,
                        Err(f) => {
                            return Err(f);
                        },
                    };
                    frame_sink.append(frame);
                },
                None => {},
            }
        }
        Ok(())
    }

    /// One interconnect tick: drain one chunk of the PI write DMA and one of
    /// the RSP read DMA byte by byte through the bus (so every byte lands in
    /// its addressed region), then run the frame countdown of `frame_tick`.
    #[verifier::rlimit(100)]
    pub fn step<S: Sink<VideoFrame>>(&mut self, frame_sink: &mut S) -> (r: Result<(), Fault>)
        requires
            ic_wf(old(self)@),
        ensures
            ic_wf(final(self)@),
            r is Err <==> Interconnect::spec_ic_step_fails(old(self)@),
            r is Ok ==> Interconnect::spec_ic_step_ok(
                old(self)@,
                final(self)@,
                old(frame_sink).sunk(),
                final(frame_sink).sunk(),
            ),
            r is Err ==> final(frame_sink).sunk() == old(frame_sink).sunk() && (spec_dma_phase(
                old(self)@,
            ) matches Err(f2) ==> r == Err::<(), Fault>(f2)),
    {
        // Execute one chunk of each pending DMA.
        let dma = self.pi.get_dma_write_chunk();
        match self.do_dma(dma) {
            Ok(()) => {},
            Err(f) => {
                return Err(f);
            },
        }
        let dma = self.rsp.get_dma_read_chunk();
        match self.do_dma(dma) {
            Ok(()) => {},
            Err(f) => {
                return Err(f);
            },
        }
        proof {
            assert(spec_dma_phase(old(self)@) == Ok::<IcState, Fault>(self@));
        }

        self.frame_tick(frame_sink)
    }
}

/// One step of the frame countdown: it runs from the pacing constant down to
/// 1 and restarts; a frame is scanned out exactly on the step that sees 1.
pub open spec fn spec_tick_countdown(c: u32) -> u32 {
    if c == 1 {
        FRAME_COUNTDOWN
    } else {
        (c - 1) as u32
    }
}

/// The countdown value after `k` ticks from `c`.
pub open spec fn spec_countdown_after(c: u32, k: nat) -> u32
    decreases k,
{
    if k == 0 {
        c
    } else {
        spec_tick_countdown(spec_countdown_after(c, (k - 1) as nat))
    }
}

/// Frame pacing: starting from a full countdown, the value after `k` ticks is
/// `FRAME_COUNTDOWN - k` for the first cycle, so among 100000 consecutive
/// ticks exactly one — the last — sees the value 1 and scans a frame out.
pub proof fn lemma_frame_pacing(k: nat)
    requires
        k < FRAME_COUNTDOWN,
    ensures
        spec_countdown_after(FRAME_COUNTDOWN, k) == FRAME_COUNTDOWN - k,
        spec_countdown_after(FRAME_COUNTDOWN, k) == 1 <==> k == (FRAME_COUNTDOWN - 1) as nat,
    decreases k,
{
    if k != 0 {
        lemma_frame_pacing((k - 1) as nat);
    }
}

/// Byte round trip: writing a byte anywhere a byte write lands (RDRAM or SP
/// memory) and reading the same address back returns that byte.
pub proof fn lemma_byte_round_trip(s: IcState, addr: u32, value: u8)
    requires
        ic_wf(s),
        spec_write_byte(s, addr, value) is Ok,
    ensures
        spec_read_byte(spec_write_byte(s, addr, value)->Ok_0, addr) == Ok::<u8, Fault>(value),
{
}

/// Word round trip: writing a word into RDRAM and reading the same address
/// back returns that word.
pub proof fn lemma_word_round_trip(s: IcState, addr: u32, value: u32)
    requires
        ic_wf(s),
        spec_map_addr(addr) matches Some(a) && a is RdramMemory,
        spec_write_word(s, addr, value) is Ok,
    ensures
        spec_read_word(spec_write_word(s, addr, value)->Ok_0, addr) == Ok::<u32, Fault>(value),
{
    let off = spec_map_addr(addr)->Some_0->RdramMemory_0;
    crate::bytes::lemma_be_u32_round_trip(s.rdram, off as int, value);
}

} // verus!
