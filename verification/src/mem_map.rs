//! The physical memory map: a pure function from a 32-bit physical address to
//! a tagged region (memory with an offset, or a named device register).

use vstd::prelude::*;

verus! {

pub const RDRAM_START: u32 = 0x0000_0000;
/// 8 MiB of main memory (expansion pak installed).
pub const RDRAM_LENGTH: u32 = 0x0080_0000;
pub const RDRAM_END: u32 = 0x007f_ffff;
pub const RDRAM_MODE_REG: u32 = 0x03f0_000c;

pub const SP_DMEM_START: u32 = 0x0400_0000;
pub const SP_DMEM_LENGTH: u32 = 0x0000_1000;
pub const SP_DMEM_END: u32 = 0x0400_0fff;

pub const SP_IMEM_START: u32 = 0x0400_1000;
pub const SP_IMEM_LENGTH: u32 = 0x0000_1000;
pub const SP_IMEM_END: u32 = 0x0400_1fff;

pub const SP_MEM_ADDR_REG: u32 = 0x0404_0000;
pub const SP_DRAM_ADDR_REG: u32 = 0x0404_0004;
pub const SP_RD_LEN_REG: u32 = 0x0404_0008;
pub const SP_WR_LEN_REG: u32 = 0x0404_000c;
pub const SP_STATUS_REG: u32 = 0x0404_0010;
pub const SP_DMA_BUSY_REG: u32 = 0x0404_0018;
pub const SP_SEMAPHORE_REG: u32 = 0x0404_001c;

pub const SP_PC_REG: u32 = 0x0408_0000;

pub const DPC_STATUS_REG: u32 = 0x0410_000c;

pub const MI_MODE_REG: u32 = 0x0430_0000;
pub const MI_VERSION_REG: u32 = 0x0430_0004;
pub const MI_INTR_MASK_REG: u32 = 0x0430_000c;

pub const AI_DRAM_ADDR_REG: u32 = 0x0450_0000;
pub const AI_LEN_REG: u32 = 0x0450_0004;
pub const AI_CONTROL_REG: u32 = 0x0450_0008;
pub const AI_STATUS_REG: u32 = 0x0450_000c;
pub const AI_DACRATE_REG: u32 = 0x0450_0010;
pub const AI_BITRATE_REG: u32 = 0x0450_0014;

pub const VI_STATUS_REG: u32 = 0x0440_0000;
pub const VI_ORIGIN_REG: u32 = 0x0440_0004;
pub const VI_WIDTH_REG: u32 = 0x0440_0008;
pub const VI_INTR_REG: u32 = 0x0440_000c;
pub const VI_CURRENT_REG: u32 = 0x0440_0010;
pub const VI_TIMING_REG: u32 = 0x0440_0014;
pub const VI_V_SYNC_REG: u32 = 0x0440_0018;
pub const VI_H_SYNC_REG: u32 = 0x0440_001c;
pub const VI_H_SYNC_LEAP_REG: u32 = 0x0440_0020;
pub const VI_H_START_REG: u32 = 0x0440_0024;
pub const VI_V_START_REG: u32 = 0x0440_0028;
pub const VI_V_BURST_REG: u32 = 0x0440_002c;
pub const VI_X_SCALE_REG: u32 = 0x0440_0030;
pub const VI_Y_SCALE_REG: u32 = 0x0440_0034;

pub const PI_DRAM_ADDRESS_REG: u32 = 0x0460_0000;
pub const PI_CART_ADDR_REG: u32 = 0x0460_0004;
pub const PI_WR_LEN_REG: u32 = 0x0460_000c;
pub const PI_STATUS_REG: u32 = 0x0460_0010;
pub const PI_BSD_DOM1_LAT_REG: u32 = 0x0460_0014;
pub const PI_BSD_DOM1_PWD_REG: u32 = 0x0460_0018;
pub const PI_BSD_DOM1_PGS_REG: u32 = 0x0460_001c;
pub const PI_BSD_DOM1_RLS_REG: u32 = 0x0460_0020;

pub const RI_MODE_REG: u32 = 0x0470_0000;
pub const RI_CONFIG_REG: u32 = 0x0470_0004;
pub const RI_CURRENT_LOAD_REG: u32 = 0x0470_0008;
pub const RI_SELECT_REG: u32 = 0x0470_000c;
pub const RI_REFRESH_REG: u32 = 0x0470_0010;

pub const SI_STATUS_REG: u32 = 0x0480_0018;

pub const CART_DOM1_ADDR2_START: u32 = 0x1000_0000;
pub const CART_DOM1_ADDR2_LENGTH: u32 = 0x0fc0_0000;
pub const CART_DOM1_ADDR2_END: u32 = 0x1fbf_ffff;

pub const PIF_ROM_START: u32 = 0x1fc0_0000;
pub const PIF_ROM_LENGTH: u32 = 0x0000_07c0;
pub const PIF_ROM_END: u32 = 0x1fc0_07bf;

pub const PIF_RAM_START: u32 = 0x1fc0_07c0;
pub const PIF_RAM_LENGTH: u32 = 0x0000_0040;
pub const PIF_RAM_END: u32 = 0x1fc0_07ff;

/// A decoded physical address: either a memory region together with the
/// offset into it, or a named device register.
#[derive(Debug, Clone, Copy, PartialEq, Eq, Structural)]
pub enum Addr {
    RdramMemory(u32),
    RdramModeReg,
    RdramUnknownReg(u32),

    SpDmem(u32),
    SpImem(u32),

    SpMemAddrReg,
    SpDramAddrReg,
    SpRdLenReg,
    SpWrLenReg,
    SpStatusReg,
    SpDmaBusyReg,
    SpSemaphoreReg,
    SpPcReg,

    DpcStatusReg,

    MiModeReg,
    MiVersionReg,
    MiIntrMaskReg,

    AiDramAddrReg,
    AiLenReg,
    AiControlReg,
    AiStatusReg,
    AiDacrateReg,
    AiBitrateReg,

    ViStatusReg,
    ViOriginReg,
    ViWidthReg,
    ViIntrReg,
    ViCurrentReg,
    ViTimingReg,
    ViVSyncReg,
    ViHSyncReg,
    ViHSyncLeapReg,
    ViHStartReg,
    ViVStartReg,
    ViVBurstReg,
    ViXScaleReg,
    ViYScaleReg,

    PiDramAddrReg,
    PiCartAddrReg,
    PiWrLenReg,
    PiStatusReg,
    PiBsdDom1LatReg,
    PiBsdDom1PwdReg,
    PiBsdDom1PgsReg,
    PiBsdDom1RlsReg,

    RiModeReg,
    RiConfigReg,
    RiCurrentLoadReg,
    RiRefreshReg,
    RiSelectReg,

    SiStatusReg,

    CartDom1(u32),

    PifRom(u32),
    PifRam(u32),
}

/// The memory map as a mathematical function. `None` is an unmapped address.
pub open spec fn spec_map_addr(addr: u32) -> Option<Addr> {
    if addr <= RDRAM_END {
        Some(Addr::RdramMemory(addr))
    } else if addr == RDRAM_MODE_REG {
        Some(Addr::RdramModeReg)
    } else if addr == 0x03f0_4004 || addr == 0x03f8_0004 || addr == 0x03f8_000c
        || addr == 0x03f8_0008 || addr == 0x03f8_0014 {
        Some(Addr::RdramUnknownReg(addr))
    } else if SP_DMEM_START <= addr <= SP_DMEM_END {
        Some(Addr::SpDmem((addr - SP_DMEM_START) as u32))
    } else if SP_IMEM_START <= addr <= SP_IMEM_END {
        Some(Addr::SpImem((addr - SP_IMEM_START) as u32))
    } else if addr == SP_MEM_ADDR_REG {
        Some(Addr::SpMemAddrReg)
    } else if addr == SP_DRAM_ADDR_REG {
        Some(Addr::SpDramAddrReg)
    } else if addr == SP_RD_LEN_REG {
        Some(Addr::SpRdLenReg)
    } else if addr == SP_WR_LEN_REG {
        Some(Addr::SpWrLenReg)
    } else if addr == SP_STATUS_REG {
        Some(Addr::SpStatusReg)
    } else if addr == SP_DMA_BUSY_REG {
        Some(Addr::SpDmaBusyReg)
    } else if addr == SP_SEMAPHORE_REG {
        Some(Addr::SpSemaphoreReg)
    } else if addr == SP_PC_REG {
        Some(Addr::SpPcReg)
    } else if addr == DPC_STATUS_REG {
        Some(Addr::DpcStatusReg)
    } else if addr == MI_MODE_REG {
        Some(Addr::MiModeReg)
    } else if addr == MI_VERSION_REG {
        Some(Addr::MiVersionReg)
    } else if addr == MI_INTR_MASK_REG {
        Some(Addr::MiIntrMaskReg)
    } else if addr == AI_DRAM_ADDR_REG {
        Some(Addr::AiDramAddrReg)
    } else if addr == AI_LEN_REG {
        Some(Addr::AiLenReg)
    } else if addr == AI_CONTROL_REG {
        Some(Addr::AiControlReg)
    } else if addr == AI_STATUS_REG {
        Some(Addr::AiStatusReg)
    } else if addr == AI_DACRATE_REG {
        Some(Addr::AiDacrateReg)
    } else if addr == AI_BITRATE_REG {
        Some(Addr::AiBitrateReg)
    } else if addr == VI_STATUS_REG {
        Some(Addr::ViStatusReg)
    } else if addr == VI_ORIGIN_REG {
        Some(Addr::ViOriginReg)
    } else if addr == VI_WIDTH_REG {
        Some(Addr::ViWidthReg)
    } else if addr == VI_INTR_REG {
        Some(Addr::ViIntrReg)
    } else if addr == VI_CURRENT_REG {
        Some(Addr::ViCurrentReg)
    } else if addr == VI_TIMING_REG {
        Some(Addr::ViTimingReg)
    } else if addr == VI_V_SYNC_REG {
        Some(Addr::ViVSyncReg)
    } else if addr == VI_H_SYNC_REG {
        Some(Addr::ViHSyncReg)
    } else if addr == VI_H_SYNC_LEAP_REG {
        Some(Addr::ViHSyncLeapReg)
    } else if addr == VI_H_START_REG {
        Some(Addr::ViHStartReg)
    } else if addr == VI_V_START_REG {
        Some(Addr::ViVStartReg)
    } else if addr == VI_V_BURST_REG {
        Some(Addr::ViVBurstReg)
    } else if addr == VI_X_SCALE_REG {
        Some(Addr::ViXScaleReg)
    } else if addr == VI_Y_SCALE_REG {
        Some(Addr::ViYScaleReg)
    } else if addr == PI_DRAM_ADDRESS_REG {
        Some(Addr::PiDramAddrReg)
    } else if addr == PI_CART_ADDR_REG {
        Some(Addr::PiCartAddrReg)
    } else if addr == PI_WR_LEN_REG {
        Some(Addr::PiWrLenReg)
    } else if addr == PI_STATUS_REG {
        Some(Addr::PiStatusReg)
    } else if addr == PI_BSD_DOM1_LAT_REG {
        Some(Addr::PiBsdDom1LatReg)
    } else if addr == PI_BSD_DOM1_PWD_REG {
        Some(Addr::PiBsdDom1PwdReg)
    } else if addr == PI_BSD_DOM1_PGS_REG {
        Some(Addr::PiBsdDom1PgsReg)
    } else if addr == PI_BSD_DOM1_RLS_REG {
        Some(Addr::PiBsdDom1RlsReg)
    } else if addr == RI_MODE_REG {
        Some(Addr::RiModeReg)
    } else if addr == RI_CONFIG_REG {
        Some(Addr::RiConfigReg)
    } else if addr == RI_CURRENT_LOAD_REG {
        Some(Addr::RiCurrentLoadReg)
    } else if addr == RI_REFRESH_REG {
        Some(Addr::RiRefreshReg)
    } else if addr == RI_SELECT_REG {
        Some(Addr::RiSelectReg)
    } else if addr == SI_STATUS_REG {
        Some(Addr::SiStatusReg)
    } else if CART_DOM1_ADDR2_START <= addr <= CART_DOM1_ADDR2_END {
        Some(Addr::CartDom1((addr - CART_DOM1_ADDR2_START) as u32))
    } else if PIF_ROM_START <= addr <= PIF_ROM_END {
        Some(Addr::PifRom((addr - PIF_ROM_START) as u32))
    } else if PIF_RAM_START <= addr <= PIF_RAM_END {
        Some(Addr::PifRam((addr - PIF_RAM_START) as u32))
    } else {
        None
    }
}

/// Decodes a physical address; `None` is an unmapped address, which the bus
/// treats as a fatal fault.
pub fn map_addr(addr: u32) -> (r: Option<Addr>)
    ensures
        r == spec_map_addr(addr),
{
    if addr <= RDRAM_END {
        Some(Addr::RdramMemory(addr))
    } else if addr == RDRAM_MODE_REG {
        Some(Addr::RdramModeReg)
    } else if addr == 0x03f0_4004 || addr == 0x03f8_0004 || addr == 0x03f8_000c
        || addr == 0x03f8_0008 || addr == 0x03f8_0014 {
        Some(Addr::RdramUnknownReg(addr))
    } else if SP_DMEM_START <= addr && addr <= SP_DMEM_END {
        Some(Addr::SpDmem(addr - SP_DMEM_START))
    } else if SP_IMEM_START <= addr && addr <= SP_IMEM_END {
        Some(Addr::SpImem(addr - SP_IMEM_START))
    } else if addr == SP_MEM_ADDR_REG {
        Some(Addr::SpMemAddrReg)
    } else if addr == SP_DRAM_ADDR_REG {
        Some(Addr::SpDramAddrReg)
    } else if addr == SP_RD_LEN_REG {
        Some(Addr::SpRdLenReg)
    } else if addr == SP_WR_LEN_REG {
        Some(Addr::SpWrLenReg)
    } else if addr == SP_STATUS_REG {
        Some(Addr::SpStatusReg)
    } else if addr == SP_DMA_BUSY_REG {
        Some(Addr::SpDmaBusyReg)
    } else if addr == SP_SEMAPHORE_REG {
        Some(Addr::SpSemaphoreReg)
    } else if addr == SP_PC_REG {
        Some(Addr::SpPcReg)
    } else if addr == DPC_STATUS_REG {
        Some(Addr::DpcStatusReg)
    } else if addr == MI_MODE_REG {
        Some(Addr::MiModeReg)
    } else if addr == MI_VERSION_REG {
        Some(Addr::MiVersionReg)
    } else if addr == MI_INTR_MASK_REG {
        Some(Addr::MiIntrMaskReg)
    } else if addr == AI_DRAM_ADDR_REG {
        Some(Addr::AiDramAddrReg)
    } else if addr == AI_LEN_REG {
        Some(Addr::AiLenReg)
    } else if addr == AI_CONTROL_REG {
        Some(Addr::AiControlReg)
    } else if addr == AI_STATUS_REG {
        Some(Addr::AiStatusReg)
    } else if addr == AI_DACRATE_REG {
        Some(Addr::AiDacrateReg)
    } else if addr == AI_BITRATE_REG {
        Some(Addr::AiBitrateReg)
    } else if addr == VI_STATUS_REG {
        Some(Addr::ViStatusReg)
    } else if addr == VI_ORIGIN_REG {
        Some(Addr::ViOriginReg)
    } else if addr == VI_WIDTH_REG {
        Some(Addr::ViWidthReg)
    } else if addr == VI_INTR_REG {
        Some(Addr::ViIntrReg)
    } else if addr == VI_CURRENT_REG {
        Some(Addr::ViCurrentReg)
    } else if addr == VI_TIMING_REG {
        Some(Addr::ViTimingReg)
    } else if addr == VI_V_SYNC_REG {
        Some(Addr::ViVSyncReg)
    } else if addr == VI_H_SYNC_REG {
        Some(Addr::ViHSyncReg)
    } else if addr == VI_H_SYNC_LEAP_REG {
        Some(Addr::ViHSyncLeapReg)
    } else if addr == VI_H_START_REG {
        Some(Addr::ViHStartReg)
    } else if addr == VI_V_START_REG {
        Some(Addr::ViVStartReg)
    } else if addr == VI_V_BURST_REG {
        Some(Addr::ViVBurstReg)
    } else if addr == VI_X_SCALE_REG {
        Some(Addr::ViXScaleReg)
    } else if addr == VI_Y_SCALE_REG {
        Some(Addr::ViYScaleReg)
    } else if addr == PI_DRAM_ADDRESS_REG {
        Some(Addr::PiDramAddrReg)
    } else if addr == PI_CART_ADDR_REG {
        Some(Addr::PiCartAddrReg)
    } else if addr == PI_WR_LEN_REG {
        Some(Addr::PiWrLenReg)
    } else if addr == PI_STATUS_REG {
        Some(Addr::PiStatusReg)
    } else if addr == PI_BSD_DOM1_LAT_REG {
        Some(Addr::PiBsdDom1LatReg)
    } else if addr == PI_BSD_DOM1_PWD_REG {
        Some(Addr::PiBsdDom1PwdReg)
    } else if addr == PI_BSD_DOM1_PGS_REG {
        Some(Addr::PiBsdDom1PgsReg)
    } else if addr == PI_BSD_DOM1_RLS_REG {
        Some(Addr::PiBsdDom1RlsReg)
    } else if addr == RI_MODE_REG {
        Some(Addr::RiModeReg)
    } else if addr == RI_CONFIG_REG {
        Some(Addr::RiConfigReg)
    } else if addr == RI_CURRENT_LOAD_REG {
        Some(Addr::RiCurrentLoadReg)
    } else if addr == RI_REFRESH_REG {
        Some(Addr::RiRefreshReg)
    } else if addr == RI_SELECT_REG {
        Some(Addr::RiSelectReg)
    } else if addr == SI_STATUS_REG {
        Some(Addr::SiStatusReg)
    } else if CART_DOM1_ADDR2_START <= addr && addr <= CART_DOM1_ADDR2_END {
        Some(Addr::CartDom1(addr - CART_DOM1_ADDR2_START))
    } else if PIF_ROM_START <= addr && addr <= PIF_ROM_END {
        Some(Addr::PifRom(addr - PIF_ROM_START))
    } else if PIF_RAM_START <= addr && addr <= PIF_RAM_END {
        Some(Addr::PifRam(addr - PIF_RAM_START))
    } else {
        None
    }
}

} // verus!
