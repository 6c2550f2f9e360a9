//! Component-level tests: DMA chunking, the memory map, CRC-32, the PIF
//! seed handshake, instruction fields, register banks, and the translation.

use rustendo64::cp0::Cp0;
use rustendo64::cpu::Cpu;
use rustendo64::dma::DMARequest;
use rustendo64::frame_sink::MostRecentFrameSink;
use rustendo64::instruction::Instruction;
use rustendo64::mem_map::{map_addr, Addr};
use rustendo64::mips_interface::MipsInterface;
use rustendo64::opcode::Opcode;
use rustendo64::pif::{crc32, Pif};
use rustendo64::reg_cause::RegCause;
use rustendo64::rsp::RspRegs;
use rustendo64::sinks::{Sink, VideoFrame};
use rustendo64::video_interface::VideoInterface;
use rustendo64::Fault;

/// A 4 KiB cartridge whose checksum region reads as CIC 6102.
fn cart_6102() -> Vec<u8> {
    let mut cart = vec![0u8; 0x1000];
    cart[0xffc..0x1000].copy_from_slice(&[0x89, 0x26, 0x79, 0xfb]);
    cart
}

#[test]
fn dma_chunk_accounting() {
    let mut d = DMARequest { from: 0x100, to: 0x200, length: 0x30 };
    let chunk = d.get_chunk(0x20);
    assert_eq!(chunk.from, 0x100);
    assert_eq!(chunk.to, 0x200);
    assert_eq!(chunk.length, 0x20);
    assert_eq!(d.from, 0x120);
    assert_eq!(d.to, 0x220);
    assert_eq!(d.length, 0x10);

    let chunk = d.get_chunk(0x20);
    assert_eq!(chunk.length, 0x10);
    assert_eq!(d.length, 0);

    // An idle request stays idle and hands out only empty chunks.
    let chunk = d.get_chunk(0x20);
    assert_eq!(chunk.length, 0);
    assert_eq!(d.from, 0x130);
    assert!(!d.is_pending());
}

#[test]
fn dma_default_is_idle() {
    let d: DMARequest = Default::default();
    assert_eq!((d.from, d.to, d.length), (0, 0, 0));
}

#[test]
fn memory_map_regions() {
    assert_eq!(map_addr(0x0000_0000), Some(Addr::RdramMemory(0)));
    assert_eq!(map_addr(0x007f_ffff), Some(Addr::RdramMemory(0x7f_ffff)));
    assert_eq!(map_addr(0x0400_0000), Some(Addr::SpDmem(0)));
    assert_eq!(map_addr(0x0400_1000), Some(Addr::SpImem(0)));
    assert_eq!(map_addr(0x0404_0010), Some(Addr::SpStatusReg));
    assert_eq!(map_addr(0x0440_0008), Some(Addr::ViWidthReg));
    assert_eq!(map_addr(0x0460_000c), Some(Addr::PiWrLenReg));
    assert_eq!(map_addr(0x1000_0000), Some(Addr::CartDom1(0)));
    assert_eq!(map_addr(0x1fc0_0000), Some(Addr::PifRom(0)));
    assert_eq!(map_addr(0x1fc0_07c0), Some(Addr::PifRam(0)));
    assert_eq!(map_addr(0x1fc0_07ff), Some(Addr::PifRam(0x3f)));
    assert_eq!(map_addr(0x0900_0000), None);
    assert_eq!(map_addr(0xffff_ffff), None);
}

#[test]
fn crc32_known_values() {
    assert_eq!(crc32(&[]), 0);
    assert_eq!(crc32(b"123456789"), 0xcbf4_3926);
}

#[test]
fn pif_seed_cic_6102() {
    let mut pif = Pif::new(vec![0; 4]);
    let cart = cart_6102();
    pif.init_cic_seed(&cart).unwrap();
    // The big-endian seed bytes land in RAM[0x24..0x28].
    assert_eq!(pif.read_ram(0x24), Ok(0x0000_3f3f));
}

#[test]
fn pif_seed_cic_6105() {
    let mut pif = Pif::new(vec![0; 4]);
    let mut cart = vec![0u8; 0x1000];
    cart[0xffc..0x1000].copy_from_slice(&[0x8f, 0xe6, 0x5e, 0x21]);
    pif.init_cic_seed(&cart).unwrap();
    assert_eq!(pif.read_ram(0x24), Ok(0x0000_913f));
}

#[test]
fn pif_seed_unknown_crc() {
    let mut pif = Pif::new(vec![0; 4]);
    let cart = vec![0u8; 0x1000];
    let r = pif.init_cic_seed(&cart);
    assert_eq!(r, Err(Fault::UnknownCicCrc(0xe8b8_467d)));
    // The RAM is untouched on the fault.
    assert_eq!(pif.read_ram(0x24), Ok(0));
}

#[test]
fn pif_control_bytes() {
    let mut pif = Pif::new(vec![1, 2, 3, 4]);
    pif.write_ram(0x3c, 0x0000_0030).unwrap();
    assert_eq!(pif.read_ram(0x3c), Ok(0x0000_0080));
    pif.write_ram(0x3c, 0x0000_00c0).unwrap();
    assert_eq!(pif.read_ram(0x3c), Ok(0x0000_0040));
    pif.write_ram(0x3c, 0x0000_0008).unwrap();
    assert_eq!(pif.read_ram(0x3c), Ok(0x0000_0000));
    // Control byte 0x10 clears the whole boot ROM snapshot.
    assert_eq!(pif.read_boot_rom(0), Ok(0x0102_0304));
    pif.write_ram(0x3c, 0x0000_0010).unwrap();
    assert_eq!(pif.read_boot_rom(0), Ok(0));
}

#[test]
fn instruction_fields() {
    // LW r15, 0x123(r2)
    let i = Instruction(0x8c4f_0123);
    assert_eq!(i.opcode(), Some(Opcode::Lw));
    assert_eq!(i.rs(), 2);
    assert_eq!(i.rt(), 15);
    assert_eq!(i.imm(), 0x123);
    assert_eq!(i.imm_sign_extended(), 0x123);
    // A negative offset sign-extends through all 64 bits.
    let j = Instruction(0x8c4f_8000);
    assert_eq!(j.imm_sign_extended(), 0xffff_ffff_ffff_8000);
    // An unrecognized primary opcode decodes to nothing.
    assert_eq!(Instruction(0x4c00_0000).opcode(), None);
}

#[test]
fn gpr_zero_is_hard_wired() {
    let mut cpu = Cpu::new();
    cpu.write_reg_gpr(0, 0xdead_beef);
    assert_eq!(cpu.read_reg_gpr(0), 0);
    cpu.write_reg_gpr(7, 0xdead_beef);
    assert_eq!(cpu.read_reg_gpr(7), 0xdead_beef);
}

#[test]
fn kseg_translation() {
    let cpu = Cpu::new();
    assert_eq!(cpu.virt_addr_to_phys_addr(0xffff_ffff_8000_1234), Ok(0x1234));
    assert_eq!(cpu.virt_addr_to_phys_addr(0xffff_ffff_a000_0010), Ok(0x10));
    assert_eq!(cpu.virt_addr_to_phys_addr(0xffff_ffff_bfc0_0000), Ok(0x1fc0_0000));
    assert_eq!(
        cpu.virt_addr_to_phys_addr(0x0000_0000_0000_1234),
        Err(Fault::UnmappedVirtualAddress(0x1234))
    );
}

#[test]
fn cp1_register_file_is_bit_level() {
    let mut cpu = Cpu::new();
    cpu.write_reg_fpr(3, 0x4008_0000_0000_0000);
    assert_eq!(cpu.read_reg_fpr(3), 0x4008_0000_0000_0000);
    // The single lane is the low 32 bits; a single store zero-extends.
    cpu.write_reg_fpr_single(4, 0x4048_f5c3);
    assert_eq!(cpu.read_reg_fpr(4), 0x0000_0000_4048_f5c3);
    assert_eq!(cpu.read_reg_fpr_single(4), 0x4048_f5c3);
    // The compare flag is bit 23 of FCR31.
    cpu.set_cp1_compare_flag(true);
    assert_eq!(cpu.reg_fcr31, 0x0040_0000);
    cpu.set_cp1_compare_flag(false);
    assert_eq!(cpu.reg_fcr31, 0);
}

#[test]
fn cp0_compare_write_clears_timer_pending() {
    let mut cp0 = Cp0::default();
    cp0.reg_cause.ip_timer = true;
    cp0.write_reg(11, 0x1234).unwrap();
    assert!(!cp0.reg_cause.ip_timer);
    assert_eq!(cp0.reg_compare, 0x1234);
    // An unmodelled register index is a fault.
    assert_eq!(cp0.write_reg(7, 0), Err(Fault::UnrecognizedCp0Register(7)));
}

#[test]
fn tlbwi_commits_staged_entry() {
    let mut cp0 = Cp0::default();
    cp0.write_reg(0, 5).unwrap();  // Index
    cp0.write_reg(5, 0).unwrap();  // PageMask
    cp0.write_reg(10, 0x1234_5600).unwrap();  // EntryHi
    cp0.write_reg(2, 0x0000_0111).unwrap();  // EntryLo0 (global bit set)
    cp0.write_reg(3, 0x0000_0223).unwrap();  // EntryLo1 (global bit set)
    cp0.store_tlb_entry();
    let entry = cp0.tlb_entries[5];
    assert_eq!(entry.page_mask, 0);
    // VPN+ASID from EntryHi, with the global bit set since both lanes agree.
    assert_eq!(entry.entry_hi, 0x1234_5600 | 0x1000);
    // The staged PFN lanes land with their low bits cleared.
    assert_eq!(entry.entry_lo0, 0x0000_0110);
    assert_eq!(entry.entry_lo1, 0x0000_0222);
}

#[test]
fn cause_register_packing() {
    let c = RegCause::from_u32(0xffff_ffff);
    // Only the representable fields survive a round trip.
    assert_eq!(c.to_u32(), 0xb000_ff7c);
    let mut c = RegCause::default();
    assert_eq!(c.to_u32(), 0);
    c.setSoftwareInterruptPendingFields(0xffff_ffff);
    assert_eq!(c.to_u32(), 0x0000_0300);
}

#[test]
fn mips_interface_registers() {
    let mut mi = MipsInterface::new();
    assert_eq!(mi.read_version_reg(), 0x0101_0101);
    assert_eq!(mi.read_mode_reg(), 0);
    // Low 7 bits load the init length; bit 8 sets init mode.
    mi.write_mode_reg(0x17f);
    assert_eq!(mi.read_mode_reg(), 0xff);
    // Bit 7 clears init mode again.
    mi.write_mode_reg(0x80);
    assert_eq!(mi.read_mode_reg(), 0x00);
}

#[test]
fn rsp_status_and_dma_registers() {
    let mut rsp = RspRegs::new();
    // Freshly built, only the halt bit is set.
    assert_eq!(rsp.read_status_reg(), 1);

    // The mask folds the DMEM base into the SP memory address.
    rsp.write_mem_addr_reg(0xffff_ffff);
    assert_eq!(rsp.mem_addr, 0x0400_1fff);
    rsp.write_mem_addr_reg(0x10);
    assert_eq!(rsp.mem_addr, 0x10);

    rsp.write_dram_addr_reg(0xffff_ffff);
    assert_eq!(rsp.dram_addr, 0x00ff_ffff);

    // Arm a read DMA: the length is the 0xFFC-masked value plus 4.
    rsp.write_dram_addr_reg(0x100);
    rsp.write_mem_addr_reg(0x0400_0020);
    rsp.write_rd_len_reg(0x0ff3).unwrap();
    assert_eq!(rsp.dma_read.from, 0x100);
    assert_eq!(rsp.dma_read.to, 0x0400_0020);
    assert_eq!(rsp.dma_read.length, 0xff4);
    // The armed DMA reads back as busy.
    assert_eq!(rsp.read_status_reg() & 4, 4);

    // A multi-part DMA (non-zero count field) is a fault.
    assert_eq!(rsp.write_rd_len_reg(0x0000_1000), Err(Fault::MultiPartDma(0x1000)));
    // The DMA busy register is read-only.
    assert_eq!(rsp.write_dma_busy_reg(5), Err(Fault::WriteToDmaBusy(5)));
}

#[test]
fn rsp_status_write_bit_pairs() {
    let mut rsp = RspRegs::new();
    // Clear halt (bit 0) to start the RSP.
    rsp.write_status_reg(1);
    assert!(!rsp.status.halt);
    // Set signal 7 (bit 24), set halt again (bit 1).
    rsp.write_status_reg((1 << 24) | 2);
    assert!(rsp.status.halt);
    assert!(rsp.status.signal7);
    assert_eq!(rsp.read_status_reg(), 1 | 0x4000);
}

#[test]
fn video_interface_line_timing() {
    let mut vi = VideoInterface::new();
    vi.write_v_sync_reg(4);
    let mut scan_outs = 0;
    // Each line takes 548 ticks; the field wraps every 4 lines and announces
    // the scan-out on the line before the wrap.
    for _ in 0..(548 * 8) {
        if vi.step() {
            scan_outs += 1;
        }
    }
    assert_eq!(scan_outs, 2);
}

#[test]
fn video_interface_framebuffer_description() {
    let mut vi = VideoInterface::new();
    assert!(vi.framebuffer_description().is_none());
    vi.write_status_reg(2);
    // A format alone is not enough: the width must be programmed too.
    assert!(vi.framebuffer_description().is_none());
    vi.write_width_reg(320);
    let fb = vi.framebuffer_description().unwrap();
    assert_eq!(fb.width, 320);
    assert_eq!(fb.height, 240);
}

#[test]
fn most_recent_sink_keeps_latest() {
    let mut sink: MostRecentFrameSink<VideoFrame> = MostRecentFrameSink::new();
    assert!(!sink.has_frame());
    sink.append(VideoFrame { argb_data: vec![1], width: 1, height: 1 });
    sink.append(VideoFrame { argb_data: vec![2, 3], width: 2, height: 1 });
    assert!(sink.has_frame());
    let frame = sink.into_frame().unwrap();
    assert_eq!(frame.width, 2);
    assert_eq!(frame.argb_data, vec![2, 3]);
}
