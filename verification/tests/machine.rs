//! Machine-level scenarios: boot fetch, sign extension, delay slots,
//! LWL/LWR merging, PI DMA, bus round trips, and framebuffer scan-out.

use rustendo64::cpu::INITIAL_PC;
use rustendo64::frame_sink::MostRecentFrameSink;
use rustendo64::interconnect::Interconnect;
use rustendo64::n64::N64;
use rustendo64::sinks::VideoFrame;
use rustendo64::Fault;

/// A 4 KiB cartridge whose checksum region reads as CIC 6102.
fn cart_6102() -> Vec<u8> {
    let mut cart = vec![0u8; 0x1000];
    cart[0xffc..0x1000].copy_from_slice(&[0x89, 0x26, 0x79, 0xfb]);
    cart
}

/// A boot ROM holding the given big-endian instruction words.
fn boot_rom(words: &[u32]) -> Vec<u8> {
    let mut rom = Vec::new();
    for w in words {
        rom.extend_from_slice(&w.to_be_bytes());
    }
    rom
}

fn sink() -> MostRecentFrameSink<VideoFrame> {
    MostRecentFrameSink::new()
}

#[test]
fn boot_fetch_advances_pc() {
    // A 4-byte boot ROM holding a single NOP (SLL r0, r0, 0).
    let mut n64 = N64::new(boot_rom(&[0x0000_0000]), cart_6102()).unwrap();
    assert_eq!(n64.cpu().current_pc_virt(), INITIAL_PC);
    let mut s = sink();
    n64.step(&mut s).unwrap();
    assert_eq!(n64.cpu().current_pc_virt(), INITIAL_PC + 4);
    assert_eq!(n64.cpu().read_reg_gpr(0), 0);
}

#[test]
fn unknown_cic_crc_refuses_construction() {
    let r = N64::new(boot_rom(&[0]), vec![0u8; 0x1000]);
    assert!(matches!(r, Err(Fault::UnknownCicCrc(0xe8b8_467d))));
}

#[test]
fn addu_sign_extends_result() {
    // ADDU r3, r1, r2 with r1 = 0x7FFFFFFF and r2 = 1: the 32-bit sum
    // 0x80000000 lands sign-extended in the 64-bit destination.
    let mut n64 = N64::new(boot_rom(&[0x0022_1821]), cart_6102()).unwrap();
    n64.cpu.write_reg_gpr(1, 0x0000_0000_7fff_ffff);
    n64.cpu.write_reg_gpr(2, 0x0000_0000_0000_0001);
    let mut s = sink();
    n64.step(&mut s).unwrap();
    assert_eq!(n64.cpu().read_reg_gpr(3), 0xffff_ffff_8000_0000);
}

#[test]
fn taken_branch_runs_delay_slot_then_target() {
    // BEQ r0, r0, +2 ; ORI r1, r0, 0x1234 ; LUI r1, 0xDEAD ; NOP ; NOP.
    // The branch is always taken: the ORI in the delay slot executes, the
    // LUI at the fall-through position is jumped over, and the target is the
    // word at branch_pc + 4 + 8.
    let program = [0x1000_0002, 0x3401_1234, 0x3c01_dead, 0x0000_0000, 0x0000_0000];
    let mut n64 = N64::new(boot_rom(&program), cart_6102()).unwrap();
    let mut s = sink();

    n64.step(&mut s).unwrap();
    // The branch latched the delay slot: it executes next.
    assert!(n64.cpu().will_execute_from_delay_slot());
    assert_eq!(n64.cpu().current_pc_virt(), INITIAL_PC + 4);

    n64.step(&mut s).unwrap();
    // The delay slot ran; the next fetch is the branch target.
    assert_eq!(n64.cpu().read_reg_gpr(1), 0x1234);
    assert_eq!(n64.cpu().current_pc_virt(), INITIAL_PC + 12);

    n64.step(&mut s).unwrap();
    // The LUI between delay slot and target never ran.
    assert_eq!(n64.cpu().read_reg_gpr(1), 0x1234);
}

#[test]
fn not_taken_branch_falls_through() {
    // BNE r0, r0, +2 ; ORI r1, r0, 0x1234: never taken, so the next
    // instruction executes normally.
    let program = [0x1400_0002, 0x3401_1234];
    let mut n64 = N64::new(boot_rom(&program), cart_6102()).unwrap();
    let mut s = sink();
    n64.step(&mut s).unwrap();
    assert!(!n64.cpu().will_execute_from_delay_slot());
    assert_eq!(n64.cpu().current_pc_virt(), INITIAL_PC + 4);
    n64.step(&mut s).unwrap();
    assert_eq!(n64.cpu().read_reg_gpr(1), 0x1234);
}

#[test]
fn not_taken_branch_likely_squashes_delay_slot() {
    // BNEL r0, r0, +2 ; ORI r1, r0, 0x1234 ; NOP: never taken, and the
    // likely form skips the delay slot instruction entirely.
    let program = [0x5400_0002, 0x3401_1234, 0x0000_0000];
    let mut n64 = N64::new(boot_rom(&program), cart_6102()).unwrap();
    let mut s = sink();
    n64.step(&mut s).unwrap();
    assert_eq!(n64.cpu().current_pc_virt(), INITIAL_PC + 8);
    n64.step(&mut s).unwrap();
    assert_eq!(n64.cpu().read_reg_gpr(1), 0);
}

#[test]
fn lwl_lwr_merge() {
    // RDRAM at 0x10 holds AA BB CC DD and 0x14 holds AA. With r1 all ones
    // and r2 pointing at kseg1 0x10, LWL r1, 1(r2) then LWR r1, 4(r2)
    // merges to 0xFFFFFFFF_BBCCDDAA per the unaligned-access table.
    let program = [0x8841_0001, 0x9841_0004];
    let mut n64 = N64::new(boot_rom(&program), cart_6102()).unwrap();
    for (i, b) in [0xaau8, 0xbb, 0xcc, 0xdd, 0xaa].iter().enumerate() {
        n64.interconnect.write_byte(0x10 + i as u32, *b).unwrap();
    }
    n64.cpu.write_reg_gpr(1, 0xffff_ffff_ffff_ffff);
    n64.cpu.write_reg_gpr(2, 0xffff_ffff_a000_0010);
    let mut s = sink();
    n64.step(&mut s).unwrap();
    assert_eq!(n64.cpu().read_reg_gpr(1), 0xffff_ffff_bbcc_ddff);
    n64.step(&mut s).unwrap();
    assert_eq!(n64.cpu().read_reg_gpr(1), 0xffff_ffff_bbcc_ddaa);
}

#[test]
fn division_by_zero_is_fatal() {
    // DIV r1, r0: the zero divisor is a fatal fault.
    let program = [0x0020_001a];
    let mut n64 = N64::new(boot_rom(&program), cart_6102()).unwrap();
    n64.cpu.write_reg_gpr(1, 7);
    let mut s = sink();
    assert_eq!(n64.step(&mut s), Err(Fault::DivisionByZero(0x0020_001a)));
}

#[test]
fn pi_dma_copies_cart_into_rdram() {
    // cart[i] = i for i < 0x100, with the checksum patched back to CIC 6102.
    let mut cart = vec![0u8; 0x1000];
    for i in 0..0x100 {
        cart[i] = i as u8;
    }
    cart[0xffc..0x1000].copy_from_slice(&[0xf7, 0xee, 0x82, 0x46]);

    let mut ic = Interconnect::new(vec![0; 4], cart).unwrap();
    // cart_addr = 0x10000000 (cart offset 0), dram_addr = 0, wr_len = 0xFE
    // (the transfer length becomes 0x100).
    ic.write_word(0x0460_0004, 0x1000_0000).unwrap();
    ic.write_word(0x0460_0000, 0x0000_0000).unwrap();
    ic.write_word(0x0460_000c, 0x0000_00fe).unwrap();
    // The DMA is pending until an interconnect tick drains it.
    assert_eq!(ic.read_word(0x0460_0010), Ok(1));

    let mut s = sink();
    ic.step(&mut s).unwrap();

    assert_eq!(ic.read_word(0x0460_0010), Ok(0));
    for i in 0..0x100u32 {
        assert_eq!(ic.read_byte(i), Ok(i as u8));
    }
    assert_eq!(ic.read_byte(0x100), Ok(0));
}

#[test]
fn byte_and_word_round_trips() {
    let mut ic = Interconnect::new(vec![0; 4], cart_6102()).unwrap();
    // RDRAM byte round trip.
    ic.write_byte(0x100, 0xab).unwrap();
    assert_eq!(ic.read_byte(0x100), Ok(0xab));
    // SP DMEM byte round trip.
    ic.write_byte(0x0400_0010, 0xcd).unwrap();
    assert_eq!(ic.read_byte(0x0400_0010), Ok(0xcd));
    // SP IMEM byte round trip.
    ic.write_byte(0x0400_1ffc, 0xef).unwrap();
    assert_eq!(ic.read_byte(0x0400_1ffc), Ok(0xef));
    // Aligned RDRAM word round trip.
    ic.write_word(0x0020, 0x1234_5678).unwrap();
    assert_eq!(ic.read_word(0x0020), Ok(0x1234_5678));
    // The word landed big-endian.
    assert_eq!(ic.read_byte(0x0020), Ok(0x12));
    assert_eq!(ic.read_byte(0x0023), Ok(0x78));
}

#[test]
fn bus_fault_values() {
    let mut ic = Interconnect::new(vec![0; 4], cart_6102()).unwrap();
    assert_eq!(ic.read_word(0x0900_0000), Err(Fault::UnmappedAddress(0x0900_0000)));
    assert_eq!(ic.write_word(0x1000_0000, 1), Err(Fault::WriteToRom(0x1000_0000)));
    assert_eq!(ic.write_word(0x1fc0_0000, 1), Err(Fault::WriteToRom(0x1fc0_0000)));
    assert_eq!(ic.write_byte(0x0440_0000, 1), Err(Fault::UnsupportedWriteByte(0x0440_0000)));
    assert_eq!(ic.read_byte(0x0404_0010), Err(Fault::UnsupportedReadByte(0x0404_0010)));
    // A word write to the read-only SP DMA busy register is refused.
    assert_eq!(ic.write_word(0x0404_0018, 1), Err(Fault::WriteToDmaBusy(1)));
}

#[test]
fn debug_probe_reads_only_pure_regions() {
    let mut ic = Interconnect::new(vec![0; 4], cart_6102()).unwrap();
    ic.write_word(0x0040, 0xaabb_ccdd).unwrap();
    assert_eq!(ic.read_word_debug(0x0040), Some(0xaabb_ccdd));
    assert_eq!(ic.read_word_debug(0x1fc0_0000), Some(0));
    // Device registers have no side-effect-free word read.
    assert_eq!(ic.read_word_debug(0x0460_0010), None);
    assert_eq!(ic.read_word_debug(0x0900_0000), None);
}

#[test]
fn framebuffer_scan_out_paces_one_frame_per_countdown() {
    let mut ic = Interconnect::new(vec![0; 4], cart_6102()).unwrap();
    // VI status = 2 (RGBA16), width = 320 (height derives to 240), origin 0.
    ic.write_word(0x0440_0000, 2).unwrap();
    ic.write_word(0x0440_0008, 320).unwrap();
    ic.write_word(0x0440_0004, 0).unwrap();
    // Two distinctive packed 5-5-5-1 pixels in the first framebuffer word.
    ic.write_word(0x0000, 0xffff_0002).unwrap();

    let mut s = sink();
    for _ in 0..99_999 {
        ic.step(&mut s).unwrap();
    }
    assert!(!s.has_frame());
    ic.step(&mut s).unwrap();
    let frame = s.into_frame().expect("one frame after exactly 100000 ticks");
    assert_eq!(frame.width, 320);
    assert_eq!(frame.height, 240);
    assert_eq!(frame.argb_data.len(), 320 * 240);
    // 0xFFFF unpacks to white (each 5-bit component re-placed high in its
    // byte, shifted left by 3); 0x0002 keeps only the low blue bit.
    assert_eq!(frame.argb_data[0], 0x00f8_f8f8);
    assert_eq!(frame.argb_data[1], 0x0000_0010);
    assert_eq!(frame.argb_data[2], 0x0000_0000);
}

#[test]
fn rsp_runs_a_stored_program() {
    let mut n64 = N64::new(boot_rom(&[0, 0, 0, 0]), cart_6102()).unwrap();
    // IMEM at 0: ORI r1, r0, 0x00AB ; SW r1, 0x10(r0) ; BREAK.
    n64.interconnect.write_word(0x0400_1000, 0x3401_00ab).unwrap();
    n64.interconnect.write_word(0x0400_1004, 0xac01_0010).unwrap();
    n64.interconnect.write_word(0x0400_1008, 0x0000_000d).unwrap();
    // Clear the halt bit so the RSP starts at task counter 0.
    n64.interconnect.write_word(0x0404_0010, 1).unwrap();

    let mut s = sink();
    for _ in 0..3 {
        n64.step(&mut s).unwrap();
    }
    // The store landed in DMEM, and the BREAK stopped the RSP.
    assert_eq!(n64.interconnect.read_word(0x0400_0010), Ok(0xab));
    let status = n64.interconnect.read_word(0x0404_0010).unwrap();
    assert_eq!(status & 1, 0);
    assert!(n64.interconnect.rsp.status.broke);
}

#[test]
fn jalr_links_and_jumps() {
    // JALR r31, r2 with r2 holding the address of the fourth word: the link
    // (the address after the delay slot) lands in r31, the delay slot runs,
    // and execution continues at the register target.
    let program = [0x0040_f809, 0x3401_1234, 0x0000_0000, 0x0000_0000];
    let mut n64 = N64::new(boot_rom(&program), cart_6102()).unwrap();
    n64.cpu.write_reg_gpr(2, INITIAL_PC + 12);
    let mut s = sink();
    n64.step(&mut s).unwrap();
    assert!(n64.cpu().will_execute_from_delay_slot());
    assert_eq!(n64.cpu().read_reg_gpr(31), INITIAL_PC + 8);
    n64.step(&mut s).unwrap();
    assert_eq!(n64.cpu().read_reg_gpr(1), 0x1234);
    assert_eq!(n64.cpu().current_pc_virt(), INITIAL_PC + 12);
}
