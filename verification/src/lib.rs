//! Cycle-stepped model of a Nintendo 64 console core: the VR4300 main CPU
//! (with its CP0 system coprocessor and the CP1 register file), the RSP
//! auxiliary scalar core, and the memory interconnect that ties them to the
//! device register banks, boot/PIF memory, cartridge ROM, and main RDRAM.
//!
//! The machine advances one guest instruction at a time: `N64::step` runs one
//! CPU instruction, one RSP instruction (when the RSP is running), and one
//! interconnect tick (DMA chunks plus a paced framebuffer scan-out).
//!
//! Faults that the real machine would surface as undefined behaviour or that
//! this model does not implement (unknown opcodes, unmapped addresses,
//! unrecognized CIC checksums) are reported as `Fault` values so that no
//! verified function panics; the driver is expected to stop on a fault.

use vstd::prelude::*;

pub mod audio_interface;
pub mod bytes;
pub mod cp0;
pub mod cpu;
pub mod dma;
pub mod frame_sink;
pub mod instruction;
pub mod interconnect;
pub mod mem_map;
pub mod mips_interface;
pub mod n64;
pub mod opcode;
pub mod peripheral_interface;
pub mod pif;
pub mod rdp;
pub mod reg_cause;
pub mod rdram_interface;
pub mod rsp;
pub mod rsp_instruction;
pub mod rsp_opcode;
pub mod serial_interface;
pub mod sinks;
pub mod video_interface;

verus! {

/// A fatal machine fault. Every variant carries the offending value.
#[derive(Debug, Clone, Copy, PartialEq, Eq, Structural)]
pub enum Fault {
    /// A physical address that no region of the memory map recognizes.
    UnmappedAddress(u32),
    /// A virtual address outside the direct-mapped kseg0/kseg1 segments.
    UnmappedVirtualAddress(u64),
    /// A mapped region with no word-read handler.
    UnsupportedReadWord(u32),
    /// A mapped region with no word-write handler.
    UnsupportedWriteWord(u32),
    /// A mapped region with no byte-read handler.
    UnsupportedReadByte(u32),
    /// A mapped region with no byte-write handler.
    UnsupportedWriteByte(u32),
    /// A word write aimed at cartridge or PIF ROM.
    WriteToRom(u32),
    /// An access past the end of a backing buffer (short cart or boot ROM).
    OutOfBounds(u32),
    /// An instruction word whose opcode field decodes to nothing.
    UnrecognizedInstruction(u32),
    /// A CP0 register index with no modelled register.
    UnrecognizedCp0Register(u32),
    /// A cartridge checksum that matches no known CIC chip.
    UnknownCicCrc(u32),
    /// An RSP read-DMA programmed with a multi-part count/skip pattern.
    MultiPartDma(u32),
    /// A division with a zero divisor.
    DivisionByZero(u32),
    /// A signed division whose quotient does not fit (MIN / -1).
    DivideOverflow(u32),
    /// A write to the read-only SP DMA-busy register.
    WriteToDmaBusy(u32),
}

} // verus!
