//! The machine root: it owns the CPU, the RSP and the interconnect, and
//! drives one co-step of the three.

use vstd::prelude::*;

use crate::cpu::{Cpu, INITIAL_PC};
use crate::instruction::Instruction;
use crate::interconnect::{ic_wf, Interconnect, FRAME_COUNTDOWN};
use crate::mem_map::{PIF_RAM_LENGTH, RDRAM_LENGTH};
use crate::opcode::Opcode;
use crate::rsp::Rsp;
use crate::sinks::{Sink, VideoFrame};
use crate::Fault;

verus! {

pub struct N64 {
    pub cpu: Cpu,
    pub rsp: Rsp,
    pub interconnect: Interconnect,
}

impl N64 {
    pub open spec fn wf(&self) -> bool {
        &&& self.cpu.wf()
        &&& self.rsp.wf()
        &&& ic_wf(self.interconnect@)
    }

    /// Builds the machine around a boot ROM and a cartridge. The cartridge
    /// checksum selects the CIC seed (see `Pif::init_cic_seed`); an unknown
    /// checksum is a fatal fault. The CPU starts at the kseg1 mirror of the
    /// boot ROM with a full frame countdown ahead.
    pub fn new(boot_rom: Vec<u8>, cart_rom: Vec<u8>) -> (r: Result<N64, Fault>)
        requires
            cart_rom@.len() >= 0x1000,
        ensures
            ({
                let crc = crate::pif::spec_crc32(cart_rom@.subrange(0x40, 0x1000));
                let known = crc == 0x90bb_6cb5 || crc == 0x98bc_2c86;
                match r {
                    Ok(n) => known && n.wf() && n.cpu.reg_pc == INITIAL_PC
                        && n.cpu.delay_slot_pc is None && n.cpu.reg_gpr@ == Seq::new(
                        32,
                        |i: int| 0u64,
                    ) && n.interconnect@.cart == cart_rom@ && n.interconnect@.pif_boot == boot_rom@
                        && n.interconnect@.rdram == Seq::new(RDRAM_LENGTH as nat, |i: int| 0u8)
                        && n.interconnect@.pif_ram == crate::bytes::spec_be_u32_store(
                        Seq::new(PIF_RAM_LENGTH as nat, |i: int| 0u8),
                        0x24,
                        if crc == 0x90bb_6cb5 {
                            0x3f3fu32
                        } else {
                            0x913fu32
                        },
                    ) && n.interconnect@.steps_to_next_frame == FRAME_COUNTDOWN
                        && n.interconnect@.rsp_status.halt && n.rsp.delay_slot_pc is None,
                    Err(f) => !known && f == Fault::UnknownCicCrc(crc),
                }
            }),
    {
        let interconnect = match Interconnect::new(boot_rom, cart_rom) {
            Ok(ic) => ic,
            Err(f) => {
                return Err(f);
            },
        };
        Ok(N64 { cpu: Cpu::new(), rsp: Rsp::new(), interconnect })
    }

    /// Read-only introspection for the debugger collaborator.
    pub fn cpu(&self) -> (r: &Cpu)
        ensures
            *r == self.cpu,
    {
        &self.cpu
    }

    /// Read-only introspection for the debugger collaborator.
    pub fn interconnect(&self) -> (r: &Interconnect)
        ensures
            *r == self.interconnect,
    {
        &self.interconnect
    }

    /// One composite tick: one CPU instruction, one RSP instruction (skipped
    /// while the RSP is halted or broke), and one interconnect tick (DMA
    /// chunks plus a possible frame delivered to `frame_sink`). `Ok(Some(i))`
    /// hands a CP1 arithmetic instruction to the caller for host
    /// floating-point evaluation (see `Cpu::step`); it should be applied
    /// before the next step.
    pub fn step<S: Sink<VideoFrame>>(&mut self, frame_sink: &mut S) -> (r: Result<
        Option<Instruction>,
        Fault,
    >)
        requires
            old(self).wf(),
        ensures
            final(self).wf(),
            final(self).cpu.reg_gpr@[0] == 0,
            r matches Ok(Some(i)) ==> crate::opcode::spec_decode_opcode((i.0 >> 26) & 0x3f)
                == Some(Opcode::Cop1),
            old(frame_sink).sunk().is_prefix_of(final(frame_sink).sunk()),
            final(frame_sink).sunk().len() <= old(frame_sink).sunk().len() + 1,
            r is Err ==> final(frame_sink).sunk() == old(frame_sink).sunk(),
            r matches Ok(h) ==> ({
                let t1 = crate::cpu::spec_cpu_step(old(self).cpu@, old(self).interconnect@);
                &&& t1 matches Ok(_)
                &&& final(self).cpu@ == t1->Ok_0.0
                &&& h == t1->Ok_0.2
                &&& ({
                    let t2 = crate::rsp::spec_rsp_step(
                        old(self).rsp.reg_gpr@,
                        old(self).rsp.delay_slot_pc,
                        t1->Ok_0.1,
                    );
                    &&& t2 matches Ok(_)
                    &&& final(self).rsp.reg_gpr@ == t2->Ok_0.0
                    &&& final(self).rsp.delay_slot_pc == t2->Ok_0.1
                    &&& Interconnect::spec_ic_step_ok(
                        t2->Ok_0.2,
                        final(self).interconnect@,
                        old(frame_sink).sunk(),
                        final(frame_sink).sunk(),
                    )
                })
            }),
    {
        let cp1 = match self.cpu.step(&mut self.interconnect) {
            Ok(cp1) => cp1,
            Err(f) => {
                return Err(f);
            },
        };
        match self.rsp.step(&mut self.interconnect) {
            Ok(()) => {},
            Err(f) => {
                return Err(f);
            },
        }
        match self.interconnect.step(frame_sink) {
            Ok(()) => {},
            Err(f) => {
                return Err(f);
            },
        }
        Ok(cp1)
    }
}

} // verus!
