//! CP0: the system coprocessor. Count/compare, status, cause, EPC, config,
//! watch/tag staging, and the 32-entry TLB (state only; no translation).

use vstd::prelude::*;

use crate::reg_cause::{spec_cause_from, spec_cause_to_u32, RegCause};
use crate::Fault;

verus! {

/// One committed TLB slot, as `TLBWI` stores it.
#[derive(Debug, Clone, Copy, PartialEq, Eq, Structural)]
pub struct TlbEntry {
    pub page_mask: u64,
    pub entry_hi: u64,
    pub entry_lo0: u64,
    pub entry_lo1: u64,
}

pub struct Cp0 {
    pub reg_index: u64,
    pub reg_entry_lo0: u64,
    pub reg_entry_lo1: u64,
    pub reg_entry_hi: u64,
    pub reg_page_mask: u64,

    pub reg_count: u32,
    pub reg_compare: u32,
    /// Status, held as the raw register word.
    pub reg_status: u32,
    pub reg_cause: RegCause,
    /// Exception program counter.
    pub reg_epc: u64,
    /// Config, held as the raw register word.
    pub reg_config: u32,

    pub reg_watch_lo: u32,
    pub reg_watch_hi: u32,

    pub reg_tag_lo: u32,
    pub reg_tag_hi: u32,

    pub tlb_entries: Vec<TlbEntry>,
}

/// The mathematical image of the coprocessor state.
pub ghost struct Cp0State {
    pub reg_index: u64,
    pub reg_entry_lo0: u64,
    pub reg_entry_lo1: u64,
    pub reg_entry_hi: u64,
    pub reg_page_mask: u64,

    pub reg_count: u32,
    pub reg_compare: u32,
    pub reg_status: u32,
    pub reg_cause: RegCause,
    pub reg_epc: u64,
    pub reg_config: u32,

    pub reg_watch_lo: u32,
    pub reg_watch_hi: u32,

    pub reg_tag_lo: u32,
    pub reg_tag_hi: u32,

    pub tlb_entries: Seq<TlbEntry>,
}

impl View for Cp0 {
    type V = Cp0State;

    open spec fn view(&self) -> Cp0State {
        Cp0State {
            reg_index: self.reg_index,
            reg_entry_lo0: self.reg_entry_lo0,
            reg_entry_lo1: self.reg_entry_lo1,
            reg_entry_hi: self.reg_entry_hi,
            reg_page_mask: self.reg_page_mask,

            reg_count: self.reg_count,
            reg_compare: self.reg_compare,
            reg_status: self.reg_status,
            reg_cause: self.reg_cause,
            reg_epc: self.reg_epc,
            reg_config: self.reg_config,

            reg_watch_lo: self.reg_watch_lo,
            reg_watch_hi: self.reg_watch_hi,

            reg_tag_lo: self.reg_tag_lo,
            reg_tag_hi: self.reg_tag_hi,

            tlb_entries: self.tlb_entries@,
        }
    }
}

/// The entry that `TLBWI` commits from the staged Index/EntryHi/EntryLo0/
/// EntryLo1/PageMask registers: the page mask, the VPN+ASID lane derived from
/// EntryHi (with the global bit set exactly when both EntryLo lanes have
/// theirs), and the two staged PFN lanes.
pub open spec fn spec_staged_tlb_entry(c: Cp0State) -> TlbEntry {
    TlbEntry {
        page_mask: c.reg_page_mask,
        entry_hi: ((c.reg_entry_hi & !c.reg_page_mask) | (if (c.reg_entry_lo0 & c.reg_entry_lo1)
            & 1 != 0 {
            0x1000u64
        } else {
            0u64
        }) | (c.reg_entry_hi & 0xff)) as u64,
        entry_lo0: c.reg_entry_lo0 & 0xffff_ffff_ffff_fffe,
        entry_lo1: c.reg_entry_lo1 & 0xffff_ffff_ffff_fffe,
    }
}

/// `TLBWI`: the staged entry lands in the slot the low five bits of Index
/// select; nothing else moves.
pub open spec fn spec_cp0_tlbwi(c: Cp0State) -> Cp0State {
    Cp0State {
        tlb_entries: c.tlb_entries.update((c.reg_index & 0x1f) as int, spec_staged_tlb_entry(c)),
        ..c
    }
}

/// `MTC0`: the write to the register the index selects. Index 11 (Compare)
/// also clears the pending timer interrupt; index 13 (Cause) only lands in
/// the two software interrupt pending bits. An index outside the modelled set
/// is a fatal fault that changes nothing.
pub open spec fn spec_cp0_write_reg(c: Cp0State, index: u32, data: u64) -> Result<
    Cp0State,
    Fault,
> {
    if index == 0 {
        Ok(Cp0State { reg_index: data & 0x8000_003f, ..c })
    } else if index == 2 {
        Ok(Cp0State { reg_entry_lo0: data, ..c })
    } else if index == 3 {
        Ok(Cp0State { reg_entry_lo1: data, ..c })
    } else if index == 5 {
        Ok(Cp0State { reg_page_mask: data, ..c })
    } else if index == 9 {
        Ok(Cp0State { reg_count: data as u32, ..c })
    } else if index == 10 {
        Ok(Cp0State { reg_entry_hi: data, ..c })
    } else if index == 11 {
        Ok(
            Cp0State {
                reg_compare: data as u32,
                reg_cause: RegCause { ip_timer: false, ..c.reg_cause },
                ..c
            },
        )
    } else if index == 12 {
        Ok(Cp0State { reg_status: data as u32, ..c })
    } else if index == 13 {
        Ok(
            Cp0State {
                reg_cause: RegCause {
                    ip_software: spec_cause_from(data as u32).ip_software,
                    ..c.reg_cause
                },
                ..c
            },
        )
    } else if index == 14 {
        Ok(Cp0State { reg_epc: data, ..c })
    } else if index == 16 {
        Ok(Cp0State { reg_config: data as u32, ..c })
    } else if index == 18 {
        Ok(Cp0State { reg_watch_lo: data as u32, ..c })
    } else if index == 19 {
        Ok(Cp0State { reg_watch_hi: data as u32, ..c })
    } else if index == 28 {
        Ok(Cp0State { reg_tag_lo: data as u32, ..c })
    } else if index == 29 {
        Ok(Cp0State { reg_tag_hi: data as u32, ..c })
    } else {
        Err(Fault::UnrecognizedCp0Register(index))
    }
}

/// `MFC0`: the value the index reads back. EntryHi (10) and Status (12) read
/// as 0 in this core; Cause (13) packs its fields; EPC (14) reads the stored
/// counter. Everything else is a fatal fault.
pub open spec fn spec_cp0_read_reg(c: Cp0State, index: u32) -> Result<u64, Fault> {
    if index == 10 || index == 12 {
        Ok(0)
    } else if index == 13 {
        Ok(spec_cause_to_u32(c.reg_cause) as u64)
    } else if index == 14 {
        Ok(c.reg_epc)
    } else {
        Err(Fault::UnrecognizedCp0Register(index))
    }
}

impl Cp0 {
    /// The TLB always has its 32 slots.
    pub open spec fn wf(&self) -> bool {
        self.tlb_entries@.len() == 32
    }

    pub fn default() -> (r: Cp0)
        ensures
            r.wf(),
            r.reg_index == 0 && r.reg_entry_lo0 == 0 && r.reg_entry_lo1 == 0,
            r.reg_entry_hi == 0 && r.reg_page_mask == 0,
            r.reg_count == 0 && r.reg_compare == 0 && r.reg_status == 0,
            !r.reg_cause.bd && r.reg_cause.ce == 0 && !r.reg_cause.ip_timer,
            r.reg_cause.exception_code == 0,
            forall|i: int| 0 <= i < 5 ==> !r.reg_cause.ip_external[i],
            forall|i: int| 0 <= i < 2 ==> !r.reg_cause.ip_software[i],
            r.reg_epc == 0 && r.reg_config == 0,
            r.reg_watch_lo == 0 && r.reg_watch_hi == 0,
            r.reg_tag_lo == 0 && r.reg_tag_hi == 0,
            forall|i: int|
                0 <= i < 32 ==> r.tlb_entries@[i] == (TlbEntry {
                    page_mask: 0,
                    entry_hi: 0,
                    entry_lo0: 0,
                    entry_lo1: 0,
                }),
    {
        let mut tlb: Vec<TlbEntry> = Vec::new();
        let mut i: usize = 0;
        while i < 32
            invariant
                i <= 32,
                tlb@.len() == i,
                forall|j: int|
                    0 <= j < i ==> tlb@[j] == (TlbEntry {
                        page_mask: 0,
                        entry_hi: 0,
                        entry_lo0: 0,
                        entry_lo1: 0,
                    }),
            decreases 32 - i,
        {
            tlb.push(TlbEntry { page_mask: 0, entry_hi: 0, entry_lo0: 0, entry_lo1: 0 });
            i = i + 1;
        }
        Cp0 {
            reg_index: 0,
            reg_entry_lo0: 0,
            reg_entry_lo1: 0,
            reg_entry_hi: 0,
            reg_page_mask: 0,

            reg_count: 0,
            reg_compare: 0,
            reg_status: 0,
            reg_cause: Default::default(),
            reg_epc: 0,
            reg_config: 0,

            reg_watch_lo: 0,
            reg_watch_hi: 0,

            reg_tag_lo: 0,
            reg_tag_hi: 0,

            tlb_entries: tlb,
        }
    }

    /// `TLBWI`: see `spec_cp0_tlbwi` and `spec_staged_tlb_entry`.
    pub fn store_tlb_entry(&mut self)
        requires
            old(self).wf(),
        ensures
            final(self).wf(),
            final(self)@ == spec_cp0_tlbwi(old(self)@),
    {
        let index = (self.reg_index & 0x1f) as usize;
        proof {
            let v = self.reg_index;
            assert(v & 0x1f < 32) by (bit_vector);
        }

        let entry = TlbEntry {
            page_mask: self.reg_page_mask,
            entry_hi: (self.reg_entry_hi & !self.reg_page_mask) | (if (self.reg_entry_lo0
                & self.reg_entry_lo1) & 1 != 0 {
                0x1000u64
            } else {
                0u64
            }) | (self.reg_entry_hi & 0xff),
            entry_lo0: self.reg_entry_lo0 & 0xffff_ffff_ffff_fffe,
            entry_lo1: self.reg_entry_lo1 & 0xffff_ffff_ffff_fffe,
        };
        self.tlb_entries.set(index, entry);
    }

    /// `MTC0`: see `spec_cp0_write_reg`. Two register indices share encoding
    /// space in hardware documentation generations; this core keeps WatchHi
    /// at index 19 and TagHi at index 29.
    pub fn write_reg(&mut self, index: u32, data: u64) -> (r: Result<(), Fault>)
        requires
            old(self).wf(),
        ensures
            final(self).wf(),
            match r {
                Ok(()) => spec_cp0_write_reg(old(self)@, index, data) == Ok::<Cp0State, Fault>(
                    final(self)@,
                ),
                Err(f) => spec_cp0_write_reg(old(self)@, index, data) == Err::<Cp0State, Fault>(f)
                    && *final(self) == *old(self),
            },
    {
        match index {
            0 => self.reg_index = data & 0x8000_003f,
            2 => self.reg_entry_lo0 = data,
            3 => self.reg_entry_lo1 = data,
            5 => self.reg_page_mask = data,
            9 => self.reg_count = data as u32,
            10 => self.reg_entry_hi = data,
            11 => {
                self.reg_compare = data as u32;
                self.reg_cause.clearTimerInterruptPending();
            },
            12 => self.reg_status = data as u32,
            13 => {
                // Only the software interrupt pending flags are writable.
                self.reg_cause.setSoftwareInterruptPendingFields(data as u32);
            },
            14 => self.reg_epc = data,
            16 => self.reg_config = data as u32,
            18 => self.reg_watch_lo = data as u32,
            19 => self.reg_watch_hi = data as u32,
            28 => self.reg_tag_lo = data as u32,
            29 => self.reg_tag_hi = data as u32,
            _ => {
                return Err(Fault::UnrecognizedCp0Register(index));
            },
        }
        Ok(())
    }

    /// `MFC0`: see `spec_cp0_read_reg`.
    pub fn read_reg(&self, index: u32) -> (r: Result<u64, Fault>)
        ensures
            r == spec_cp0_read_reg(self@, index),
    {
        match index {
            10 => Ok(0),
            12 => Ok(0),
            13 => Ok(self.reg_cause.to_u32() as u64),
            14 => Ok(self.reg_epc),
            _ => Err(Fault::UnrecognizedCp0Register(index)),
        }
    }
}

} // verus!
