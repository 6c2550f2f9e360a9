//! PIF: the boot ROM view, the 64-byte PIF RAM, CIC seed injection keyed by a
//! CRC-32 of the cartridge header, and the control-byte command handler.

use vstd::prelude::*;

use crate::mem_map::{PIF_RAM_LENGTH, PIF_ROM_LENGTH};
use crate::bytes::{read_be_u32, spec_be_u32, spec_be_u32_store, write_be_u32};
use crate::Fault;

verus! {

/// One folding step of the CRC-32 shift register (polynomial 0xEDB88320).
pub open spec fn crc_round(c: u32) -> u32 {
    if c & 1 != 0 {
        0xedb8_8320u32 ^ (c >> 1)
    } else {
        c >> 1
    }
}

/// `crc_round` applied `k` times.
pub open spec fn crc_rounds(c: u32, k: nat) -> u32
    decreases k,
{
    if k == 0 {
        c
    } else {
        crc_round(crc_rounds(c, (k - 1) as nat))
    }
}

/// The CRC-32 table entry for byte value `n`: eight foldings of `n`.
pub open spec fn crc_table_entry(n: u32) -> u32 {
    crc_rounds(n, 8)
}

/// Folds `bytes` into the running CRC register `c`, one byte per step.
pub open spec fn crc_update(c: u32, bytes: Seq<u8>) -> u32
    decreases bytes.len(),
{
    if bytes.len() == 0 {
        c
    } else {
        crc_update(crc_table_entry((c ^ bytes[0] as u32) & 0xff) ^ (c >> 8), bytes.drop_first())
    }
}

/// The CRC-32 of `bytes`: register seeded with all ones, folded over the
/// bytes, then inverted.
pub open spec fn spec_crc32(bytes: Seq<u8>) -> u32 {
    !crc_update(0xffff_ffffu32, bytes)
}

/// Computes the CRC-32 of `rom` with a freshly built 256-entry table.
pub fn crc32(rom: &[u8]) -> (r: u32)
    ensures
        r == spec_crc32(rom@),
{
    let mut table: Vec<u32> = Vec::new();
    let mut n: u32 = 0;
    while n < 256
        invariant
            n <= 256,
            table@.len() == n,
            forall|j: int| 0 <= j < n ==> table@[j] == crc_table_entry(j as u32),
        decreases 256 - n,
    {
        let mut c: u32 = n;
        let mut k: u32 = 0;
        while k < 8
            invariant
                k <= 8,
                c == crc_rounds(n, k as nat),
            decreases 8 - k,
        {
            c = if c & 1 != 0 {
                0xedb8_8320u32 ^ (c >> 1)
            } else {
                c >> 1
            };
            k = k + 1;
        }
        table.push(c);
        n = n + 1;
    }

    let ghost all = rom@;
    proof {
        assert(all.skip(0) =~= all);
    }
    let mut c: u32 = 0xffff_ffff;
    let mut i: usize = 0;
    while i < rom.len()
        invariant
            i <= rom@.len(),
            rom@ == all,
            table@.len() == 256,
            forall|j: int| 0 <= j < 256 ==> table@[j] == crc_table_entry(j as u32),
            crc_update(0xffff_ffffu32, all) == crc_update(c, all.skip(i as int)),
        decreases rom@.len() - i,
    {
        let ghost rest = all.skip(i as int);
        let b = *vstd::slice::slice_index_get(rom, i);
        proof {
            assert(rest[0] == all[i as int]);
            assert(rest.drop_first() =~= all.skip(i as int + 1));
        }
        let idx = (c ^ b as u32) & 0xff;
        assert(((c ^ (b as u32)) & 0xff) < 256) by (bit_vector);
        c = table[idx as usize] ^ (c >> 8);
        i = i + 1;
    }
    proof {
        assert(all.skip(all.len() as int) =~= Seq::<u8>::empty());
    }
    !c
}

/// The PIF: a snapshot of the boot ROM and 64 bytes of command RAM.
pub struct Pif {
    boot_rom: Vec<u8>,
    ram: Vec<u8>,
}

/// The effect of a PIF RAM word write at `addr`: the word lands big-endian in
/// RAM, and a write to 0x3C additionally runs the control-byte command held in
/// the low byte (0x08, 0x30, 0xC0 set the response byte at 0x3F; 0x10 clears
/// the whole boot ROM). `None` when the word would run past the 64-byte RAM.
pub open spec fn spec_pif_write_ram(
    boot: Seq<u8>,
    ram: Seq<u8>,
    addr: u32,
    value: u32,
) -> Option<(Seq<u8>, Seq<u8>)> {
    if addr + 4 > ram.len() {
        None
    } else {
        let ram1 = spec_be_u32_store(ram, addr as int, value);
        if addr == 0x3c {
            let control = value & 0xff;
            if control == 0x08 {
                Some((boot, ram1.update(0x3f, 0x00u8)))
            } else if control == 0x10 {
                Some((Seq::new(PIF_ROM_LENGTH as nat, |i: int| 0u8), ram1))
            } else if control == 0x30 {
                Some((boot, ram1.update(0x3f, 0x80u8)))
            } else if control == 0xc0 {
                Some((boot, ram1.update(0x3f, 0x40u8)))
            } else {
                Some((boot, ram1))
            }
        } else {
            Some((boot, ram1))
        }
    }
}

impl Pif {
    /// The snapshot of the boot ROM (may be cleared by control byte 0x10).
    pub closed spec fn boot_rom_bytes(&self) -> Seq<u8> {
        self.boot_rom@
    }

    /// The 64 command RAM bytes.
    pub closed spec fn ram_bytes(&self) -> Seq<u8> {
        self.ram@
    }

    /// The PIF RAM is always exactly 64 bytes.
    pub open spec fn wf(&self) -> bool {
        self.ram_bytes().len() == PIF_RAM_LENGTH
    }

    pub fn new(boot_rom: Vec<u8>) -> (r: Pif)
        ensures
            r.wf(),
            r.boot_rom_bytes() == boot_rom@,
            r.ram_bytes() == Seq::new(PIF_RAM_LENGTH as nat, |i: int| 0u8),
    {
        let mut ram: Vec<u8> = Vec::new();
        let mut i: usize = 0;
        while i < PIF_RAM_LENGTH as usize
            invariant
                i <= PIF_RAM_LENGTH,
                ram@ == Seq::new(i as nat, |j: int| 0u8),
            decreases PIF_RAM_LENGTH - i,
        {
            ram.push(0);
            i = i + 1;
            proof {
                assert(ram@ =~= Seq::new(i as nat, |j: int| 0u8));
            }
        }
        Pif { boot_rom, ram }
    }

    /// CRC-32s cartridge bytes [0x40, 0x1000) and stores the matching CIC
    /// seed big-endian into RAM[0x24..0x28]: CRC 0x90BB6CB5 (CIC 6102) gives
    /// seed 0x3F3F, CRC 0x98BC2C86 (CIC 6105) gives 0x913F. Any other CRC is
    /// a fatal fault and leaves the PIF untouched.
    pub fn init_cic_seed(&mut self, rom: &[u8]) -> (r: Result<(), Fault>)
        requires
            old(self).wf(),
            rom@.len() >= 0x1000,
        ensures
            final(self).wf(),
            final(self).boot_rom_bytes() == old(self).boot_rom_bytes(),
            ({
                let crc = spec_crc32(rom@.subrange(0x40, 0x1000));
                match r {
                    Ok(()) => (crc == 0x90bb_6cb5 || crc == 0x98bc_2c86)
                        && final(self).ram_bytes() == spec_be_u32_store(
                            old(self).ram_bytes(),
                            0x24,
                            if crc == 0x90bb_6cb5 { 0x3f3fu32 } else { 0x913fu32 },
                        ),
                    Err(f) => crc != 0x90bb_6cb5 && crc != 0x98bc_2c86
                        && f == Fault::UnknownCicCrc(crc) && *final(self) == *old(self),
                }
            }),
    {
        let crc = crc32(vstd::slice::slice_subrange(rom, 0x40, 0x1000));
        let seed: u32 = if crc == 0x90bb_6cb5 {
            0x0000_3f3f  // CIC 6102
        } else if crc == 0x98bc_2c86 {
            0x0000_913f  // CIC 6105
        } else {
            return Err(Fault::UnknownCicCrc(crc));
        };

        write_be_u32(&mut self.ram, 0x24, seed);
        Ok(())
    }

    /// Reads the big-endian boot ROM word at `addr`; a read past the end of
    /// the snapshot is a fatal fault.
    pub fn read_boot_rom(&self, addr: u32) -> (r: Result<u32, Fault>)
        ensures
            match r {
                Ok(w) => addr + 4 <= self.boot_rom_bytes().len()
                    && w == spec_be_u32(self.boot_rom_bytes(), addr as int),
                Err(f) => addr + 4 > self.boot_rom_bytes().len() && f == Fault::OutOfBounds(addr),
            },
    {
        if addr as u64 + 4 <= self.boot_rom.len() as u64 {
            Ok(read_be_u32(&self.boot_rom, addr as usize))
        } else {
            Err(Fault::OutOfBounds(addr))
        }
    }

    /// Reads the big-endian RAM word at `addr`; a read past the 64-byte RAM
    /// is a fatal fault.
    pub fn read_ram(&self, addr: u32) -> (r: Result<u32, Fault>)
        requires
            self.wf(),
        ensures
            match r {
                Ok(w) => addr + 4 <= PIF_RAM_LENGTH && w == spec_be_u32(
                    self.ram_bytes(),
                    addr as int,
                ),
                Err(f) => addr + 4 > PIF_RAM_LENGTH && f == Fault::OutOfBounds(addr),
            },
    {
        if addr as u64 + 4 <= self.ram.len() as u64 {
            Ok(read_be_u32(&self.ram, addr as usize))
        } else {
            Err(Fault::OutOfBounds(addr))
        }
    }

    /// Writes a word into PIF RAM and runs the control-byte command when the
    /// write lands at 0x3C (see `spec_pif_write_ram`).
    pub fn write_ram(&mut self, addr: u32, value: u32) -> (r: Result<(), Fault>)
        requires
            old(self).wf(),
        ensures
            final(self).wf(),
            match r {
                Ok(()) => Some(
                    (final(self).boot_rom_bytes(), final(self).ram_bytes()),
                ) == spec_pif_write_ram(
                    old(self).boot_rom_bytes(),
                    old(self).ram_bytes(),
                    addr,
                    value,
                ),
                Err(f) => spec_pif_write_ram(
                    old(self).boot_rom_bytes(),
                    old(self).ram_bytes(),
                    addr,
                    value,
                ) is None && f == Fault::OutOfBounds(addr) && *final(self) == *old(self),
            },
    {
        if addr as u64 + 4 > self.ram.len() as u64 {
            return Err(Fault::OutOfBounds(addr));
        }
        write_be_u32(&mut self.ram, addr as usize, value);

        // The last byte of the word at 0x3C is the PIF control byte.
        if addr == 0x3c {
            let control = value & 0xff;
            if control == 0x08 {
                self.ram.set(0x3f, 0x00);
            } else if control == 0x10 {
                // Clear the boot ROM snapshot.
                let mut cleared: Vec<u8> = Vec::new();
                let mut i: usize = 0;
                while i < PIF_ROM_LENGTH as usize
                    invariant
                        i <= PIF_ROM_LENGTH,
                        cleared@ == Seq::new(i as nat, |j: int| 0u8),
                    decreases PIF_ROM_LENGTH - i,
                {
                    cleared.push(0);
                    i = i + 1;
                    proof {
                        assert(cleared@ =~= Seq::new(i as nat, |j: int| 0u8));
                    }
                }
                self.boot_rom = cleared;
            } else if control == 0x30 {
                self.ram.set(0x3f, 0x80);
            } else if control == 0xc0 {
                self.ram.set(0x3f, 0x40);
            }
        }
        Ok(())
    }
}

/// For both recognized cartridge checksums, `init_cic_seed` leaves the
/// big-endian seed bytes in RAM[0x24..0x28]: 00 00 3F 3F for CIC 6102 and
/// 00 00 91 3F for CIC 6105.
pub proof fn lemma_cic_seed_bytes(ram: Seq<u8>, crc: u32)
    requires
        ram.len() == PIF_RAM_LENGTH,
        crc == 0x90bb_6cb5 || crc == 0x98bc_2c86,
    ensures
        ({
            let seed: u32 = if crc == 0x90bb_6cb5 { 0x3f3f } else { 0x913f };
            let after = spec_be_u32_store(ram, 0x24, seed);
            after[0x24] == 0x00u8 && after[0x25] == 0x00u8 && after[0x26] == (
            (seed >> 8) & 0xff) as u8 && after[0x27] == (seed & 0xff) as u8
        }),
{
    let seed: u32 = if crc == 0x90bb_6cb5 { 0x3f3f } else { 0x913f };
    assert(((seed >> 24) & 0xff) as u8 == 0x00u8 && ((seed >> 16) & 0xff) as u8 == 0x00u8)
        by (bit_vector)
        requires
            seed == 0x3f3fu32 || seed == 0x913fu32,
    ;
}

} // verus!
