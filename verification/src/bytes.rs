//! Big-endian word access over byte buffers. All bus memory is stored
//! big-endian; these helpers state the byte/word relation exactly.

use vstd::prelude::*;

verus! {

/// The big-endian 32-bit word formed by the four bytes at `off`.
pub open spec fn spec_be_u32(s: Seq<u8>, off: int) -> u32 {
    (((s[off] as u32) << 24) | ((s[off + 1] as u32) << 16) | ((s[off + 2] as u32) << 8)
        | (s[off + 3] as u32)) as u32
}

/// The byte sequence `s` with the four bytes at `off` replaced by the
/// big-endian encoding of `v`.
pub open spec fn spec_be_u32_store(s: Seq<u8>, off: int, v: u32) -> Seq<u8> {
    s.update(off, ((v >> 24) & 0xff) as u8)
        .update(off + 1, ((v >> 16) & 0xff) as u8)
        .update(off + 2, ((v >> 8) & 0xff) as u8)
        .update(off + 3, (v & 0xff) as u8)
}

/// Storing a word and reading it back yields the word, and bytes outside the
/// stored window are untouched.
pub proof fn lemma_be_u32_round_trip(s: Seq<u8>, off: int, v: u32)
    requires
        0 <= off,
        off + 4 <= s.len(),
    ensures
        spec_be_u32(spec_be_u32_store(s, off, v), off) == v,
        spec_be_u32_store(s, off, v).len() == s.len(),
        forall|i: int|
            0 <= i < s.len() && !(off <= i < off + 4) ==> spec_be_u32_store(s, off, v)[i] == s[i],
{
    let b0 = ((v >> 24) & 0xff) as u8;
    let b1 = ((v >> 16) & 0xff) as u8;
    let b2 = ((v >> 8) & 0xff) as u8;
    let b3 = (v & 0xff) as u8;
    assert((((b0 as u32) << 24) | ((b1 as u32) << 16) | ((b2 as u32) << 8) | (b3 as u32)) as u32
        == v) by (bit_vector)
        requires
            b0 == ((v >> 24) & 0xff) as u8,
            b1 == ((v >> 16) & 0xff) as u8,
            b2 == ((v >> 8) & 0xff) as u8,
            b3 == (v & 0xff) as u8,
    ;
}

/// Reads the big-endian word at `off`.
pub fn read_be_u32(buf: &Vec<u8>, off: usize) -> (r: u32)
    requires
        off + 4 <= buf.len(),
    ensures
        r == spec_be_u32(buf@, off as int),
{
    ((buf[off] as u32) << 24) | ((buf[off + 1] as u32) << 16) | ((buf[off + 2] as u32) << 8)
        | (buf[off + 3] as u32)
}

/// Stores `v` big-endian at `off`.
pub fn write_be_u32(buf: &mut Vec<u8>, off: usize, v: u32)
    requires
        off + 4 <= old(buf).len(),
    ensures
        final(buf)@ == spec_be_u32_store(old(buf)@, off as int, v),
{
    buf.set(off, ((v >> 24) & 0xff) as u8);
    buf.set(off + 1, ((v >> 16) & 0xff) as u8);
    buf.set(off + 2, ((v >> 8) & 0xff) as u8);
    buf.set(off + 3, (v & 0xff) as u8);
}

} // verus!
