//! DMA request value object: a pending `(from, to, length)` byte copy that is
//! drained in bounded chunks, one per interconnect tick.

use vstd::prelude::*;

verus! {

/// A pending DMA transfer. `length == 0` means the request is idle.
#[derive(Debug, Clone, Copy, PartialEq, Eq, Structural)]
pub struct DMARequest {
    pub from: u32,
    pub to: u32,
    pub length: u32,
}

impl Default for DMARequest {
    /// The idle request.
    fn default() -> (r: DMARequest)
        ensures
            r.from == 0 && r.to == 0 && r.length == 0,
    {
        DMARequest { from: 0, to: 0, length: 0 }
    }
}

/// The chunk that `get_chunk(d, chunk_size)` hands out: the first
/// `min(d.length, chunk_size)` bytes of the request.
pub open spec fn spec_chunk(d: DMARequest, chunk_size: u32) -> DMARequest {
    DMARequest {
        from: d.from,
        to: d.to,
        length: if d.length <= chunk_size { d.length } else { chunk_size },
    }
}

/// What remains of `d` once `spec_chunk(d, chunk_size)` has been carved off:
/// both addresses advance by the chunk length (wrapping, as the bus registers
/// do) and the remaining length shrinks by it.
pub open spec fn spec_rest(d: DMARequest, chunk_size: u32) -> DMARequest {
    let k = spec_chunk(d, chunk_size).length;
    DMARequest {
        from: vstd::wrapping::u32_specs::wrapping_add(d.from, k),
        to: vstd::wrapping::u32_specs::wrapping_add(d.to, k),
        length: (d.length - k) as u32,
    }
}

impl DMARequest {
    /// A request is pending exactly while bytes remain to copy.
    #[inline(always)]
    pub fn is_pending(&self) -> (r: bool)
        ensures
            r == (self.length != 0),
    {
        self.length != 0
    }

    /// Carves off the next chunk of at most `chunk_size` bytes. The returned
    /// chunk keeps the current addresses; the remaining request advances past
    /// it. Once `length` reaches 0 every further chunk is empty.
    pub fn get_chunk(&mut self, chunk_size: u32) -> (chunk: DMARequest)
        ensures
            chunk == spec_chunk(*old(self), chunk_size),
            *final(self) == spec_rest(*old(self), chunk_size),
            old(self).length == 0 ==> chunk.length == 0 && *final(self) == *old(self),
    {
        let chunk = DMARequest {
            from: self.from,
            to: self.to,
            length: if self.length <= chunk_size { self.length } else { chunk_size },
        };
        self.length = self.length - chunk.length;
        self.from = self.from.wrapping_add(chunk.length);
        self.to = self.to.wrapping_add(chunk.length);

        chunk
    }
}

/// After `get_chunk(n)` returns a chunk of length `k = min(length, n)`, the
/// remaining request has lost exactly `k` from its length and both of its
/// addresses have advanced by `k`; in particular an idle request stays idle
/// and hands out only empty chunks.
pub proof fn lemma_chunk_accounting(d: DMARequest, n: u32)
    ensures
        spec_chunk(d, n).length == if d.length <= n { d.length } else { n },
        spec_rest(d, n).length + spec_chunk(d, n).length == d.length,
        d.from + spec_chunk(d, n).length <= u32::MAX ==>
            spec_rest(d, n).from == d.from + spec_chunk(d, n).length,
        d.to + spec_chunk(d, n).length <= u32::MAX ==>
            spec_rest(d, n).to == d.to + spec_chunk(d, n).length,
        d.length == 0 ==> spec_chunk(d, n).length == 0 && spec_rest(d, n) == d,
{
}

} // verus!
