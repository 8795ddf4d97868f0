use vstd::prelude::*;

use crate::wire::{block_start, resolved, token_block};

verus! {

/// The 36 bytes at the start of the inflated payload: its total size, a size
/// this reader does not use, and the sizes of the seven blocks that pointer
/// tokens address.
#[derive(Copy, Clone, Debug)]
pub struct XFile {
    pub size: u32,
    pub external_size: u32,
    pub block_size: [u32; 7],
}

impl XFile {
    /// Resolves a non-null pointer token into the block it addresses and
    /// the payload offset it stands for: the block is the top three bits of
    /// `token - 1`, the offset the low 29 bits plus the sizes of all earlier
    /// blocks.
    pub fn resolve(&self, token: u32) -> (r: (u8, u64))
        requires
            token != 0,
        ensures
            r.0 as int == token_block(token),
            r.1 as int == resolved(self.block_size, token),
            r.0 < 8,
    {
        let t = token - 1;
        let block = t >> 29;
        let off = t & 0x1FFF_FFFF;
        assert(t >> 29 == t / 0x2000_0000) by (bit_vector);
        assert(t & 0x1FFF_FFFF == t % 0x2000_0000) by (bit_vector);
        assert(t >> 29 < 8) by (bit_vector);
        let mut start: u64 = 0;
        let mut i: usize = 0;
        while i < block as usize
            invariant
                block < 8,
                i <= block,
                start as int == block_start(self.block_size, i as int),
                start <= i * 0xFFFF_FFFFu64,
            decreases block - i,
        {
            start = start + self.block_size[i] as u64;
            i += 1;
        }
        (block as u8, start + off as u64)
    }
}

/// [`XFile::resolve`] for the block sizes of `xfile`.
pub fn convert_offset_to_ptr(offset: u32, xfile: &XFile) -> (r: (u8, u64))
    requires
        offset != 0,
    ensures
        r.0 as int == token_block(offset),
        r.1 as int == resolved(xfile.block_size, offset),
{
    xfile.resolve(offset)
}

} // verus!
