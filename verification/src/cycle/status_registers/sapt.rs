use vstd::prelude::*;

verus! {

/// Field accessors for the `satp` address-translation register.
#[derive(Clone, Copy, Debug, PartialEq, Eq, Structural)]
pub struct SATPRegister;

impl SATPRegister {
    /// The translation-mode bit (bit 31), aligned to bit 0: 1 when Sv32
    /// translation is on, 0 when addressing is bare.
    pub fn is_bare_aligned_bit(src: u32) -> (r: u32)
        ensures
            r == (src >> 31u32) & 1u32,
    {
        (src >> 31) & 1
    }

    /// The physical page number of the root page table (low 22 bits).
    pub fn ppn(src: u32) -> (r: u32)
        ensures
            r == src & 0x3f_ffffu32,
    {
        src & 0x3f_ffff
    }
}

} // verus!
