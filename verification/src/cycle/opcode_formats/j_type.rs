use vstd::prelude::*;

verus! {

/// Field accessors for J-type (jump-and-link) instructions.
#[derive(Clone, Copy, Debug, PartialEq, Eq, Structural)]
pub struct JTypeOpcode;

impl JTypeOpcode {
    /// The 21-bit jump offset (bit 0 always zero), assembled from its
    /// scattered instruction fields, not yet sign-extended.
    pub fn imm(src: u32) -> (r: u32)
        ensures
            r == (((src >> 21u32) & 0x3ffu32) << 1u32) | (((src >> 20u32) & 1u32) << 11u32) | (src
                & 0xff000u32) | (((src >> 31u32) & 1u32) << 20u32),
    {
        (((src >> 21) & 0x3ff) << 1) | (((src >> 20) & 1) << 11) | (src & 0xff000) | (((src >> 31)
            & 1) << 20)
    }
}

} // verus!
