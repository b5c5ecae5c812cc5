use vstd::prelude::*;

verus! {

/// Field accessors for B-type (conditional branch) instructions.
#[derive(Clone, Copy, Debug, PartialEq, Eq, Structural)]
pub struct BTypeOpcode;

impl BTypeOpcode {
    pub fn rs1(src: u32) -> (r: u32)
        ensures
            r == (src >> 15u32) & 0x1fu32,
    {
        (src >> 15) & 0x1f
    }

    pub fn rs2(src: u32) -> (r: u32)
        ensures
            r == (src >> 20u32) & 0x1fu32,
    {
        (src >> 20) & 0x1f
    }

    pub fn funct3(src: u32) -> (r: u32)
        ensures
            r == (src >> 12u32) & 7u32,
    {
        (src >> 12) & 7
    }

    /// The 13-bit branch offset (bit 0 always zero), assembled from its
    /// scattered instruction fields, not yet sign-extended.
    pub fn imm(src: u32) -> (r: u32)
        ensures
            r == (((src >> 8u32) & 0xfu32) << 1u32) | (((src >> 25u32) & 0x3fu32) << 5u32) | (((
            src >> 7u32) & 1u32) << 11u32) | (((src >> 31u32) & 1u32) << 12u32),
    {
        (((src >> 8) & 0xf) << 1) | (((src >> 25) & 0x3f) << 5) | (((src >> 7) & 1) << 11) | (((src
            >> 31) & 1) << 12)
    }
}

} // verus!
