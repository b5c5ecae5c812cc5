use vstd::prelude::*;

verus! {

/// Field accessors for S-type (store) instructions.
#[derive(Clone, Copy, Debug, PartialEq, Eq, Structural)]
pub struct STypeOpcode;

impl STypeOpcode {
    pub fn rs1(src: u32) -> (r: u32)
        ensures
            r == (src >> 15u32) & 0x1fu32,
    {
        (src >> 15) & 0x1f
    }

    pub fn rs2(src: u32) -> (r: u32)
        ensures
            r == (src >> 20u32) & 0x1fu32,
    {
        (src >> 20) & 0x1f
    }

    pub fn funct3(src: u32) -> (r: u32)
        ensures
            r == (src >> 12u32) & 7u32,
    {
        (src >> 12) & 7
    }

    /// The 12-bit store offset, assembled from bits 7..12 and 25..32,
    /// not yet sign-extended.
    pub fn imm(src: u32) -> (r: u32)
        ensures
            r == ((src >> 7u32) & 0x1fu32) | (((src >> 25u32) & 0x7fu32) << 5u32),
    {
        ((src >> 7) & 0x1f) | (((src >> 25) & 0x7f) << 5)
    }
}

} // verus!
