use vstd::prelude::*;

verus! {

/// Field accessors for R-type (register-register) instructions.
#[derive(Clone, Copy, Debug, PartialEq, Eq, Structural)]
pub struct RTypeOpcode;

impl RTypeOpcode {
    pub fn rs1(src: u32) -> (r: u32)
        ensures
            r == (src >> 15u32) & 0x1fu32,
    {
        (src >> 15) & 0x1f
    }

    pub fn rs2(src: u32) -> (r: u32)
        ensures
            r == (src >> 20u32) & 0x1fu32,
    {
        (src >> 20) & 0x1f
    }

    pub fn funct3(src: u32) -> (r: u32)
        ensures
            r == (src >> 12u32) & 7u32,
    {
        (src >> 12) & 7
    }

    pub fn funct7(src: u32) -> (r: u32)
        ensures
            r == src >> 25u32,
    {
        src >> 25
    }
}

} // verus!
