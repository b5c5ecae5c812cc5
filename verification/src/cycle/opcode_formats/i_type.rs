use vstd::prelude::*;

verus! {

/// Field accessors for I-type (register-immediate) instructions.
#[derive(Clone, Copy, Debug, PartialEq, Eq, Structural)]
pub struct ITypeOpcode;

impl ITypeOpcode {
    pub fn rs1(src: u32) -> (r: u32)
        ensures
            r == (src >> 15u32) & 0x1fu32,
    {
        (src >> 15) & 0x1f
    }

    pub fn funct3(src: u32) -> (r: u32)
        ensures
            r == (src >> 12u32) & 7u32,
    {
        (src >> 12) & 7
    }

    /// The 12-bit immediate, bits 20..32, not yet sign-extended.
    pub fn imm(src: u32) -> (r: u32)
        ensures
            r == src >> 20u32,
    {
        src >> 20
    }
}

} // verus!
