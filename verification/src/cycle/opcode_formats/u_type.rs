use vstd::prelude::*;

verus! {

/// Field accessors for U-type (upper-immediate) instructions.
#[derive(Clone, Copy, Debug, PartialEq, Eq, Structural)]
pub struct UTypeOpcode;

impl UTypeOpcode {
    /// The 20-bit upper immediate, already in place in bits 12..32.
    pub fn imm(src: u32) -> (r: u32)
        ensures
            r == src & 0xffff_f000u32,
    {
        src & 0xffff_f000
    }
}

} // verus!
