use vstd::prelude::*;

pub mod b_type;
pub mod i_type;
pub mod j_type;
pub mod r_type;
pub mod s_type;
pub mod u_type;

pub use self::b_type::BTypeOpcode;
pub use self::i_type::ITypeOpcode;
pub use self::j_type::JTypeOpcode;
pub use self::r_type::RTypeOpcode;
pub use self::s_type::STypeOpcode;
pub use self::u_type::UTypeOpcode;

verus! {

/// The opcode is always the lowest 7 bits of the instruction word.
pub fn get_opcode(src: u32) -> (r: u32)
    ensures
        r == src & 0x7fu32,
{
    src & 0x7f
}

/// Destination register index, bits 7..12.
pub fn get_rd(src: u32) -> (r: u32)
    ensures
        r == (src >> 7u32) & 0x1fu32,
        r < 32,
{
    proof {
        lemma_mask5_bound(src >> 7u32);
    }
    (src >> 7) & 0x1f
}

/// First source register index, bits 15..20; present in every format and
/// read unconditionally each cycle.
pub fn get_formal_rs1(src: u32) -> (r: u32)
    ensures
        r == (src >> 15u32) & 0x1fu32,
        r < 32,
{
    proof {
        lemma_mask5_bound(src >> 15u32);
    }
    (src >> 15) & 0x1f
}

/// Second source register index, bits 20..25; present in every format and
/// read unconditionally each cycle.
pub fn get_formal_rs2(src: u32) -> (r: u32)
    ensures
        r == (src >> 20u32) & 0x1fu32,
        r < 32,
{
    proof {
        lemma_mask5_bound(src >> 20u32);
    }
    (src >> 20) & 0x1f
}

/// A value masked to five bits is a valid register index.
pub proof fn lemma_mask5_bound(x: u32)
    by (bit_vector)
    ensures
        x & 0x1fu32 < 32,
{
}

} // verus!
