use vstd::prelude::*;

verus! {

/// Field accessors for the machine status register (`mstatus`).
/// Each getter returns the named field of the given register image;
/// each setter rewrites only the named field.
#[derive(Clone, Copy, Debug, PartialEq, Eq, Structural)]
pub struct MStatusRegister;

impl MStatusRegister {
    pub fn sie(src: u32) -> (r: u32)
        ensures
            r == src & 0x2u32,
    {
        src & 0x2
    }

    pub fn mie(src: u32) -> (r: u32)
        ensures
            r == src & 0x8u32,
    {
        src & 0x8
    }

    pub fn mie_aligned_bit(src: u32) -> (r: u32)
        ensures
            r == (src >> 3u32) & 1u32,
    {
        (src >> 3) & 1
    }

    pub fn set_mie(dst: &mut u32)
        ensures
            *final(dst) == *old(dst) | 0x8u32,
    {
        *dst = *dst | 0x8;
    }

    pub fn clear_mie(dst: &mut u32)
        ensures
            *final(dst) == *old(dst) & !0x8u32,
    {
        *dst = *dst & !0x8;
    }

    pub fn set_mie_to_value(dst: &mut u32, value: u32)
        requires
            value <= 1,
        ensures
            *final(dst) == (*old(dst) & !0x8u32) | (value << 3u32),
    {
        Self::clear_mie(dst);
        *dst = *dst | (value << 3u32);
    }

    pub fn spie(src: u32) -> (r: u32)
        ensures
            r == src & 0x20u32,
    {
        src & 0x20
    }

    pub fn ube(src: u32) -> (r: u32)
        ensures
            r == src & 0x40u32,
    {
        src & 0x40
    }

    pub fn mpie(src: u32) -> (r: u32)
        ensures
            r == src & 0x80u32,
    {
        src & 0x80
    }

    pub fn set_mpie(dst: &mut u32)
        ensures
            *final(dst) == *old(dst) | 0x80u32,
    {
        *dst = *dst | 0x80;
    }

    pub fn clear_mpie(dst: &mut u32)
        ensures
            *final(dst) == *old(dst) & !0x80u32,
    {
        *dst = *dst & !0x80;
    }

    pub fn set_mpie_to_value(dst: &mut u32, value: u32)
        requires
            value <= 1,
        ensures
            *final(dst) == (*old(dst) & !0x80u32) | (value << 7u32),
    {
        Self::clear_mpie(dst);
        *dst = *dst | (value << 7u32);
    }

    pub fn set_mpp_to_machine(dst: &mut u32)
        ensures
            *final(dst) == (*old(dst) & !0x1800u32) | 0x1800u32,
    {
        Self::clear_mpp(dst);
        proof {
            lemma_three_shl_11();
        }
        *dst = *dst | (3u32 << 11u32);
    }

    pub fn mpie_aligned_bit(src: u32) -> (r: u32)
        ensures
            r == (src >> 7u32) & 1u32,
    {
        (src >> 7) & 1
    }

    pub fn spp(src: u32) -> (r: u32)
        ensures
            r == src & 0x100u32,
    {
        src & 0x100
    }

    pub fn vs(src: u32) -> (r: u32)
        ensures
            r == (src >> 9u32) & 3u32,
    {
        (src >> 9) & 3
    }

    pub fn mpp(src: u32) -> (r: u32)
        ensures
            r == (src >> 11u32) & 3u32,
    {
        (src >> 11) & 3
    }

    pub fn clear_mpp(dst: &mut u32)
        ensures
            *final(dst) == *old(dst) & !0x1800u32,
    {
        *dst = *dst & !0x1800;
    }

    pub fn fs(src: u32) -> (r: u32)
        ensures
            r == (src >> 13u32) & 3u32,
    {
        (src >> 13) & 3
    }

    pub fn cs(src: u32) -> (r: u32)
        ensures
            r == (src >> 15u32) & 3u32,
    {
        (src >> 15) & 3
    }

    pub fn mprv(src: u32) -> (r: u32)
        ensures
            r == src & 0x20000u32,
    {
        src & 0x20000
    }

    pub fn clear_mprv(dst: &mut u32)
        ensures
            *final(dst) == *old(dst) & !0x20000u32,
    {
        *dst = *dst & !0x20000;
    }

    pub fn mprv_aligned_bit(src: u32) -> (r: u32)
        ensures
            r == (src >> 17u32) & 1u32,
    {
        (src >> 17) & 1
    }

    pub fn sum(src: u32) -> (r: u32)
        ensures
            r == src & 0x40000u32,
    {
        src & 0x40000
    }

    pub fn mxr(src: u32) -> (r: u32)
        ensures
            r == src & 0x80000u32,
    {
        src & 0x80000
    }

    pub fn tvm(src: u32) -> (r: u32)
        ensures
            r == src & 0x100000u32,
    {
        src & 0x100000
    }

    pub fn tw(src: u32) -> (r: u32)
        ensures
            r == src & 0x200000u32,
    {
        src & 0x200000
    }

    pub fn tsr(src: u32) -> (r: u32)
        ensures
            r == src & 0x400000u32,
    {
        src & 0x400000
    }

    pub fn sd(src: u32) -> (r: u32)
        ensures
            r == src & 0x80000000u32,
    {
        src & 0x80000000
    }
}

proof fn lemma_three_shl_11()
    by (bit_vector)
    ensures
        3u32 << 11u32 == 0x1800u32,
{
}

} // verus!
