use vstd::prelude::*;

use crate::abstractions::tracer::BatchAccessPartialData;
use crate::abstractions::tracer::Tracer;
use crate::cycle::state::NON_DETERMINISM_CSR;
use crate::cycle::state::RiscV32State;
use crate::cycle::status_registers::TrapReason;

verus! {

broadcast use vstd::array::group_array_axioms;

pub const MERSENNE_EXT4_FMA_ACCESS_ID: u32 = NON_DETERMINISM_CSR + 5;

/// The Mersenne prime 2^31 - 1, the base field modulus of the kernel.
pub const MERSENNE_31_PRIME: u32 = 0x7fff_ffff;

/// Reduction of an arbitrary machine word into the base field.
pub open spec fn spec_m31_reduce(x: u32) -> u32 {
    (x % 0x7fff_ffffu32) as u32
}

/// Base-field addition of reduced elements.
pub open spec fn spec_m31_add(a: u32, b: u32) -> u32 {
    (((a as int) + (b as int)) % 0x7fff_ffff) as u32
}

/// Base-field subtraction of reduced elements.
pub open spec fn spec_m31_sub(a: u32, b: u32) -> u32 {
    (((a as int) + 0x7fff_ffff - (b as int)) % 0x7fff_ffff) as u32
}

/// Base-field multiplication of reduced elements.
pub open spec fn spec_m31_mul(a: u32, b: u32) -> u32 {
    (((a as int) * (b as int)) % 0x7fff_ffff) as u32
}

pub fn m31_reduce(x: u32) -> (r: u32)
    ensures
        r == spec_m31_reduce(x),
        r < 0x7fff_ffff,
{
    x % 0x7fff_ffff
}

pub fn m31_add(a: u32, b: u32) -> (r: u32)
    requires
        a < 0x7fff_ffff,
        b < 0x7fff_ffff,
    ensures
        r == spec_m31_add(a, b),
        r < 0x7fff_ffff,
{
    ((a as u64 + b as u64) % 0x7fff_ffff) as u32
}

pub fn m31_sub(a: u32, b: u32) -> (r: u32)
    requires
        a < 0x7fff_ffff,
        b < 0x7fff_ffff,
    ensures
        r == spec_m31_sub(a, b),
        r < 0x7fff_ffff,
{
    ((a as u64 + 0x7fff_ffff - b as u64) % 0x7fff_ffff) as u32
}

pub fn m31_mul(a: u32, b: u32) -> (r: u32)
    requires
        a < 0x7fff_ffff,
        b < 0x7fff_ffff,
    ensures
        r == spec_m31_mul(a, b),
        r < 0x7fff_ffff,
{
    proof {
        assert((a as u64) * (b as u64) < 0x4000_0000_0000_0000) by (nonlinear_arith)
            requires
                a < 0x8000_0000u64,
                b < 0x8000_0000u64,
        ;
    }
    (((a as u64) * (b as u64)) % 0x7fff_ffff) as u32
}

/// Multiplication in the degree-two extension of the base field by i
/// with i^2 = -1: (a0 + a1 i)(b0 + b1 i).
pub open spec fn spec_m31c_mul(a0: u32, a1: u32, b0: u32, b1: u32) -> (u32, u32) {
    (
        spec_m31_sub(spec_m31_mul(a0, b0), spec_m31_mul(a1, b1)),
        spec_m31_add(spec_m31_mul(a0, b1), spec_m31_mul(a1, b0)),
    )
}

/// Addition in the degree-two extension.
pub open spec fn spec_m31c_add(a0: u32, a1: u32, b0: u32, b1: u32) -> (u32, u32) {
    (spec_m31_add(a0, b0), spec_m31_add(a1, b1))
}

/// Multiplication by the quartic non-residue i + 2, by which the
/// degree-four extension is built: (i + 2)(x0 + x1 i).
pub open spec fn spec_m31c_mul_nonresidue(x0: u32, x1: u32) -> (u32, u32) {
    (
        spec_m31_sub(spec_m31_add(x0, x0), x1),
        spec_m31_add(spec_m31_add(x1, x1), x0),
    )
}

/// The fused multiply-add over the degree-four tower
/// Fp[i]/(i^2 + 1)[j]/(j^2 - (i + 2)): dst + a * b, all operands given
/// as (c0.c0, c0.c1, c1.c0, c1.c1) in reduced form.
pub open spec fn spec_quartic_fma(d: Seq<u32>, a: Seq<u32>, b: Seq<u32>) -> Seq<u32> {
    let lo = spec_m31c_mul(a[0], a[1], b[0], b[1]);
    let hi = spec_m31c_mul(a[2], a[3], b[2], b[3]);
    let cross1 = spec_m31c_mul(a[0], a[1], b[2], b[3]);
    let cross2 = spec_m31c_mul(a[2], a[3], b[0], b[1]);
    let hi_nr = spec_m31c_mul_nonresidue(hi.0, hi.1);
    let p0 = spec_m31c_add(lo.0, lo.1, hi_nr.0, hi_nr.1);
    let p1 = spec_m31c_add(cross1.0, cross1.1, cross2.0, cross2.1);
    seq![
        spec_m31_add(d[0], p0.0),
        spec_m31_add(d[1], p0.1),
        spec_m31_add(d[2], p1.0),
        spec_m31_add(d[3], p1.1),
    ]
}

/// The register image after the kernel: x10..x13 hold the reduced fused
/// multiply-add of the three quartic operands read from x10..x21, each
/// operand word reduced into the field first.
pub open spec fn spec_mersenne_fma_regs(regs: Seq<u32>) -> Seq<u32> {
    let d = seq![
        spec_m31_reduce(regs[10]),
        spec_m31_reduce(regs[11]),
        spec_m31_reduce(regs[12]),
        spec_m31_reduce(regs[13]),
    ];
    let a = seq![
        spec_m31_reduce(regs[14]),
        spec_m31_reduce(regs[15]),
        spec_m31_reduce(regs[16]),
        spec_m31_reduce(regs[17]),
    ];
    let b = seq![
        spec_m31_reduce(regs[18]),
        spec_m31_reduce(regs[19]),
        spec_m31_reduce(regs[20]),
        spec_m31_reduce(regs[21]),
    ];
    let r = spec_quartic_fma(d, a, b);
    Seq::new(
        32,
        |i: int|
            if 10 <= i < 14 {
                r[i - 10]
            } else {
                regs[i]
            },
    )
}


/// The whole-state image of the kernel: x10..x13 take the reduced fused
/// multiply-add, everything else stays as it was.
pub open spec fn spec_mersenne_fma_state(s: RiscV32State) -> RiscV32State {
    RiscV32State {
        registers: vstd::array::spec_array_update(
        vstd::array::spec_array_update(
        vstd::array::spec_array_update(
        vstd::array::spec_array_update(
        s.registers,
        10,
        spec_mersenne_fma_regs(s.registers@)[10],
    ),
        11,
        spec_mersenne_fma_regs(s.registers@)[11],
    ),
        12,
        spec_mersenne_fma_regs(s.registers@)[12],
    ),
        13,
        spec_mersenne_fma_regs(s.registers@)[13],
    ),
        ..s
    }
}

/// The register file of that image, seen as a sequence.
pub proof fn lemma_mersenne_fma_state_view(s: RiscV32State)
    ensures
        spec_mersenne_fma_state(s).registers@ == spec_mersenne_fma_regs(s.registers@),
{
    assert(spec_mersenne_fma_state(s).registers@ =~= spec_mersenne_fma_regs(s.registers@));
}

/// The quartic fused-multiply-add kernel: operands in x10..x21, the
/// reduced result in x10..x13; memory is not touched.
#[verifier::rlimit(100)]
#[verifier::spinoff_prover]
pub fn mersenne_ext4_fma_impl<TR: Tracer>(
    state: &mut RiscV32State,
    tracer: &mut TR,
    rs1_value: u32,
    trap: &mut TrapReason,
    proc_cycle: u32,
    cycle_timestamp: u32,
)
    requires
        *old(trap) == TrapReason::NoTrap,
    ensures
        *final(trap) == TrapReason::NoTrap,
        final(state).registers@ == spec_mersenne_fma_regs(old(state).registers@),
        final(state).pc == old(state).pc,
        final(state).extra_flags == old(state).extra_flags,
        final(state).cycle_counter == old(state).cycle_counter,
        final(state).timer == old(state).timer,
        final(state).timer_match == old(state).timer_match,
        final(state).machine_mode_trap_data == old(state).machine_mode_trap_data,
        final(state).sapt == old(state).sapt,
{
    let d0 = m31_reduce(state.registers[10]);
    let d1 = m31_reduce(state.registers[11]);
    let d2 = m31_reduce(state.registers[12]);
    let d3 = m31_reduce(state.registers[13]);
    let a0 = m31_reduce(state.registers[14]);
    let a1 = m31_reduce(state.registers[15]);
    let a2 = m31_reduce(state.registers[16]);
    let a3 = m31_reduce(state.registers[17]);
    let b0 = m31_reduce(state.registers[18]);
    let b1 = m31_reduce(state.registers[19]);
    let b2 = m31_reduce(state.registers[20]);
    let b3 = m31_reduce(state.registers[21]);

    let lo0 = m31_sub(m31_mul(a0, b0), m31_mul(a1, b1));
    let lo1 = m31_add(m31_mul(a0, b1), m31_mul(a1, b0));
    let hi0 = m31_sub(m31_mul(a2, b2), m31_mul(a3, b3));
    let hi1 = m31_add(m31_mul(a2, b3), m31_mul(a3, b2));
    let c10 = m31_sub(m31_mul(a0, b2), m31_mul(a1, b3));
    let c11 = m31_add(m31_mul(a0, b3), m31_mul(a1, b2));
    let c20 = m31_sub(m31_mul(a2, b0), m31_mul(a3, b1));
    let c21 = m31_add(m31_mul(a2, b1), m31_mul(a3, b0));
    let nr0 = m31_sub(m31_add(hi0, hi0), hi1);
    let nr1 = m31_add(m31_add(hi1, hi1), hi0);
    let p00 = m31_add(lo0, nr0);
    let p01 = m31_add(lo1, nr1);
    let p10 = m31_add(c10, c20);
    let p11 = m31_add(c11, c21);

    state.registers[10] = m31_add(d0, p00);
    state.registers[11] = m31_add(d1, p01);
    state.registers[12] = m31_add(d2, p10);
    state.registers[13] = m31_add(d3, p11);

    proof {
        let regs0 = old(state).registers@;
        let dd = seq![
            spec_m31_reduce(regs0[10]),
            spec_m31_reduce(regs0[11]),
            spec_m31_reduce(regs0[12]),
            spec_m31_reduce(regs0[13]),
        ];
        let aa = seq![
            spec_m31_reduce(regs0[14]),
            spec_m31_reduce(regs0[15]),
            spec_m31_reduce(regs0[16]),
            spec_m31_reduce(regs0[17]),
        ];
        let bb = seq![
            spec_m31_reduce(regs0[18]),
            spec_m31_reduce(regs0[19]),
            spec_m31_reduce(regs0[20]),
            spec_m31_reduce(regs0[21]),
        ];
        let rr = spec_quartic_fma(dd, aa, bb);
        assert(state.registers@[10] == rr[0]);
        assert(state.registers@[11] == rr[1]);
        assert(state.registers@[12] == rr[2]);
        assert(state.registers@[13] == rr[3]);
        assert(state.registers@ =~= spec_mersenne_fma_regs(regs0));
    }
    let accesses: Vec<BatchAccessPartialData> = Vec::new();
    tracer.trace_batch_memory_access(
        MERSENNE_EXT4_FMA_ACCESS_ID,
        0,
        &accesses,
        proc_cycle,
        cycle_timestamp,
    );
}

} // verus!
