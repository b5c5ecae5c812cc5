use vstd::prelude::*;

use crate::abstractions::memory::MemorySource;
use crate::abstractions::tracer::BatchAccessPartialData;
use crate::abstractions::tracer::Tracer;
use crate::cycle::state::NON_DETERMINISM_CSR;
use crate::cycle::status_registers::TrapReason;
use crate::delegations::blake2_mixing::spec_blake2s_iv;
use crate::delegations::blake2_mixing::spec_rounds;
use crate::delegations::blake2_mixing::blake2s_iv;
use crate::delegations::blake2_mixing::run_rounds;
use crate::delegations::lemma_deleg_offset;
use crate::delegations::region_read;
use crate::delegations::region_write;
use crate::delegations::spec_deleg_base;
use crate::delegations::spec_store_words;

verus! {

broadcast use vstd::array::group_array_axioms;

/// The region holds 8 state words, the absorbed-length word, the
/// finalisation word, and 16 message words.
pub const BLAKE2S_ROUND_FUNCTION_ABI_NUM_MEM_ACCESSES: usize = 26;

pub const BLAKE2S_ACCESS_ID: u32 = NON_DETERMINISM_CSR + 1;

/// The guest-host contract of the full compression kernel: an aligned
/// region that fits in memory.
pub open spec fn spec_blake2s_pre(mem: Seq<u32>, rs1: u32) -> bool {
    &&& rs1 & 0xffffu32 == 0
    &&& spec_deleg_base(rs1) + 26 <= mem.len()
}

/// The extended state the compression starts from: the region's eight
/// state words, the initialisation words, and the region's length and
/// finalisation words in lanes 12 and 14.
pub open spec fn spec_blake2s_initial_ext(mem: Seq<u32>, base: int) -> Seq<u32> {
    Seq::new(
        16,
        |i: int|
            if i < 8 {
                mem[base + i]
            } else if i == 12 {
                mem[base + 8]
            } else if i == 14 {
                mem[base + 9]
            } else if i < 12 {
                spec_blake2s_iv(i - 8)
            } else if i == 13 {
                spec_blake2s_iv(5)
            } else {
                spec_blake2s_iv(7)
            },
    )
}

/// The eight words the kernel writes back: the input state folded, by
/// xor, with both halves of the extended state after all mixing rounds
/// (ten full, or seven in the reduced variant).
pub open spec fn spec_blake2s_result(mem: Seq<u32>, base: int, reduced: bool) -> Seq<u32> {
    let rounds: int = if reduced {
        7
    } else {
        10
    };
    let v = spec_rounds(
        spec_blake2s_initial_ext(mem, base),
        Seq::new(16, |i: int| mem[base + 10 + i]),
        rounds,
    );
    Seq::new(8, |i: int| mem[base + i] ^ v[i] ^ v[i + 8])
}

/// The full compression kernel: absorbs one message block into the
/// eight-word state held in the ABI region.
#[verifier::rlimit(100)]
#[verifier::spinoff_prover]
pub fn blake2s_round_function<M: MemorySource, TR: Tracer, const REDUCED_ROUNDS: bool>(
    memory_source: &mut M,
    tracer: &mut TR,
    rs1_value: u32,
    trap: &mut TrapReason,
    proc_cycle: u32,
    cycle_timestamp: u32,
)
    requires
        *old(trap) == TrapReason::NoTrap,
        spec_blake2s_pre(old(memory_source)@, rs1_value),
    ensures
        *final(trap) == TrapReason::NoTrap,
        final(memory_source)@ == spec_store_words(
            old(memory_source)@,
            spec_deleg_base(rs1_value),
            spec_blake2s_result(old(memory_source)@, spec_deleg_base(rs1_value), REDUCED_ROUNDS),
        ),
{
    proof {
        lemma_deleg_offset(rs1_value);
    }
    let mem_offset = rs1_value & 0xffff_0000;
    let ghost base = spec_deleg_base(rs1_value);
    let mut accesses: Vec<BatchAccessPartialData> = Vec::new();
    let mut h = [0u32;8];
    let mut i: usize = 0;
    while i < 8
        invariant
            i <= 8,
            *trap == TrapReason::NoTrap,
            mem_offset == rs1_value,
            spec_blake2s_pre(memory_source@, rs1_value),
            memory_source@ == old(memory_source)@,
            base == spec_deleg_base(rs1_value),
            mem_offset % 4 == 0,
            accesses@.len() == i,
            forall|j: int| 0 <= j < i ==> h@[j] == memory_source@[base + j],
        decreases 8 - i,
    {
        let v = region_read(memory_source, mem_offset, i as u32, trap);
        h[i] = v;
        accesses.push(BatchAccessPartialData::Write { read_value: v, written_value: 0 });
        i = i + 1;
    }
    let initial_state = h;
    let absorbed_len = region_read(memory_source, mem_offset, 8, trap);
    accesses.push(BatchAccessPartialData::Read { read_value: absorbed_len });
    let finalization = region_read(memory_source, mem_offset, 9, trap);
    accesses.push(BatchAccessPartialData::Read { read_value: finalization });
    let mut extended_state = [0u32;16];
    let mut e: usize = 0;
    while e < 8
        invariant
            e <= 8,
            forall|j: int| 0 <= j < e ==> extended_state@[j] == h@[j],
        decreases 8 - e,
    {
        extended_state[e] = h[e];
        e = e + 1;
    }
    extended_state[8] = blake2s_iv(0);
    extended_state[9] = blake2s_iv(1);
    extended_state[10] = blake2s_iv(2);
    extended_state[11] = blake2s_iv(3);
    extended_state[12] = absorbed_len;
    extended_state[13] = blake2s_iv(5);
    extended_state[14] = finalization;
    extended_state[15] = blake2s_iv(7);
    let mut message_block = [0u32;16];
    let mut k: usize = 0;
    while k < 16
        invariant
            k <= 16,
            *trap == TrapReason::NoTrap,
            mem_offset == rs1_value,
            spec_blake2s_pre(memory_source@, rs1_value),
            memory_source@ == old(memory_source)@,
            base == spec_deleg_base(rs1_value),
            mem_offset % 4 == 0,
            accesses@.len() == 10 + k,
            forall|j: int| 0 <= j < k ==> message_block@[j] == memory_source@[base + 10 + j],
        decreases 16 - k,
    {
        let v = region_read(memory_source, mem_offset, (10 + k) as u32, trap);
        message_block[k] = v;
        accesses.push(BatchAccessPartialData::Read { read_value: v });
        k = k + 1;
    }
    proof {
        assert(extended_state@ =~= spec_blake2s_initial_ext(old(memory_source)@, base));
        assert(message_block@ =~= Seq::new(16, |j: int| old(memory_source)@[base + 10 + j]));
    }
    if REDUCED_ROUNDS {
        run_rounds(&mut extended_state, &message_block, 7);
    } else {
        run_rounds(&mut extended_state, &message_block, 10);
    }
    let mut x: usize = 0;
    while x < 8
        invariant
            x <= 8,
            extended_state@ == spec_rounds(
                spec_blake2s_initial_ext(old(memory_source)@, base),
                Seq::new(16, |j: int| old(memory_source)@[base + 10 + j]),
                if REDUCED_ROUNDS {
                    7int
                } else {
                    10int
                },
            ),
            forall|j: int|
                0 <= j < x ==> h@[j] == old(memory_source)@[base + j] ^ extended_state@[j]
                    ^ extended_state@[j + 8],
            forall|j: int| x <= j < 8 ==> h@[j] == old(memory_source)@[base + j],
        decreases 8 - x,
    {
        h[x] = h[x] ^ extended_state[x] ^ extended_state[x + 8];
        x = x + 1;
    }
    proof {
        assert(h@ =~= spec_blake2s_result(old(memory_source)@, base, REDUCED_ROUNDS));
    }
    let mut w: usize = 0;
    while w < 8
        invariant
            w <= 8,
            *trap == TrapReason::NoTrap,
            mem_offset == rs1_value,
            mem_offset % 4 == 0,
            base == spec_deleg_base(rs1_value),
            base + 26 <= memory_source@.len(),
            memory_source@.len() == old(memory_source)@.len(),
            h@ == spec_blake2s_result(old(memory_source)@, base, REDUCED_ROUNDS),
            accesses@.len() == 26,
            forall|j: int| 0 <= j < w ==> memory_source@[base + j] == h@[j],
            forall|j: int|
                0 <= j < memory_source@.len() && !(base <= j < base + w) ==> memory_source@[j]
                    == old(memory_source)@[j],
        decreases 8 - w,
    {
        region_write(memory_source, mem_offset, w as u32, h[w], trap);
        accesses[w] = BatchAccessPartialData::Write {
            read_value: initial_state[w],
            written_value: h[w],
        };
        w = w + 1;
    }
    proof {
        assert(memory_source@ =~= spec_store_words(
            old(memory_source)@,
            base,
            spec_blake2s_result(old(memory_source)@, base, REDUCED_ROUNDS),
        ));
    }
    tracer.trace_batch_memory_access(
        BLAKE2S_ACCESS_ID,
        (mem_offset >> 16) as u16,
        &accesses,
        proc_cycle,
        cycle_timestamp,
    );
}

} // verus!
