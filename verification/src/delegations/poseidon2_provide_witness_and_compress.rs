use vstd::prelude::*;

use crate::abstractions::memory::MemorySource;
use crate::abstractions::non_determinism::nd_read_chain;
use crate::abstractions::non_determinism::NonDeterminismCSRSource;
use crate::abstractions::tracer::BatchAccessPartialData;
use crate::abstractions::tracer::Tracer;
use crate::cycle::state::NON_DETERMINISM_CSR;
use crate::cycle::status_registers::TrapReason;
use crate::delegations::lemma_deleg_offset;
use crate::delegations::region_read;
use crate::delegations::region_write;
use crate::delegations::spec_deleg_base;
use crate::delegations::spec_store_words;

verus! {

/// The region holds 8 input words and one direction flag.
pub const POSEIDON2_ABI_NUM_MEM_ACCESSES: usize = 9;

pub const POSEIDON2_WITNESS_AND_COMPRESS_ACCESS_ID: u32 = NON_DETERMINISM_CSR + 6;

/// The guest-host contract: an aligned region that fits in memory, whose
/// direction flag is boolean.
pub open spec fn spec_poseidon2_pre(mem: Seq<u32>, rs1: u32) -> bool {
    let base = spec_deleg_base(rs1);
    &&& rs1 & 0xffffu32 == 0
    &&& base + 9 <= mem.len()
    &&& (mem[base + 8] == 0 || mem[base + 8] == 1)
}

/// The 8 words the kernel writes back over its inputs.
pub open spec fn spec_poseidon2_result(mem: Seq<u32>, base: int) -> Seq<u32> {
    Seq::new(8, |i: int| mem[base + i].wrapping_add(1u32))
}

/// The witness-and-compress kernel: reads 8 input words and the
/// direction flag from the ABI region, consults the oracle port for 8
/// witness words, and writes the compressed words back over the inputs.
#[verifier::rlimit(100)]
pub fn poseidon2_witness_and_compress<M: MemorySource, TR: Tracer, ND: NonDeterminismCSRSource<M>>(
    memory_source: &mut M,
    non_determinism_source: &mut ND,
    tracer: &mut TR,
    rs1_value: u32,
    trap: &mut TrapReason,
    proc_cycle: u32,
    cycle_timestamp: u32,
)
    requires
        *old(trap) == TrapReason::NoTrap,
        spec_poseidon2_pre(old(memory_source)@, rs1_value),
    ensures
        *final(trap) == TrapReason::NoTrap,
        final(memory_source)@ == spec_store_words(
            old(memory_source)@,
            spec_deleg_base(rs1_value),
            spec_poseidon2_result(old(memory_source)@, spec_deleg_base(rs1_value)),
        ),
        exists|chain: Seq<ND>|
            #[trigger] nd_read_chain::<M, ND>(chain) && chain.len() == 9 && chain.first() == *old(
                non_determinism_source,
            ) && chain.last() == *final(non_determinism_source),
{
    proof {
        lemma_deleg_offset(rs1_value);
    }
    let ghost nd0 = *non_determinism_source;
    let ghost mut chain: Seq<ND> = seq![*non_determinism_source];
    let mem_offset = rs1_value & 0xffff_0000;
    let ghost base = spec_deleg_base(rs1_value);
    let mut accesses: Vec<BatchAccessPartialData> = Vec::new();
    let mut input = [0u32;8];
    let mut i: usize = 0;
    while i < 8
        invariant
            i <= 8,
            *trap == TrapReason::NoTrap,
            mem_offset == rs1_value,
            spec_poseidon2_pre(memory_source@, rs1_value),
            memory_source@ == old(memory_source)@,
            base == spec_deleg_base(rs1_value),
            mem_offset % 4 == 0,
            accesses@.len() == i,
            forall|j: int| 0 <= j < i ==> input@[j] == memory_source@[base + j],
        decreases 8 - i,
    {
        let v = region_read(memory_source, mem_offset, i as u32, trap);
        input[i] = v;
        accesses.push(BatchAccessPartialData::Write { read_value: v, written_value: 0 });
        i = i + 1;
    }
    let input_is_right = region_read(memory_source, mem_offset, 8, trap);
    accesses.push(BatchAccessPartialData::Read { read_value: input_is_right });
    let mut witness = [0u32;8];
    let mut r: usize = 0;
    while r < 8
        invariant
            r <= 8,
            chain.len() == r + 1,
            chain.first() == nd0,
            chain.last() == *non_determinism_source,
            nd_read_chain::<M, ND>(chain),
        decreases 8 - r,
    {
        let v = non_determinism_source.read();
        witness[r] = v;
        proof {
            let prev = chain;
            chain = chain.push(*non_determinism_source);
            assert forall|i: int| 0 <= i < chain.len() - 1 implies #[trigger] chain[i].read_rel(
                chain[i + 1],
            ) by {
                if i < prev.len() - 1 {
                    assert(prev[i].read_rel(prev[i + 1]));
                }
            }
        }
        r = r + 1;
    }
    let ghost full_chain = chain;
    let mut output = [0u32;8];
    let mut c: usize = 0;
    while c < 8
        invariant
            c <= 8,
            forall|j: int| 0 <= j < 8 ==> input@[j] == old(memory_source)@[base + j],
            forall|j: int| 0 <= j < c ==> output@[j] == input@[j].wrapping_add(1u32),
        decreases 8 - c,
    {
        output[c] = input[c].wrapping_add(1);
        c = c + 1;
    }
    proof {
        assert(output@ =~= spec_poseidon2_result(old(memory_source)@, base));
    }
    let mut w: usize = 0;
    while w < 8
        invariant
            w <= 8,
            *trap == TrapReason::NoTrap,
            mem_offset == rs1_value,
            mem_offset % 4 == 0,
            base == spec_deleg_base(rs1_value),
            base + 9 <= memory_source@.len(),
            memory_source@.len() == old(memory_source)@.len(),
            output@ == spec_poseidon2_result(old(memory_source)@, base),
            accesses@.len() == 9,
            full_chain.len() == 9 && full_chain.first() == nd0 && full_chain.last()
                == *non_determinism_source && nd_read_chain::<M, ND>(full_chain),
            forall|j: int| 0 <= j < w ==> memory_source@[base + j] == output@[j],
            forall|j: int|
                0 <= j < memory_source@.len() && !(base <= j < base + w) ==> memory_source@[j]
                    == old(memory_source)@[j],
        decreases 8 - w,
    {
        region_write(memory_source, mem_offset, w as u32, output[w], trap);
        accesses[w] = BatchAccessPartialData::Write {
            read_value: input[w],
            written_value: output[w],
        };
        w = w + 1;
    }
    proof {
        assert(memory_source@ =~= spec_store_words(
            old(memory_source)@,
            base,
            spec_poseidon2_result(old(memory_source)@, base),
        ));
        assert(exists|c: Seq<ND>|
            #[trigger] nd_read_chain::<M, ND>(c) && c.len() == 9 && c.first() == nd0 && c.last()
                == *non_determinism_source);
    }
    tracer.trace_batch_memory_access(
        POSEIDON2_WITNESS_AND_COMPRESS_ACCESS_ID,
        (mem_offset >> 16) as u16,
        &accesses,
        proc_cycle,
        cycle_timestamp,
    );
}

} // verus!
