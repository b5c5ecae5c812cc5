use vstd::prelude::*;

use crate::abstractions::memory::MemorySource;
use crate::abstractions::non_determinism::NonDeterminismCSRSource;
use crate::abstractions::tracer::Tracer;
use crate::cycle::state::RiscV32State;
use crate::cycle::status_registers::TrapReason;
use crate::mmu::MMUImplementation;

verus! {

/// Handler for CSR indices outside the standard machine set. Each
/// implementation states, through `spec_read_pre` and `spec_write_pre`,
/// the guest-host contract its accesses assume: an access outside that
/// contract is a bug in the host wiring, not a guest trap, and the caller
/// must rule it out.
pub trait CustomCSRProcessor: Sized {
    /// What a read at `csr_index` assumes of the machine.
    spec fn spec_read_pre(&self, state: RiscV32State, mem: Seq<u32>, csr_index: u32, rs1_value: u32, zimm: u32) -> bool;

    /// What a write at `csr_index` assumes of the machine.
    spec fn spec_write_pre(&self, state: RiscV32State, mem: Seq<u32>, csr_index: u32, rs1_value: u32, zimm: u32) -> bool;

    /// What a read at `csr_index` does: how the machine after relates to
    /// the machine before, which value lands in the destination and which
    /// trap is raised.
    spec fn spec_read_rel(
        &self,
        pre_state: RiscV32State,
        pre_mem: Seq<u32>,
        csr_index: u32,
        rs1_value: u32,
        zimm: u32,
        post: Self,
        post_state: RiscV32State,
        post_mem: Seq<u32>,
        ret_val: u32,
        post_trap: TrapReason,
    ) -> bool;

    /// What a write at `csr_index` does. The oracle port is not part of
    /// the relation: a processor that consults it promises only what its
    /// kernels state.
    spec fn spec_write_rel(
        &self,
        pre_state: RiscV32State,
        pre_mem: Seq<u32>,
        csr_index: u32,
        rs1_value: u32,
        zimm: u32,
        post: Self,
        post_state: RiscV32State,
        post_mem: Seq<u32>,
        post_trap: TrapReason,
    ) -> bool;

    fn process_read<M: MemorySource, TR: Tracer, ND: NonDeterminismCSRSource<M>, MMU: MMUImplementation<M, TR>>(
        &mut self,
        state: &mut RiscV32State,
        memory_source: &mut M,
        non_determinism_source: &mut ND,
        tracer: &mut TR,
        mmu: &mut MMU,
        csr_index: u32,
        rs1_value: u32,
        zimm: u32,
        ret_val: &mut u32,
        trap: &mut TrapReason,
        proc_cycle: u32,
        cycle_timestamp: u32,
    )
        requires
            *old(trap) == TrapReason::NoTrap,
            old(self).spec_read_pre(*old(state), old(memory_source)@, csr_index, rs1_value, zimm),
        ensures
            old(self).spec_read_rel(
                *old(state),
                old(memory_source)@,
                csr_index,
                rs1_value,
                zimm,
                *final(self),
                *final(state),
                final(memory_source)@,
                *final(ret_val),
                *final(trap),
            ),
            *final(mmu) == *old(mmu),
    ;

    fn process_write<M: MemorySource, TR: Tracer, ND: NonDeterminismCSRSource<M>, MMU: MMUImplementation<M, TR>>(
        &mut self,
        state: &mut RiscV32State,
        memory_source: &mut M,
        non_determinism_source: &mut ND,
        tracer: &mut TR,
        mmu: &mut MMU,
        csr_index: u32,
        rs1_value: u32,
        zimm: u32,
        trap: &mut TrapReason,
        proc_cycle: u32,
        cycle_timestamp: u32,
    )
        requires
            *old(trap) == TrapReason::NoTrap,
            old(self).spec_write_pre(*old(state), old(memory_source)@, csr_index, rs1_value, zimm),
        ensures
            old(self).spec_write_rel(
                *old(state),
                old(memory_source)@,
                csr_index,
                rs1_value,
                zimm,
                *final(self),
                *final(state),
                final(memory_source)@,
                *final(trap),
            ),
            *final(mmu) == *old(mmu),
    ;
}

/// The processor for a machine with no custom CSRs: reads return zero,
/// writes raise illegal-instruction.
#[derive(Clone, Copy, Debug, PartialEq, Eq, Structural)]
pub struct NoExtraCSRs;

impl CustomCSRProcessor for NoExtraCSRs {
    open spec fn spec_read_pre(&self, state: RiscV32State, mem: Seq<u32>, csr_index: u32, rs1_value: u32, zimm: u32) -> bool {
        true
    }

    open spec fn spec_write_pre(&self, state: RiscV32State, mem: Seq<u32>, csr_index: u32, rs1_value: u32, zimm: u32) -> bool {
        true
    }

    open spec fn spec_read_rel(
        &self,
        pre_state: RiscV32State,
        pre_mem: Seq<u32>,
        csr_index: u32,
        rs1_value: u32,
        zimm: u32,
        post: Self,
        post_state: RiscV32State,
        post_mem: Seq<u32>,
        ret_val: u32,
        post_trap: TrapReason,
    ) -> bool {
        &&& post == *self
        &&& post_state == pre_state
        &&& post_mem == pre_mem
        &&& ret_val == 0
        &&& post_trap == TrapReason::NoTrap
    }

    open spec fn spec_write_rel(
        &self,
        pre_state: RiscV32State,
        pre_mem: Seq<u32>,
        csr_index: u32,
        rs1_value: u32,
        zimm: u32,
        post: Self,
        post_state: RiscV32State,
        post_mem: Seq<u32>,
        post_trap: TrapReason,
    ) -> bool {
        &&& post == *self
        &&& post_state == pre_state
        &&& post_mem == pre_mem
        &&& post_trap == TrapReason::IllegalInstruction
    }

    fn process_read<M: MemorySource, TR: Tracer, ND: NonDeterminismCSRSource<M>, MMU: MMUImplementation<M, TR>>(
        &mut self,
        state: &mut RiscV32State,
        memory_source: &mut M,
        non_determinism_source: &mut ND,
        tracer: &mut TR,
        mmu: &mut MMU,
        csr_index: u32,
        rs1_value: u32,
        zimm: u32,
        ret_val: &mut u32,
        trap: &mut TrapReason,
        proc_cycle: u32,
        cycle_timestamp: u32,
    ) {
        *ret_val = 0;
    }

    fn process_write<M: MemorySource, TR: Tracer, ND: NonDeterminismCSRSource<M>, MMU: MMUImplementation<M, TR>>(
        &mut self,
        state: &mut RiscV32State,
        memory_source: &mut M,
        non_determinism_source: &mut ND,
        tracer: &mut TR,
        mmu: &mut MMU,
        csr_index: u32,
        rs1_value: u32,
        zimm: u32,
        trap: &mut TrapReason,
        proc_cycle: u32,
        cycle_timestamp: u32,
    ) {
        *trap = TrapReason::IllegalInstruction;
    }
}

} // verus!
