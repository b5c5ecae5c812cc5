use vstd::prelude::*;

use crate::cycle::state::RiscV32State;

verus! {

/// One slot of a batched delegation access: either a plain read, or a
/// write carrying both the pre-image and the post-image of the word.
#[derive(Clone, Copy, Debug, PartialEq, Eq, Structural)]
pub enum BatchAccessPartialData {
    Read { read_value: u32 },
    Write { read_value: u32, written_value: u32 },
}

/// Observer of every architectural event. The cycle engine promises
/// nothing about a tracer's state: implementations are free to record
/// events however they wish, and a no-op implementation exists for
/// performance runs.
pub trait Tracer: Sized {
    type AuxData;

    fn create_from_initial_state(state: &RiscV32State, aux_data: Self::AuxData) -> Self;

    fn at_cycle_start(&mut self, current_state: &RiscV32State) {
    }

    fn at_cycle_end(&mut self, current_state: &RiscV32State) {
    }

    fn trace_opcode_read(
        &mut self,
        phys_address: u64,
        read_value: u32,
        proc_cycle: u32,
        cycle_timestamp: u32,
    ) {
    }

    fn trace_rs1_read(
        &mut self,
        reg_idx: u32,
        read_value: u32,
        proc_cycle: u32,
        cycle_timestamp: u32,
    ) {
    }

    fn trace_rs2_read(
        &mut self,
        reg_idx: u32,
        read_value: u32,
        proc_cycle: u32,
        cycle_timestamp: u32,
    ) {
    }

    fn trace_rd_write(
        &mut self,
        reg_idx: u32,
        read_value: u32,
        written_value: u32,
        proc_cycle: u32,
        cycle_timestamp: u32,
    ) {
    }

    fn trace_non_determinism_read(&mut self, read_value: u32, proc_cycle: u32, cycle_timestamp: u32) {
    }

    fn trace_non_determinism_write(
        &mut self,
        written_value: u32,
        proc_cycle: u32,
        cycle_timestamp: u32,
    ) {
    }

    fn trace_ram_read(
        &mut self,
        phys_address: u64,
        read_value: u32,
        proc_cycle: u32,
        cycle_timestamp: u32,
    ) {
    }

    fn trace_ram_read_write(
        &mut self,
        phys_address: u64,
        read_value: u32,
        written_value: u32,
        proc_cycle: u32,
        cycle_timestamp: u32,
    ) {
    }

    fn trace_address_translation(
        &mut self,
        satp_value: u32,
        virtual_address: u64,
        phys_address: u64,
        proc_cycle: u32,
        cycle_timestamp: u32,
    ) {
    }

    fn trace_batch_memory_access(
        &mut self,
        access_id: u32,
        phys_address_high: u16,
        accesses: &Vec<BatchAccessPartialData>,
        proc_cycle: u32,
        cycle_timestamp: u32,
    ) {
    }
}

/// The no-op tracer.
impl Tracer for () {
    type AuxData = ();

    fn create_from_initial_state(state: &RiscV32State, aux_data: Self::AuxData) -> Self {
    }
}

} // verus!
