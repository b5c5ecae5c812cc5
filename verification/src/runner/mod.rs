use vstd::prelude::*;

use crate::abstractions::memory::VectorMemoryImpl;
use crate::abstractions::non_determinism::NonDeterminismCSRSource;
use crate::abstractions::non_determinism::QuasiUARTSource;
use crate::abstractions::non_determinism::UartWriteStateView;
use crate::cycle::state::nd_effect_rel;
use crate::cycle::state::spec_cycle_outcome;
use crate::cycle::state::ModeStatusAndTrapRegisters;
use crate::cycle::state::RiscV32State;
use crate::cycle::state::StateTracer;
use crate::cycle::state::TrapHandlingRegisters;
use crate::cycle::state::TrapSetupRegisters;
use crate::cycle::state::TrapStateRegisters;
use crate::mmu::NoMMU;
use crate::sim::SimulatorConfig;

verus! {

/// Where an image lands unless the configuration says otherwise.
pub const DEFAULT_ENTRY_POINT: u32 = 0x0100_0000;

pub const CUSTOM_ENTRY_POINT: u32 = 0;

/// How much backing memory a simple run allocates.
pub const DEFAULT_MEMORY_BYTES: usize = 0x0400_0000;

/// The reset state a driver run starts from: machine mode, cleared
/// registers and trap CSRs, the timer match at infinity, the program
/// counter at the entry point.
pub open spec fn spec_boot_state(s: RiscV32State, entry_point: u32) -> bool {
    &&& forall|i: int| 0 <= i < 32 ==> s.registers[i] == 0u32
    &&& s.pc == entry_point
    &&& s.extra_flags.0 == 3u32
    &&& s.cycle_counter == 0
    &&& s.timer == 0
    &&& s.timer_match == u64::MAX
    &&& s.machine_mode_trap_data == (ModeStatusAndTrapRegisters {
        state: TrapStateRegisters { status: 0, ie: 0, ip: 0 },
        setup: TrapSetupRegisters { tvec: 0 },
        handling: TrapHandlingRegisters { scratch: 0, epc: 0, cause: 0, tval: 0 },
    })
    &&& s.sapt == 0
}

/// The memory a driver run starts from: the image's little-endian words
/// behind the entry point, zero everywhere else.
pub open spec fn spec_boot_mem(mem: Seq<u32>, entry_point: u32, image: Seq<u8>) -> bool {
    &&& mem.len() == DEFAULT_MEMORY_BYTES / 4
    &&& forall|k: int|
        0 <= k < image.len() / 4 ==> #[trigger] mem[entry_point / 4 + k]
            == VectorMemoryImpl::spec_le_word(
            image[4 * k],
            image[4 * k + 1],
            image[4 * k + 2],
            image[4 * k + 3],
        )
    &&& forall|i: int|
        0 <= i < mem.len() && !(entry_point / 4 <= i < entry_point / 4 + image.len() / 4)
            ==> mem[i] == 0u32
}

/// One link of a driver run: the machine state, the memory image and the
/// port source after some number of cycles.
pub struct DriverStep<S> {
    pub state: RiscV32State,
    pub mem: Seq<u32>,
    pub source: S,
}

/// One driver cycle without address translation: the state and memory
/// advance by the cycle outcome, and the source steps as the port effect
/// allows.
pub open spec fn spec_driver_step<S: NonDeterminismCSRSource<VectorMemoryImpl>>(
    pre: DriverStep<S>,
    post: DriverStep<S>,
) -> bool {
    let o = spec_cycle_outcome::<VectorMemoryImpl, (), S, NoMMU>(
        pre.state,
        pre.mem,
        NoMMU,
        pre.source,
        false,
    );
    &&& post.state == o.state
    &&& post.mem == o.mem
    &&& nd_effect_rel::<VectorMemoryImpl, S>(o.nd, o.mem, pre.source, post.source)
}

/// A run of consecutive driver cycles.
pub open spec fn spec_driver_chain<S: NonDeterminismCSRSource<VectorMemoryImpl>>(
    chain: Seq<DriverStep<S>>,
) -> bool {
    forall|i: int| 0 <= i < chain.len() - 1 ==> #[trigger] spec_driver_step(chain[i], chain[i + 1])
}

/// Run an image with the quiet defaults; program output is dropped.
pub fn run_simple_simulator(config: SimulatorConfig, image: Vec<u8>)
    requires
        config.entry_point % 4 == 0,
        image@.len() % 4 == 0,
        config.entry_point / 4 + image@.len() / 4 <= DEFAULT_MEMORY_BYTES / 4,
{
    run_simple_with_entry_point(config, image);
}

/// Run an image with a fresh quasi-UART source; program output is
/// dropped.
pub fn run_simple_with_entry_point(config: SimulatorConfig, image: Vec<u8>)
    requires
        config.entry_point % 4 == 0,
        image@.len() % 4 == 0,
        config.entry_point / 4 + image@.len() / 4 <= DEFAULT_MEMORY_BYTES / 4,
{
    let source = QuasiUARTSource::new();
    run_simple_with_entry_point_and_non_determimism_source(config, image, source);
}

/// The driver loop: load the image, then step cycle by cycle until the
/// budget is spent or the program counter stands still (the guest spins
/// on itself). The run is a chain of cycle outcomes from the reset state
/// over the loaded image; the source returned is the one the chain
/// leaves, for the host to collect output from.
#[verifier::rlimit(100)]
pub fn run_simple_with_entry_point_and_non_determimism_source<
    S: NonDeterminismCSRSource<VectorMemoryImpl>,
>(config: SimulatorConfig, image: Vec<u8>, non_determinism_source: S) -> (r: S)
    requires
        config.entry_point % 4 == 0,
        image@.len() % 4 == 0,
        config.entry_point / 4 + image@.len() / 4 <= DEFAULT_MEMORY_BYTES / 4,
    ensures
        exists|chain: Seq<DriverStep<S>>|
            {
                &&& #[trigger] spec_driver_chain::<S>(chain)
                &&& 1 <= chain.len() <= config.cycles + 1
                &&& spec_boot_state(chain.first().state, config.entry_point)
                &&& spec_boot_mem(chain.first().mem, config.entry_point, image@)
                &&& chain.first().source == non_determinism_source
                &&& r == chain.last().source
                &&& (chain.len() == config.cycles + 1 || (chain.len() >= 2
                    && chain.last().state.pc == chain[chain.len() - 2].state.pc))
            },
{
    let ghost src0 = non_determinism_source;
    let mut memory = VectorMemoryImpl::new_for_byte_size(DEFAULT_MEMORY_BYTES);
    memory.load_image(config.entry_point, &image);
    let mut state = RiscV32State::initial(config.entry_point);
    let mut mmu = NoMMU;
    let mut source = non_determinism_source;
    let mut tracer: () = ();
    let ghost mut chain: Seq<DriverStep<S>> = seq![
        DriverStep { state: state, mem: memory@, source: source },
    ];
    let mut previous_pc = state.pc;
    let mut cycle: usize = 0;
    let budget = config.cycles;
    while cycle < budget
        invariant
            budget == config.cycles,
            src0 == non_determinism_source,
            cycle <= budget,
            state.wf(),
            chain.len() == cycle + 1,
            spec_driver_chain::<S>(chain),
            spec_boot_state(chain.first().state, config.entry_point),
            spec_boot_mem(chain.first().mem, config.entry_point, image@),
            chain.first().source == src0,
            chain.last().state == state,
            chain.last().mem == memory@,
            chain.last().source == source,
            previous_pc == state.pc,
        decreases budget - cycle,
    {
        state.cycle(
            &mut memory,
            &mut tracer,
            &mut mmu,
            &mut source,
            (cycle as u64 % 0x1_0000_0000) as u32,
        );
        proof {
            let prev = chain;
            chain = chain.push(DriverStep { state: state, mem: memory@, source: source });
            assert(spec_driver_step::<S>(prev.last(), chain.last()));
            assert forall|i: int|
                0 <= i < chain.len() - 1 implies #[trigger] spec_driver_step::<S>(
                chain[i],
                chain[i + 1],
            ) by {
                if i < prev.len() - 1 {
                    assert(spec_driver_step::<S>(prev[i], prev[i + 1]));
                }
            }
        }
        if state.pc == previous_pc {
            proof {
                assert(spec_driver_chain::<S>(chain));
                assert(1 <= chain.len());
                assert(chain.len() <= config.cycles + 1);
                assert(spec_boot_state(chain.first().state, config.entry_point));
                assert(spec_boot_mem(chain.first().mem, config.entry_point, image@));
                assert(chain.first().source == src0);
                assert(source == chain.last().source);
                assert(chain.len() >= 2);
                assert(chain.last().state.pc == chain[chain.len() - 2].state.pc);
            }
            return source;
        }
        previous_pc = state.pc;
        cycle = cycle + 1;
    }
    proof {
        assert(spec_driver_chain::<S>(chain));
        assert(chain.len() == config.cycles + 1);
        assert(spec_boot_state(chain.first().state, config.entry_point));
        assert(spec_boot_mem(chain.first().mem, config.entry_point, image@));
        assert(chain.first().source == src0);
        assert(source == chain.last().source);
    }
    source
}

/// Step an image for exactly `cycles` cycles from the zero entry point,
/// recording the architectural state after every cycle. The first
/// recorded state is the reset state, and each later one is the cycle
/// outcome of the one before it, over the evolving memory and a fresh
/// quasi-UART source.
#[verifier::rlimit(100)]
pub fn run_simulator_with_traces(os_image: &Vec<u8>, cycles: usize) -> (r: StateTracer)
    requires
        os_image@.len() % 4 == 0,
        os_image@.len() / 4 <= DEFAULT_MEMORY_BYTES / 4,
        cycles < usize::MAX,
    ensures
        r@.len() == cycles + 1,
        exists|chain: Seq<DriverStep<QuasiUARTSource>>|
            {
                &&& #[trigger] spec_driver_chain::<QuasiUARTSource>(chain)
                &&& chain.len() == cycles + 1
                &&& spec_boot_state(chain.first().state, CUSTOM_ENTRY_POINT)
                &&& spec_boot_mem(chain.first().mem, CUSTOM_ENTRY_POINT, os_image@)
                &&& chain.first().source.oracle@ == Seq::<u32>::empty()
                &&& chain.first().source.write_state@ == UartWriteStateView::Ready
                &&& chain.first().source.messages.deep_view() == Seq::<Seq<u8>>::empty()
                &&& (forall|i: int| 0 <= i < chain.len() ==> r@[i] == #[trigger] chain[i].state)
            },
{
    let mut state = RiscV32State::initial(CUSTOM_ENTRY_POINT);
    let mut state_tracer = StateTracer::new_for_num_cycles(cycles);
    state_tracer.insert(0, state);
    let mut memory = VectorMemoryImpl::new_for_byte_size(DEFAULT_MEMORY_BYTES);
    memory.load_image(CUSTOM_ENTRY_POINT, os_image);
    let mut mmu = NoMMU;
    let mut source = QuasiUARTSource::new();
    proof {
        assert(source.messages.deep_view() =~= Seq::<Seq<u8>>::empty());
    }
    let mut tracer: () = ();
    let ghost mut chain: Seq<DriverStep<QuasiUARTSource>> = seq![
        DriverStep { state: state, mem: memory@, source: source },
    ];
    let mut i: usize = 0;
    while i < cycles
        invariant
            i <= cycles,
            cycles < usize::MAX,
            state.wf(),
            state_tracer@.len() == i + 1,
            chain.len() == i + 1,
            spec_driver_chain::<QuasiUARTSource>(chain),
            spec_boot_state(chain.first().state, CUSTOM_ENTRY_POINT),
            spec_boot_mem(chain.first().mem, CUSTOM_ENTRY_POINT, os_image@),
            chain.first().source.oracle@ == Seq::<u32>::empty(),
            chain.first().source.write_state@ == UartWriteStateView::Ready,
            chain.first().source.messages.deep_view() == Seq::<Seq<u8>>::empty(),
            chain.last().state == state,
            chain.last().mem == memory@,
            chain.last().source == source,
            forall|k: int| 0 <= k < chain.len() ==> state_tracer@[k] == #[trigger] chain[k].state,
        decreases cycles - i,
    {
        state.cycle(
            &mut memory,
            &mut tracer,
            &mut mmu,
            &mut source,
            (i as u64 % 0x1_0000_0000) as u32,
        );
        state_tracer.insert(i + 1, state);
        proof {
            let prev = chain;
            chain = chain.push(DriverStep { state: state, mem: memory@, source: source });
            assert(spec_driver_step::<QuasiUARTSource>(prev.last(), chain.last()));
            assert forall|k: int|
                0 <= k < chain.len() - 1 implies #[trigger] spec_driver_step::<QuasiUARTSource>(
                chain[k],
                chain[k + 1],
            ) by {
                if k < prev.len() - 1 {
                    assert(spec_driver_step::<QuasiUARTSource>(prev[k], prev[k + 1]));
                }
            }
        }
        i = i + 1;
    }
    state_tracer
}

} // verus!
