use vstd::prelude::*;

use crate::runner::DEFAULT_ENTRY_POINT;

verus! {

/// What a simulation run needs: where the binary image lives, where the
/// guest starts, and how many cycles to spend at most.
pub struct SimulatorConfig {
    pub bin_path: String,
    pub entry_point: u32,
    pub cycles: usize,
    pub diagnostics: Option<DiagnosticsConfig>,
}

impl SimulatorConfig {
    /// The everyday configuration: the default entry point, a budget of
    /// 0x40_0000 cycles, no diagnostics.
    pub fn simple(bin_path: String) -> (r: Self)
        ensures
            r.entry_point == DEFAULT_ENTRY_POINT,
            r.cycles == 0x40_0000,
            r.diagnostics is None,
    {
        Self::new(bin_path, DEFAULT_ENTRY_POINT, 0x40_0000, None)
    }

    pub fn new(
        bin_path: String,
        entry_point: u32,
        cycles: usize,
        diagnostics: Option<DiagnosticsConfig>,
    ) -> (r: Self)
        ensures
            r.entry_point == entry_point,
            r.cycles == cycles,
            (r.diagnostics is Some) == (diagnostics is Some),
    {
        Self { bin_path, entry_point, cycles, diagnostics }
    }
}

/// Where the symbol file for diagnostics lives, and the profiler setup
/// if profiling is wanted; the host-side tooling interprets both.
pub struct DiagnosticsConfig {
    pub symbols_path: String,
    pub profiler_config: Option<ProfilerConfig>,
}

impl DiagnosticsConfig {
    pub fn new(symbols_path: String) -> (r: Self)
        ensures
            r.profiler_config is None,
    {
        Self { symbols_path, profiler_config: None }
    }
}

/// Where the profiler writes its graph, whether the stacks are reversed,
/// and one sample per how many cycles.
pub struct ProfilerConfig {
    pub output_path: String,
    pub reverse_graph: bool,
    pub frequency_recip: u32,
}

impl ProfilerConfig {
    pub fn new(output_path: String) -> (r: Self)
        ensures
            r.reverse_graph == false,
            r.frequency_recip == 100,
    {
        Self { output_path, reverse_graph: false, frequency_recip: 100 }
    }
}

} // verus!
