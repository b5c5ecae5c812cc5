pub mod abstractions;
pub mod cycle;
pub mod delegations;
pub mod mmio;
pub mod mmu;
pub mod qol;
pub mod runner;
pub mod sim;
