use vstd::prelude::*;

pub mod opcode_formats;
pub mod state;
pub mod status_registers;

verus! {

/// The ISA feature set of a machine, fixed before the first cycle and
/// never changed between cycles.
pub trait MachineConfig: Sized {
    spec fn spec_support_signed_mul() -> bool;

    spec fn spec_support_signed_div() -> bool;

    spec fn spec_support_signed_load() -> bool;

    spec fn spec_support_load_less_than_word() -> bool;

    spec fn spec_support_sra() -> bool;

    spec fn spec_support_rot() -> bool;

    spec fn spec_support_mops() -> bool;

    spec fn spec_handle_exceptions() -> bool;

    spec fn spec_support_standard_csrs() -> bool;

    spec fn spec_support_only_csrrw() -> bool;

    fn support_signed_mul() -> (r: bool)
        ensures
            r == Self::spec_support_signed_mul(),
    ;

    fn support_signed_div() -> (r: bool)
        ensures
            r == Self::spec_support_signed_div(),
    ;

    fn support_signed_load() -> (r: bool)
        ensures
            r == Self::spec_support_signed_load(),
    ;

    fn support_load_less_than_word() -> (r: bool)
        ensures
            r == Self::spec_support_load_less_than_word(),
    ;

    fn support_sra() -> (r: bool)
        ensures
            r == Self::spec_support_sra(),
    ;

    fn support_rot() -> (r: bool)
        ensures
            r == Self::spec_support_rot(),
    ;

    fn support_mops() -> (r: bool)
        ensures
            r == Self::spec_support_mops(),
    ;

    fn handle_exceptions() -> (r: bool)
        ensures
            r == Self::spec_handle_exceptions(),
    ;

    fn support_standard_csrs() -> (r: bool)
        ensures
            r == Self::spec_support_standard_csrs(),
    ;

    fn support_only_csrrw() -> (r: bool)
        ensures
            r == Self::spec_support_only_csrrw(),
    ;
}

/// The full IM instruction set.
#[derive(Clone, Copy, Debug, Hash, PartialEq, Eq, Structural)]
pub struct IMStandardIsaConfig;

impl MachineConfig for IMStandardIsaConfig {
    open spec fn spec_support_signed_mul() -> bool {
        true
    }

    open spec fn spec_support_signed_div() -> bool {
        true
    }

    open spec fn spec_support_signed_load() -> bool {
        true
    }

    open spec fn spec_support_load_less_than_word() -> bool {
        true
    }

    open spec fn spec_support_sra() -> bool {
        true
    }

    open spec fn spec_support_rot() -> bool {
        false
    }

    open spec fn spec_support_mops() -> bool {
        false
    }

    open spec fn spec_handle_exceptions() -> bool {
        false
    }

    open spec fn spec_support_standard_csrs() -> bool {
        false
    }

    open spec fn spec_support_only_csrrw() -> bool {
        true
    }

    fn support_signed_mul() -> (r: bool) {
        true
    }

    fn support_signed_div() -> (r: bool) {
        true
    }

    fn support_signed_load() -> (r: bool) {
        true
    }

    fn support_load_less_than_word() -> (r: bool) {
        true
    }

    fn support_sra() -> (r: bool) {
        true
    }

    fn support_rot() -> (r: bool) {
        false
    }

    fn support_mops() -> (r: bool) {
        false
    }

    fn handle_exceptions() -> (r: bool) {
        false
    }

    fn support_standard_csrs() -> (r: bool) {
        false
    }

    fn support_only_csrrw() -> (r: bool) {
        true
    }
}

/// The reduced subset used by the proving backend.
#[derive(Clone, Copy, Debug, Hash, PartialEq, Eq, Structural)]
pub struct ReducedIMIsaConfig;

impl MachineConfig for ReducedIMIsaConfig {
    open spec fn spec_support_signed_mul() -> bool {
        false
    }

    open spec fn spec_support_signed_div() -> bool {
        false
    }

    open spec fn spec_support_signed_load() -> bool {
        false
    }

    open spec fn spec_support_load_less_than_word() -> bool {
        false
    }

    open spec fn spec_support_sra() -> bool {
        false
    }

    open spec fn spec_support_rot() -> bool {
        false
    }

    open spec fn spec_support_mops() -> bool {
        true
    }

    open spec fn spec_handle_exceptions() -> bool {
        false
    }

    open spec fn spec_support_standard_csrs() -> bool {
        false
    }

    open spec fn spec_support_only_csrrw() -> bool {
        true
    }

    fn support_signed_mul() -> (r: bool) {
        false
    }

    fn support_signed_div() -> (r: bool) {
        false
    }

    fn support_signed_load() -> (r: bool) {
        false
    }

    fn support_load_less_than_word() -> (r: bool) {
        false
    }

    fn support_sra() -> (r: bool) {
        false
    }

    fn support_rot() -> (r: bool) {
        false
    }

    fn support_mops() -> (r: bool) {
        true
    }

    fn handle_exceptions() -> (r: bool) {
        false
    }

    fn support_standard_csrs() -> (r: bool) {
        false
    }

    fn support_only_csrrw() -> (r: bool) {
        true
    }
}

} // verus!
