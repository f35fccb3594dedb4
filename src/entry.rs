//! The register values of the boot core's drop from EL2 to EL1.
use vstd::prelude::*;

verus! {

/// CNTHCTL_EL2: EL1 may access the physical timer (EL1PCEN) and counter (EL1PCTEN).
pub const CNTHCTL_EL1PCEN_EL1PCTEN: u64 = 0b11;
/// HCR_EL2.RW: EL1 executes in AArch64.
pub const HCR_RW_EL1_IS_AARCH64: u64 = 0x8000_0000;
/// SPSR_EL2: debug, SError, IRQ and FIQ masked (bits 9 to 6), EL1 with its own stack pointer
/// (M = EL1h).
pub const SPSR_EL2_MASKED_EL1H: u64 = 0x3C0 | 0b0101;

/// What the boot core programs before its exception return from EL2 into EL1.
#[derive(Clone, Copy, Debug, PartialEq, Eq, Structural)]
pub struct El1Transition {
    pub cnthctl_el2: u64,
    /// Offset of the virtual counter.
    pub cntvoff_el2: u64,
    pub hcr_el2: u64,
    /// The simulated saved program status that the exception return restores.
    pub spsr_el2: u64,
    /// Where the exception return lands.
    pub elr_el2: u64,
    /// The EL1 stack pointer.
    pub sp_el1: u64,
}

/// Prepares the transition from EL2 to EL1: timers usable at EL1 with no counter offset,
/// EL1 in AArch64, all interrupts masked on arrival, landing at `start_main_addr` on the boot
/// core's stack, reused as it is.
pub fn prepare_el2_to_el1_transition(
    phys_boot_core_stack_end_exclusive_addr: u64,
    start_main_addr: u64,
) -> (r: El1Transition)
    ensures
        r == (El1Transition {
            cnthctl_el2: CNTHCTL_EL1PCEN_EL1PCTEN,
            cntvoff_el2: 0,
            hcr_el2: HCR_RW_EL1_IS_AARCH64,
            spsr_el2: SPSR_EL2_MASKED_EL1H,
            elr_el2: start_main_addr,
            sp_el1: phys_boot_core_stack_end_exclusive_addr,
        }),
{
    El1Transition {
        cnthctl_el2: CNTHCTL_EL1PCEN_EL1PCTEN,
        cntvoff_el2: 0,
        hcr_el2: HCR_RW_EL1_IS_AARCH64,
        spsr_el2: SPSR_EL2_MASKED_EL1H,
        elr_el2: start_main_addr,
        sp_el1: phys_boot_core_stack_end_exclusive_addr,
    }
}

/// The number of the executing core, from MPIDR_EL1 (affinity level 0, bits 1 and 0).
pub fn core_id(mpidr_el1: u64) -> (r: u8)
    ensures
        r == mpidr_el1 & 0b11,
{
    let aff0: u64 = mpidr_el1 & 0b11;
    assert(aff0 <= 3) by (bit_vector)
        requires
            aff0 == mpidr_el1 & 0b11,
    ;
    aff0 as u8
}

} // verus!
