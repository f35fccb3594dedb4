//! The MMU driver: the checks and the ordered register programming that turn on translation
//! and caching.
use vstd::prelude::*;
use crate::layout::{LayoutError, VirtualMemoryLayout};
use crate::attributes::AttributeFields;
use crate::translation_table::{
    page_virt_addr, FixedSizeTranslationTable, GRANULE_64KIB_SIZE, LVL3_ENTRIES,
};

verus! {

/// Level-2 blocks of the default 4 GiB address space.
pub const NUM_LVL2_TABLES: usize = 8;
/// log2 of the default address space size.
pub const ADDR_SPACE_SIZE_SHIFT: u64 = 32;

/// MAIR_EL1: attribute 1 is cacheable normal DRAM (write-back, non-transient, read/write
/// allocate, inner and outer); attribute 0 is device nGnRE memory.
pub const MAIR_VALUE: u64 = (0b1111 << 12) | (0b1111 << 8) | 0b0000_0100;

/// TCR_EL1 fields: 40-bit intermediate physical addresses, 64 KiB granule for TTBR0, inner
/// shareable write-back read/write-allocate walks, and no walks through TTBR1.
pub const TCR_IPS_40_BITS: u64 = 0b010 << 32;
pub const TCR_TG0_64KIB: u64 = 0b01 << 14;
pub const TCR_SH0_INNER: u64 = 0b11 << 12;
pub const TCR_ORGN0_WB_RA_WA: u64 = 0b01 << 10;
pub const TCR_IRGN0_WB_RA_WA: u64 = 0b01 << 8;
pub const TCR_EPD1_DISABLE_TTBR1_WALKS: u64 = 1 << 23;

/// SCTLR_EL1 bits: MMU enable (M), data cache (C), instruction cache (I).
pub const SCTLR_M: u64 = 0x1;
pub const SCTLR_C: u64 = 0x4;
pub const SCTLR_I: u64 = 0x1000;

/// ID_AA64MMFR0_EL1.TGran64 field (bits 27:24); zero means the 64 KiB granule is supported.
pub const ID_AA64MMFR0_TGRAN64_SHIFT: u64 = 24;
pub const ID_AA64MMFR0_TGRAN64_MASK: u64 = 0b1111;

/// TTBR0_EL1.BADDR covers bits 47:1.
pub const TTBR_BADDR_MASK: u64 = 0x0000_FFFF_FFFF_FFFE;

/// Stage 1 of the EL1 translation regime: top byte used, 40-bit physical addresses, 64 KiB
/// granule, inner shareable write-back walks through TTBR0 only, and a region of
/// `2^size_shift` bytes.
pub open spec fn tcr_value(size_shift: u64) -> u64 {
    TCR_IPS_40_BITS | TCR_TG0_64KIB | TCR_SH0_INNER | TCR_ORGN0_WB_RA_WA | TCR_IRGN0_WB_RA_WA
        | TCR_EPD1_DISABLE_TTBR1_WALKS | ((64 - size_shift) as u64 & 0b11_1111)
}

/// The translation control value for the default address space.
pub fn translation_control_value() -> (r: u64)
    ensures
        r == tcr_value(ADDR_SPACE_SIZE_SHIFT),
{
    let t0sz: u64 = 64 - ADDR_SPACE_SIZE_SHIFT;
    TCR_IPS_40_BITS | TCR_TG0_64KIB | TCR_SH0_INNER | TCR_ORGN0_WB_RA_WA | TCR_IRGN0_WB_RA_WA
        | TCR_EPD1_DISABLE_TTBR1_WALKS | (t0sz & 0b11_1111)
}

/// One step of system register programming.
#[derive(Clone, Copy, Debug, PartialEq, Eq, Structural)]
pub enum RegisterWrite {
    Mair(u64),
    Ttbr0(u64),
    Tcr(u64),
    Sctlr(u64),
    /// Instruction synchronization barrier.
    Isb,
}

/// The system registers that the MMU driver reads and writes, with the ordered record of what
/// was written. Hardware is programmed by performing `writes` in order.
pub struct SystemRegisters {
    pub id_aa64mmfr0_el1: u64,
    pub sctlr_el1: u64,
    pub mair_el1: u64,
    pub ttbr0_el1: u64,
    pub tcr_el1: u64,
    pub writes: Vec<RegisterWrite>,
}

/// Whether SCTLR_EL1 has translation on.
pub open spec fn mmu_enabled(sctlr: u64) -> bool {
    sctlr & SCTLR_M == SCTLR_M
}

/// Whether ID_AA64MMFR0_EL1 reports the 64 KiB granule.
pub open spec fn granule_64kib_supported(id_aa64mmfr0: u64) -> bool {
    (id_aa64mmfr0 >> ID_AA64MMFR0_TGRAN64_SHIFT) & ID_AA64MMFR0_TGRAN64_MASK == 0
}

/// The value a TTBR0_EL1 write of `addr` leaves in the register.
pub open spec fn ttbr_value(addr: u64) -> u64 {
    addr & TTBR_BADDR_MASK
}

/// The registers after performing `w`.
pub open spec fn after_write(regs: &SystemRegisters, w: RegisterWrite) -> (u64, u64, u64, u64) {
    match w {
        RegisterWrite::Mair(v) => (regs.sctlr_el1, v, regs.ttbr0_el1, regs.tcr_el1),
        RegisterWrite::Ttbr0(v) => (regs.sctlr_el1, regs.mair_el1, ttbr_value(v), regs.tcr_el1),
        RegisterWrite::Tcr(v) => (regs.sctlr_el1, regs.mair_el1, regs.ttbr0_el1, v),
        RegisterWrite::Sctlr(v) => (v, regs.mair_el1, regs.ttbr0_el1, regs.tcr_el1),
        RegisterWrite::Isb => (regs.sctlr_el1, regs.mair_el1, regs.ttbr0_el1, regs.tcr_el1),
    }
}

/// The sequence that turns translation on for a table whose level-2 table lies at `baddr`:
/// memory attributes, table base, translation control, barrier, MMU and caches on, barrier.
pub open spec fn enable_sequence(sctlr: u64, baddr: u64) -> Seq<RegisterWrite> {
    seq![
        RegisterWrite::Mair(MAIR_VALUE),
        RegisterWrite::Ttbr0(baddr),
        RegisterWrite::Tcr(tcr_value(ADDR_SPACE_SIZE_SHIFT)),
        RegisterWrite::Isb,
        RegisterWrite::Sctlr(sctlr | SCTLR_M | SCTLR_C | SCTLR_I),
        RegisterWrite::Isb,
    ]
}

impl SystemRegisters {
    /// A snapshot of the hardware state, with nothing written yet.
    pub fn new(id_aa64mmfr0_el1: u64, sctlr_el1: u64) -> (r: Self)
        ensures
            r.id_aa64mmfr0_el1 == id_aa64mmfr0_el1,
            r.sctlr_el1 == sctlr_el1,
            r.mair_el1 == 0,
            r.ttbr0_el1 == 0,
            r.tcr_el1 == 0,
            r.writes@ == Seq::<RegisterWrite>::empty(),
    {
        SystemRegisters {
            id_aa64mmfr0_el1,
            sctlr_el1,
            mair_el1: 0,
            ttbr0_el1: 0,
            tcr_el1: 0,
            writes: Vec::new(),
        }
    }

    /// Performs `w` and records it.
    pub fn write(&mut self, w: RegisterWrite)
        ensures
            final(self).writes@ == old(self).writes@.push(w),
            final(self).id_aa64mmfr0_el1 == old(self).id_aa64mmfr0_el1,
            after_write(old(self), w) == (
                final(self).sctlr_el1,
                final(self).mair_el1,
                final(self).ttbr0_el1,
                final(self).tcr_el1,
            ),
    {
        match w {
            RegisterWrite::Mair(v) => {
                self.mair_el1 = v;
            },
            RegisterWrite::Ttbr0(v) => {
                self.ttbr0_el1 = v & TTBR_BADDR_MASK;
            },
            RegisterWrite::Tcr(v) => {
                self.tcr_el1 = v;
            },
            RegisterWrite::Sctlr(v) => {
                self.sctlr_el1 = v;
            },
            RegisterWrite::Isb => {},
        }
        self.writes.push(w);
    }
}

/// Why the MMU could not be turned on.
#[derive(Clone, Copy, Debug, PartialEq, Eq, Structural)]
pub enum MMUEnableError {
    /// Translation is already on.
    AlreadyEnabled,
    /// The CPU lacks the 64 KiB translation granule.
    GranuleUnsupported,
    /// The layout could not classify an address of the address space.
    LayoutClassificationFailed(LayoutError),
}

/// The MMU driver.
pub struct MemoryManagementUnit;

/// The MMU instance.
pub fn mmu() -> (r: MemoryManagementUnit) {
    MemoryManagementUnit
}

impl MemoryManagementUnit {
    /// Whether translation is on.
    pub fn is_enabled(&self, regs: &SystemRegisters) -> (r: bool)
        ensures
            r == mmu_enabled(regs.sctlr_el1),
    {
        regs.sctlr_el1 & SCTLR_M == SCTLR_M
    }

    /// Whether the CPU supports the 64 KiB granule.
    pub fn granule_supported(&self, regs: &SystemRegisters) -> (r: bool)
        ensures
            r == granule_64kib_supported(regs.id_aa64mmfr0_el1),
    {
        (regs.id_aa64mmfr0_el1 >> ID_AA64MMFR0_TGRAN64_SHIFT) & ID_AA64MMFR0_TGRAN64_MASK == 0
    }

    /// Setup of the MAIR_EL1 register.
    fn set_up_mair(&self, regs: &mut SystemRegisters)
        ensures
            final(regs).writes@ == old(regs).writes@.push(RegisterWrite::Mair(MAIR_VALUE)),
            final(regs).id_aa64mmfr0_el1 == old(regs).id_aa64mmfr0_el1,
            final(regs).sctlr_el1 == old(regs).sctlr_el1,
            final(regs).mair_el1 == MAIR_VALUE,
            final(regs).ttbr0_el1 == old(regs).ttbr0_el1,
            final(regs).tcr_el1 == old(regs).tcr_el1,
    {
        regs.write(RegisterWrite::Mair(MAIR_VALUE));
    }

    /// Configures stage 1 of the EL1 translation regime.
    fn configure_translation_control(&self, regs: &mut SystemRegisters)
        ensures
            final(regs).writes@ == old(regs).writes@.push(
                RegisterWrite::Tcr(tcr_value(ADDR_SPACE_SIZE_SHIFT)),
            ),
            final(regs).id_aa64mmfr0_el1 == old(regs).id_aa64mmfr0_el1,
            final(regs).sctlr_el1 == old(regs).sctlr_el1,
            final(regs).mair_el1 == old(regs).mair_el1,
            final(regs).ttbr0_el1 == old(regs).ttbr0_el1,
            final(regs).tcr_el1 == tcr_value(ADDR_SPACE_SIZE_SHIFT),
    {
        regs.write(RegisterWrite::Tcr(translation_control_value()));
    }

    /// Turns on translation with `layout`, populating `table` first.
    ///
    /// Fails, writing nothing and leaving the table as it was, when translation is already on
    /// or the CPU lacks the 64 KiB granule. When the layout fails on an address, only the
    /// memory attributes have been programmed and the table is left as it was. Otherwise the
    /// table is populated and the full enable sequence is written, in order.
    pub fn enable_mmu_and_caching<L: VirtualMemoryLayout>(
        &self,
        regs: &mut SystemRegisters,
        table: &mut FixedSizeTranslationTable,
        layout: &L,
    ) -> (r: Result<(), MMUEnableError>)
        requires
            old(table).wf(),
            old(table).num_tables() == NUM_LVL2_TABLES,
        ensures
            final(regs).id_aa64mmfr0_el1 == old(regs).id_aa64mmfr0_el1,
            final(table).base() == old(table).base(),
            final(table).num_tables() == old(table).num_tables(),
            final(table).wf(),
            mmu_enabled(old(regs).sctlr_el1) ==> r == Err::<(), MMUEnableError>(
                MMUEnableError::AlreadyEnabled,
            ),
            !mmu_enabled(old(regs).sctlr_el1) && !granule_64kib_supported(
                old(regs).id_aa64mmfr0_el1,
            ) ==> r == Err::<(), MMUEnableError>(MMUEnableError::GranuleUnsupported),
            r == Err::<(), MMUEnableError>(MMUEnableError::AlreadyEnabled) || r == Err::<
                (),
                MMUEnableError,
            >(MMUEnableError::GranuleUnsupported) ==> final(regs).writes@ == old(regs).writes@
                && final(regs).sctlr_el1 == old(regs).sctlr_el1 && final(regs).mair_el1 == old(
                regs,
            ).mair_el1 && final(regs).ttbr0_el1 == old(regs).ttbr0_el1 && final(regs).tcr_el1
                == old(regs).tcr_el1,
            !mmu_enabled(old(regs).sctlr_el1) && granule_64kib_supported(old(regs).id_aa64mmfr0_el1)
                ==> {
                &&& r.is_ok() <==> old(table).layout_covers(layout)
                &&& r.is_ok() ==> final(table).populated_with(layout) && final(regs).writes@ == old(
                    regs,
                ).writes@ + enable_sequence(
                    old(regs).sctlr_el1,
                    (old(table).base() + NUM_LVL2_TABLES * GRANULE_64KIB_SIZE) as u64,
                )
                &&& r.is_ok() ==> final(regs).sctlr_el1 == old(regs).sctlr_el1 | SCTLR_M | SCTLR_C
                    | SCTLR_I && final(regs).mair_el1 == MAIR_VALUE && final(regs).ttbr0_el1
                    == ttbr_value((old(table).base() + NUM_LVL2_TABLES * GRANULE_64KIB_SIZE) as u64)
                    && final(regs).tcr_el1 == tcr_value(ADDR_SPACE_SIZE_SHIFT)
                &&& r.is_err() ==> final(regs).mair_el1 == MAIR_VALUE && final(regs).sctlr_el1 == old(
                    regs,
                ).sctlr_el1 && final(regs).ttbr0_el1 == old(regs).ttbr0_el1 && final(regs).tcr_el1
                    == old(regs).tcr_el1
                &&& r.is_err() ==> *final(table) == *old(table) && final(regs).writes@ == old(
                    regs,
                ).writes@.push(RegisterWrite::Mair(MAIR_VALUE)) && (exists|k: int|
                    0 <= k < NUM_LVL2_TABLES * LVL3_ENTRIES && #[trigger] layout.spec_virt_addr_properties(
                        page_virt_addr(k),
                    ) == Err::<(u64, AttributeFields), LayoutError>(r->Err_0->LayoutClassificationFailed_0)
                        && r->Err_0 is LayoutClassificationFailed)
            },
            r.is_ok() ==> mmu_enabled(final(regs).sctlr_el1),
            r.is_err() ==> *final(table) == *old(table),
    {
        if self.is_enabled(regs) {
            return Err(MMUEnableError::AlreadyEnabled);
        }
        // Fail early if the translation granule is not supported.
        if !self.granule_supported(regs) {
            return Err(MMUEnableError::GranuleUnsupported);
        }
        // Prepare the memory attribute indirection register.
        self.set_up_mair(regs);
        // Populate the translation tables.
        match table.populate_tt_entries(layout) {
            Ok(()) => {},
            Err(e) => {
                return Err(MMUEnableError::LayoutClassificationFailed(e));
            },
        }
        // Point the translation table base register at the level-2 table.
        let baddr = table.phys_base_address();
        regs.write(RegisterWrite::Ttbr0(baddr));
        self.configure_translation_control(regs);
        // Force all previous changes to be seen before the MMU is enabled.
        regs.write(RegisterWrite::Isb);
        // Enable the MMU and turn on data and instruction caching.
        let old_sctlr = regs.sctlr_el1;
        let sctlr = old_sctlr | SCTLR_M | SCTLR_C | SCTLR_I;
        proof {
            assert(mmu_enabled(sctlr)) by (bit_vector)
                requires
                    sctlr == old_sctlr | 1u64 | 4u64 | 0x1000u64,
            ;
        }
        regs.write(RegisterWrite::Sctlr(sctlr));
        // Force MMU init to complete before the next instruction.
        regs.write(RegisterWrite::Isb);
        Ok(())
    }
}

/// The control value that a successful enable writes has translation on. A later enable then
/// meets the `AlreadyEnabled` case of its contract, which writes no register.
pub proof fn lemma_enabled_after_enable(sctlr: u64, baddr: u64)
    ensures
        enable_sequence(sctlr, baddr)[4] == RegisterWrite::Sctlr(sctlr | SCTLR_M | SCTLR_C | SCTLR_I),
        mmu_enabled(sctlr | SCTLR_M | SCTLR_C | SCTLR_I),
{
    assert(mmu_enabled(sctlr | 1u64 | 4u64 | 0x1000u64)) by (bit_vector);
}

} // verus!
