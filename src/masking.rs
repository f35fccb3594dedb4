//! Interrupt masking on the executing core, over the value of its DAIF register.
use vstd::prelude::*;

verus! {

/// Immediate of `msr DAIFSet` / `msr DAIFClr` for debug exceptions.
pub const DAIF_DEBUG: u8 = 0b1000;
/// Immediate for SErrors.
pub const DAIF_SERROR: u8 = 0b0100;
/// Immediate for IRQs.
pub const DAIF_IRQ: u8 = 0b0010;
/// Immediate for FIQs.
pub const DAIF_FIQ: u8 = 0b0001;

/// The DAIF bits that an immediate of `msr DAIFSet` / `msr DAIFClr` selects (D, A, I, F are
/// bits 9 to 6).
pub open spec fn daif_mask_of(imm: u8) -> u64 {
    ((imm as u64) & 0b1111) << 6
}

/// The mask register of the executing core.
pub struct Daif {
    pub value: u64,
}

/// The saved mask state: a token that one restore consumes.
pub struct DaifState {
    value: u64,
}

impl DaifState {
    pub closed spec fn saved(&self) -> u64 {
        self.value
    }
}

impl Daif {
    /// `msr DAIFSet, imm`: masks the selected exceptions, leaving the others.
    pub fn set(&mut self, imm: u8)
        ensures
            final(self).value == old(self).value | daif_mask_of(imm),
    {
        self.value = self.value | (((imm as u64) & 0b1111) << 6);
    }

    /// `msr DAIFClr, imm`: unmasks the selected exceptions, leaving the others.
    pub fn clear(&mut self, imm: u8)
        ensures
            final(self).value == old(self).value & !daif_mask_of(imm),
    {
        self.value = self.value & !(((imm as u64) & 0b1111) << 6);
    }

    /// Unmask debug exceptions.
    pub fn local_debug_unmask(&mut self)
        ensures
            final(self).value == old(self).value & !daif_mask_of(DAIF_DEBUG),
    {
        self.clear(DAIF_DEBUG);
    }

    /// Mask debug exceptions.
    pub fn local_debug_mask(&mut self)
        ensures
            final(self).value == old(self).value | daif_mask_of(DAIF_DEBUG),
    {
        self.set(DAIF_DEBUG);
    }

    /// Unmask SErrors.
    pub fn local_serror_unmask(&mut self)
        ensures
            final(self).value == old(self).value & !daif_mask_of(DAIF_SERROR),
    {
        self.clear(DAIF_SERROR);
    }

    /// Mask SErrors.
    pub fn local_serror_mask(&mut self)
        ensures
            final(self).value == old(self).value | daif_mask_of(DAIF_SERROR),
    {
        self.set(DAIF_SERROR);
    }

    /// Unmask IRQs.
    pub fn local_irq_unmask(&mut self)
        ensures
            final(self).value == old(self).value & !daif_mask_of(DAIF_IRQ),
    {
        self.clear(DAIF_IRQ);
    }

    /// Mask IRQs.
    pub fn local_irq_mask(&mut self)
        ensures
            final(self).value == old(self).value | daif_mask_of(DAIF_IRQ),
    {
        self.set(DAIF_IRQ);
    }

    /// Unmask FIQs.
    pub fn local_fiq_unmask(&mut self)
        ensures
            final(self).value == old(self).value & !daif_mask_of(DAIF_FIQ),
    {
        self.clear(DAIF_FIQ);
    }

    /// Mask FIQs.
    pub fn local_fiq_mask(&mut self)
        ensures
            final(self).value == old(self).value | daif_mask_of(DAIF_FIQ),
    {
        self.set(DAIF_FIQ);
    }

    /// Saves the current mask state.
    pub fn local_mask_save(&self) -> (r: DaifState)
        ensures
            r.saved() == self.value,
    {
        DaifState { value: self.value }
    }

    /// Restores a saved mask state, consuming it.
    pub fn local_mask_restore(&mut self, state: DaifState)
        ensures
            final(self).value == state.saved(),
    {
        self.value = state.value;
    }
}

/// Unmasking a class right after masking it has the same effect as unmasking it alone: the
/// other classes' bits are untouched by the pair.
pub proof fn lemma_mask_bits_independent(v: u64, imm: u8)
    requires
        imm == DAIF_DEBUG || imm == DAIF_SERROR || imm == DAIF_IRQ || imm == DAIF_FIQ,
    ensures
        (v | daif_mask_of(imm)) & !daif_mask_of(imm) == v & !daif_mask_of(imm),
{
    let m = daif_mask_of(imm);
    assert((v | m) & !m == v & !m) by (bit_vector);
}

} // verus!
