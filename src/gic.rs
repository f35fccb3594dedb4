//! The GICv2 interrupt controller: distributor and CPU interface, over the values of their
//! registers.
use vstd::prelude::*;

verus! {

/// Shared enable registers ISENABLER1 to ISENABLER31.
pub const NUM_SHARED_ISENABLER: usize = 31;
/// Shared target registers ITARGETSR8 to ITARGETSR255.
pub const NUM_SHARED_ITARGETSR: usize = 248;
/// Banked target registers ITARGETSR0 to ITARGETSR7.
pub const NUM_BANKED_ITARGETSR: usize = 8;

/// SGIR.TargetListFilter values.
pub const SGIR_FILTER_CPU_TARGET_LIST: u32 = 0b00;
pub const SGIR_FILTER_ALL_EXCEPT_CURRENT: u32 = 0b01;
pub const SGIR_FILTER_ONLY_CURRENT: u32 = 0b10;

/// A set of cores, one bit each.
#[derive(Debug, Clone, Copy, PartialEq, Eq, Structural)]
pub struct CoreMask(pub u8);

/// An interrupt number.
#[derive(Debug, Clone, Copy, PartialEq, Eq, Structural)]
pub struct IrqNumber(u32);

impl IrqNumber {
    pub closed spec fn view(&self) -> u32 {
        self.0
    }

    pub open spec fn spec_is_private(&self) -> bool {
        self@ <= 31
    }

    pub open spec fn spec_is_sgi(&self) -> bool {
        self@ <= 15
    }

    pub fn new(num: u32) -> (r: Self)
        ensures
            r@ == num,
    {
        IrqNumber(num)
    }

    /// The number.
    pub fn number(&self) -> (r: u32)
        ensures
            r == self@,
    {
        self.0
    }

    /// Whether the interrupt is private to the executing core (the first 32 are).
    pub fn is_private(&self) -> (r: bool)
        ensures
            r == self.spec_is_private(),
    {
        self.0 <= 31
    }

    /// Whether it is a software generated interrupt (the first 16 are).
    pub fn is_sgi(&self) -> (r: bool)
        ensures
            r == self.spec_is_sgi(),
    {
        self.0 <= 15
    }
}

/// The shared distributor registers that the driver uses.
pub struct GicdSharedRegisters {
    /// ISENABLER1 to ISENABLER31.
    pub isenabler: Vec<u32>,
    /// ITARGETSR8 to ITARGETSR255.
    pub itargetsr: Vec<u32>,
}

/// Interface to the GIC distributor's shared part.
pub struct Gicd {
    pub gicd: GicdSharedRegisters,
}

/// The shared enable register of `irq` (one bit per interrupt, the first register banked).
pub open spec fn shared_enable_index(irq: u32) -> int {
    (irq >> 5) - 1
}

/// The enable bit of `irq` in its register.
pub open spec fn enable_bit(irq: u32) -> u32 {
    1u32 << (irq % 32)
}

/// A target register value routing its four interrupts to `mask`.
pub open spec fn all_targets(mask: u8) -> u32 {
    (mask as u32) | ((mask as u32) << 8) | ((mask as u32) << 16) | ((mask as u32) << 24)
}

impl Gicd {
    pub open spec fn wf(&self) -> bool {
        &&& self.gicd.isenabler@.len() == NUM_SHARED_ISENABLER
        &&& self.gicd.itargetsr@.len() == NUM_SHARED_ITARGETSR
    }

    pub fn new(gicd: GicdSharedRegisters) -> (r: Self)
        ensures
            r.gicd == gicd,
    {
        Gicd { gicd }
    }

    /// Enables the shared interrupt `irq_num`, leaving the others as they are.
    pub fn enable_irq(&mut self, irq_num: IrqNumber)
        requires
            old(self).wf(),
            !irq_num.spec_is_private(),
            irq_num@ < 1024,
        ensures
            final(self).wf(),
            final(self).gicd.itargetsr@ == old(self).gicd.itargetsr@,
            final(self).gicd.isenabler@ == old(self).gicd.isenabler@.update(
                shared_enable_index(irq_num@),
                old(self).gicd.isenabler@[shared_enable_index(irq_num@)] | enable_bit(irq_num@),
            ),
    {
        let n = irq_num.number();
        assert(32 <= n < 1024 ==> 1 <= (n >> 5) <= 31) by (bit_vector);
        let enable_reg_index: usize = ((n >> 5) - 1) as usize;
        let enable_bit: u32 = 1u32 << (n % 32);
        let v = self.gicd.isenabler[enable_reg_index] | enable_bit;
        self.gicd.isenabler.set(enable_reg_index, v);
    }

    /// Routes every shared interrupt to the cores of `mask`.
    pub fn set_global_core_mask(&mut self, mask: CoreMask)
        requires
            old(self).wf(),
        ensures
            final(self).wf(),
            final(self).gicd.isenabler@ == old(self).gicd.isenabler@,
            forall|i: int|
                0 <= i < NUM_SHARED_ITARGETSR ==> #[trigger] final(self).gicd.itargetsr@[i]
                    == all_targets(mask.0),
    {
        let m: u32 = mask.0 as u32;
        let value: u32 = m | (m << 8) | (m << 16) | (m << 24);
        let len = self.gicd.itargetsr.len();
        let mut i: usize = 0;
        while i < len
            invariant
                len == NUM_SHARED_ITARGETSR,
                self.wf(),
                self.gicd.isenabler@ == old(self).gicd.isenabler@,
                value == all_targets(mask.0),
                i <= len,
                forall|j: int| 0 <= j < i ==> #[trigger] self.gicd.itargetsr@[j] == value,
            decreases len - i,
        {
            self.gicd.itargetsr.set(i, value);
            i = i + 1;
        }
    }
}

/// The core-banked distributor registers that the driver uses.
pub struct GicdBankedRegisters {
    /// ISENABLER0.
    pub isenabler: u32,
    /// ITARGETSR0 to ITARGETSR7, each reading as the executing core's mask.
    pub itargetsr: Vec<u32>,
    /// The software generated interrupt register.
    pub sgir: u32,
}

/// Interface to the core-local part of the GIC distributor.
pub struct GicdLocal {
    pub gicd: GicdBankedRegisters,
}

/// Software generated interrupt target.
pub enum SgiTarget {
    Mask(CoreMask),
    AllExceptCurrent,
    OnlyCurrent,
}

/// The SGIR value that sends `irq` to `target`.
pub open spec fn sgir_value(irq: u32, target: SgiTarget) -> u32 {
    let (filter, mask) = match target {
        SgiTarget::Mask(m) => (SGIR_FILTER_CPU_TARGET_LIST, m.0),
        SgiTarget::AllExceptCurrent => (SGIR_FILTER_ALL_EXCEPT_CURRENT, 0u8),
        SgiTarget::OnlyCurrent => (SGIR_FILTER_ONLY_CURRENT, 0u8),
    };
    (filter << 24) | ((mask as u32) << 16) | (irq & 0xF)
}

impl GicdLocal {
    pub open spec fn wf(&self) -> bool {
        self.gicd.itargetsr@.len() == NUM_BANKED_ITARGETSR
    }

    pub fn new(gicd: GicdBankedRegisters) -> (r: Self)
        ensures
            r.gicd == gicd,
    {
        GicdLocal { gicd }
    }

    /// Enables the private interrupt `irq_num`, leaving the others as they are.
    pub fn enable_irq(&mut self, irq_num: IrqNumber)
        requires
            irq_num.spec_is_private(),
        ensures
            final(self).gicd.isenabler == old(self).gicd.isenabler | enable_bit(irq_num@),
            final(self).gicd.itargetsr@ == old(self).gicd.itargetsr@,
            final(self).gicd.sgir == old(self).gicd.sgir,
    {
        let enable_bit: u32 = 1u32 << (irq_num.number() % 32);
        self.gicd.isenabler = self.gicd.isenabler | enable_bit;
    }

    /// The core mask of the executing core.
    pub fn core_mask(&mut self) -> (r: CoreMask)
        requires
            old(self).wf(),
        ensures
            r.0 == (old(self).gicd.itargetsr@[0] & 0xFF) as u8,
            final(self).gicd == old(self).gicd,
    {
        CoreMask((self.gicd.itargetsr[0] & 0xFF) as u8)
    }

    /// Sends the software generated interrupt `irq_num` to `target`.
    pub fn pend_sgi(&mut self, irq_num: IrqNumber, target: SgiTarget)
        requires
            irq_num.spec_is_sgi(),
        ensures
            final(self).gicd.sgir == sgir_value(irq_num@, target),
            final(self).gicd.isenabler == old(self).gicd.isenabler,
            final(self).gicd.itargetsr@ == old(self).gicd.itargetsr@,
    {
        let (filter, mask): (u32, u8) = match target {
            SgiTarget::Mask(m) => (SGIR_FILTER_CPU_TARGET_LIST, m.0),
            SgiTarget::AllExceptCurrent => (SGIR_FILTER_ALL_EXCEPT_CURRENT, 0u8),
            SgiTarget::OnlyCurrent => (SGIR_FILTER_ONLY_CURRENT, 0u8),
        };
        self.gicd.sgir = (filter << 24) | ((mask as u32) << 16) | (irq_num.number() & 0xF);
    }
}

/// The GIC CPU interface registers that the driver uses.
pub struct GiccRegisters {
    /// Control register; bit 0 enables signalling.
    pub ctlr: u32,
    /// Priority mask register.
    pub pmr: u32,
    /// Interrupt acknowledge register.
    pub iar: u32,
    /// End of interrupt register.
    pub eoir: u32,
}

/// Interface to the GIC CPU interface.
pub struct Gicc {
    pub gicc: GiccRegisters,
}

impl Gicc {
    pub fn new(gicc: GiccRegisters) -> (r: Self)
        ensures
            r.gicc == gicc,
    {
        Gicc { gicc }
    }

    /// Enables interrupt signalling to the core.
    pub fn enable(&mut self)
        ensures
            final(self).gicc == (GiccRegisters { ctlr: 1, ..old(self).gicc }),
    {
        self.gicc.ctlr = 1;
    }

    /// Disables interrupt signalling to the core.
    pub fn disable(&mut self)
        ensures
            final(self).gicc == (GiccRegisters { ctlr: 0, ..old(self).gicc }),
    {
        self.gicc.ctlr = 0;
    }

    /// Sets the priority mask: only interrupts of higher priority are signalled.
    pub fn set_priority(&mut self, priority: u8)
        ensures
            final(self).gicc == (GiccRegisters { pmr: priority as u32, ..old(self).gicc }),
    {
        self.gicc.pmr = priority as u32;
    }

    /// The number of the highest priority pending interrupt (IAR bits 9 to 0).
    pub fn pending_irq(&mut self) -> (r: u32)
        ensures
            r == old(self).gicc.iar & 0x3FF,
            final(self).gicc == old(self).gicc,
    {
        self.gicc.iar & 0x3FF
    }

    /// Completes the handling of interrupt `irq_num`.
    pub fn mark_completed(&mut self, irq_num: u32)
        ensures
            final(self).gicc == (GiccRegisters { eoir: irq_num & 0x3FF, ..old(self).gicc }),
    {
        self.gicc.eoir = irq_num & 0x3FF;
    }
}

} // verus!
