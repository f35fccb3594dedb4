//! Exception vector dispatch: the sixteen vector slots, handler resolution, the saved CPU
//! context and its decoding for diagnosis.
use vstd::prelude::*;

verus! {

/// Where an exception was taken from.
#[derive(Clone, Copy, Debug, PartialEq, Eq, Structural)]
pub enum ExceptionSource {
    CurrentEl0,
    CurrentElx,
    LowerAArch64,
    LowerAArch32,
}

/// What kind of exception was taken.
#[derive(Clone, Copy, Debug, PartialEq, Eq, Structural)]
pub enum ExceptionKind {
    Synchronous,
    Irq,
    Fiq,
    SError,
}

/// Number of vector slots.
pub const NUM_VECTOR_SLOTS: usize = 16;

pub open spec fn source_index(s: ExceptionSource) -> int {
    match s {
        ExceptionSource::CurrentEl0 => 0,
        ExceptionSource::CurrentElx => 1,
        ExceptionSource::LowerAArch64 => 2,
        ExceptionSource::LowerAArch32 => 3,
    }
}

pub open spec fn kind_index(k: ExceptionKind) -> int {
    match k {
        ExceptionKind::Synchronous => 0,
        ExceptionKind::Irq => 1,
        ExceptionKind::Fiq => 2,
        ExceptionKind::SError => 3,
    }
}

/// The vector slot of an exception, in the architecture's order: four sources of four kinds.
pub open spec fn spec_slot_index(s: ExceptionSource, k: ExceptionKind) -> int {
    4 * source_index(s) + kind_index(k)
}

/// The vector slot of an exception.
pub fn slot_index(source: ExceptionSource, kind: ExceptionKind) -> (r: usize)
    ensures
        r == spec_slot_index(source, kind),
        r < NUM_VECTOR_SLOTS,
{
    let s: usize = match source {
        ExceptionSource::CurrentEl0 => 0,
        ExceptionSource::CurrentElx => 1,
        ExceptionSource::LowerAArch64 => 2,
        ExceptionSource::LowerAArch32 => 3,
    };
    let k: usize = match kind {
        ExceptionKind::Synchronous => 0,
        ExceptionKind::Irq => 1,
        ExceptionKind::Fiq => 2,
        ExceptionKind::SError => 3,
    };
    4 * s + k
}

/// The handler a slot dispatches to.
#[derive(Clone, Copy, Debug, PartialEq, Eq, Structural)]
pub enum Handler {
    /// Dump the context and halt.
    Default,
    /// A handler installed by the embedding program, by its identifier.
    Custom(u64),
}

/// The dispatch table: one optional override per vector slot.
pub struct ExceptionHandlers {
    overrides: Vec<Option<u64>>,
}

impl ExceptionHandlers {
    pub closed spec fn view(&self) -> Seq<Option<u64>> {
        self.overrides@
    }

    pub open spec fn wf(&self) -> bool {
        self@.len() == NUM_VECTOR_SLOTS
    }

    /// The handler of slot `i`: its override if any, else the default one.
    pub open spec fn spec_resolve(&self, i: int) -> Handler {
        match self@[i] {
            Some(id) => Handler::Custom(id),
            None => Handler::Default,
        }
    }

    /// A table with every slot bound to the default handler.
    pub fn new() -> (r: Self)
        ensures
            r.wf(),
            forall|i: int| 0 <= i < NUM_VECTOR_SLOTS ==> #[trigger] r.spec_resolve(i)
                == Handler::Default,
    {
        let mut overrides: Vec<Option<u64>> = Vec::new();
        let mut i: usize = 0;
        while i < NUM_VECTOR_SLOTS
            invariant
                i <= NUM_VECTOR_SLOTS,
                overrides@.len() == i,
                forall|m: int| 0 <= m < i ==> #[trigger] overrides@[m] == None::<u64>,
            decreases NUM_VECTOR_SLOTS - i,
        {
            overrides.push(None);
            i = i + 1;
        }
        ExceptionHandlers { overrides }
    }

    /// Binds the slot of `source` and `kind` to the handler `id`; the other slots keep theirs.
    pub fn set_handler(&mut self, source: ExceptionSource, kind: ExceptionKind, id: u64)
        requires
            old(self).wf(),
        ensures
            final(self).wf(),
            final(self).spec_resolve(spec_slot_index(source, kind)) == Handler::Custom(id),
            forall|i: int|
                0 <= i < NUM_VECTOR_SLOTS && i != spec_slot_index(source, kind)
                    ==> #[trigger] final(self).spec_resolve(i) == old(self).spec_resolve(i),
    {
        let i = slot_index(source, kind);
        self.overrides.set(i, Some(id));
    }

    /// Binds the slot of `source` and `kind` back to the default handler.
    pub fn clear_handler(&mut self, source: ExceptionSource, kind: ExceptionKind)
        requires
            old(self).wf(),
        ensures
            final(self).wf(),
            final(self).spec_resolve(spec_slot_index(source, kind)) == Handler::Default,
            forall|i: int|
                0 <= i < NUM_VECTOR_SLOTS && i != spec_slot_index(source, kind)
                    ==> #[trigger] final(self).spec_resolve(i) == old(self).spec_resolve(i),
    {
        let i = slot_index(source, kind);
        self.overrides.set(i, None);
    }

    /// The handler that an exception of `kind` taken from `source` dispatches to.
    pub fn resolve(&self, source: ExceptionSource, kind: ExceptionKind) -> (r: Handler)
        requires
            self.wf(),
        ensures
            r == self.spec_resolve(spec_slot_index(source, kind)),
    {
        let i = slot_index(source, kind);
        match self.overrides[i] {
            Some(id) => Handler::Custom(id),
            None => Handler::Default,
        }
    }
}

/// The CPU context that the trap entry code saves: general purpose registers x0 to x29, the
/// link register, the exception link register (the faulting program counter) and the saved
/// program status.
#[derive(Clone, Copy, Debug)]
pub struct ExceptionContext {
    pub gpr: [u64; 30],
    pub lr: u64,
    pub elr_el1: u64,
    pub spsr_el1: u64,
}

/// Bit `n` of `v`.
pub open spec fn bit(v: u64, n: u64) -> bool {
    (v >> n) & 1 == 1
}

/// Bit `n` of `v`.
pub fn is_set(v: u64, n: u64) -> (r: bool)
    requires
        n < 64,
    ensures
        r == bit(v, n),
{
    (v >> n) & 1 == 1
}

/// The flags and exception masks of a saved program status.
#[derive(Clone, Copy, Debug, PartialEq, Eq, Structural)]
pub struct SpsrFlags {
    pub negative: bool,
    pub zero: bool,
    pub carry: bool,
    pub overflow: bool,
    pub debug_masked: bool,
    pub serror_masked: bool,
    pub irq_masked: bool,
    pub fiq_masked: bool,
    pub illegal_execution_state: bool,
}

pub open spec fn spec_spsr_flags(spsr: u64) -> SpsrFlags {
    SpsrFlags {
        negative: bit(spsr, 31),
        zero: bit(spsr, 30),
        carry: bit(spsr, 29),
        overflow: bit(spsr, 28),
        debug_masked: bit(spsr, 9),
        serror_masked: bit(spsr, 8),
        irq_masked: bit(spsr, 7),
        fiq_masked: bit(spsr, 6),
        illegal_execution_state: bit(spsr, 20),
    }
}

/// Decodes SPSR_EL1: N, Z, C, V (bits 31 to 28), D, A, I, F (bits 9 to 6) and IL (bit 20).
pub fn decode_spsr(spsr: u64) -> (r: SpsrFlags)
    ensures
        r == spec_spsr_flags(spsr),
{
    SpsrFlags {
        negative: is_set(spsr, 31),
        zero: is_set(spsr, 30),
        carry: is_set(spsr, 29),
        overflow: is_set(spsr, 28),
        debug_masked: is_set(spsr, 9),
        serror_masked: is_set(spsr, 8),
        irq_masked: is_set(spsr, 7),
        fiq_masked: is_set(spsr, 6),
        illegal_execution_state: is_set(spsr, 20),
    }
}

/// Exception class of a data abort taken without a change of exception level.
pub const EC_DATA_ABORT_CURRENT_EL: u64 = 0b10_0101;

/// The known exception classes.
#[derive(Clone, Copy, Debug, PartialEq, Eq, Structural)]
pub enum ExceptionClass {
    DataAbortCurrentEL,
    Other,
}

impl ExceptionClass {
    /// A human readable name.
    pub fn as_str(&self) -> (r: &'static str)
        ensures
            *self == ExceptionClass::DataAbortCurrentEL ==> r@ == "Data Abort, current EL"@,
            *self == ExceptionClass::Other ==> r@ == "N/A"@,
    {
        match self {
            ExceptionClass::DataAbortCurrentEL => "Data Abort, current EL",
            ExceptionClass::Other => "N/A",
        }
    }
}

/// The fields of a syndrome register value.
#[derive(Clone, Copy, Debug, PartialEq, Eq, Structural)]
pub struct EsrFields {
    pub esr: u64,
    /// Exception class, bits 31 to 26.
    pub ec: u64,
    /// Instruction specific syndrome, bits 24 to 0.
    pub iss: u64,
    pub class: ExceptionClass,
}

pub open spec fn spec_esr_fields(esr: u64) -> EsrFields {
    let ec = (esr >> 26) & 0x3F;
    EsrFields {
        esr,
        ec,
        iss: esr & 0x1FF_FFFF,
        class: if ec == EC_DATA_ABORT_CURRENT_EL {
            ExceptionClass::DataAbortCurrentEL
        } else {
            ExceptionClass::Other
        },
    }
}

/// Decodes ESR_EL1 into its exception class, with its translation, and its syndrome.
pub fn decode_esr(esr: u64) -> (r: EsrFields)
    ensures
        r == spec_esr_fields(esr),
{
    let ec = (esr >> 26) & 0x3F;
    EsrFields {
        esr,
        ec,
        iss: esr & 0x1FF_FFFF,
        class: if ec == EC_DATA_ABORT_CURRENT_EL {
            ExceptionClass::DataAbortCurrentEL
        } else {
            ExceptionClass::Other
        },
    }
}

/// Everything the default handler reports before halting.
#[derive(Clone, Copy, Debug)]
pub struct ExceptionDump {
    /// Fault address register.
    pub far_el1: u64,
    pub esr: EsrFields,
    /// Faulting program counter.
    pub elr_el1: u64,
    pub spsr_el1: u64,
    pub spsr_flags: SpsrFlags,
    pub gpr: [u64; 30],
    pub lr: u64,
}

/// The default handler's report on `e`, with the fault address and syndrome register values
/// read at the trap. After reporting it, the default handler halts.
pub fn default_exception_handler(e: &ExceptionContext, far_el1: u64, esr_el1: u64) -> (r:
    ExceptionDump)
    ensures
        r.far_el1 == far_el1,
        r.esr == spec_esr_fields(esr_el1),
        r.elr_el1 == e.elr_el1,
        r.spsr_el1 == e.spsr_el1,
        r.spsr_flags == spec_spsr_flags(e.spsr_el1),
        r.gpr@ == e.gpr@,
        r.lr == e.lr,
{
    ExceptionDump {
        far_el1,
        esr: decode_esr(esr_el1),
        elr_el1: e.elr_el1,
        spsr_el1: e.spsr_el1,
        spsr_flags: decode_spsr(e.spsr_el1),
        gpr: e.gpr,
        lr: e.lr,
    }
}

/// The privilege levels an exception level maps to.
#[derive(Clone, Copy, Debug, PartialEq, Eq, Structural)]
pub enum PrivilegeLevel {
    User,
    Kernel,
    Hypervisor,
    Unknown,
}

pub open spec fn spec_privilege_level(current_el: u64) -> PrivilegeLevel {
    let el = (current_el >> 2) & 0b11;
    if el == 2 {
        PrivilegeLevel::Hypervisor
    } else if el == 1 {
        PrivilegeLevel::Kernel
    } else if el == 0 {
        PrivilegeLevel::User
    } else {
        PrivilegeLevel::Unknown
    }
}

/// The privilege level that a CurrentEL value (EL in bits 3 and 2) reports, with its name.
pub fn current_privilege_level(current_el: u64) -> (r: (PrivilegeLevel, &'static str))
    ensures
        r.0 == spec_privilege_level(current_el),
        r.0 == PrivilegeLevel::Hypervisor ==> r.1@ == "EL2"@,
        r.0 == PrivilegeLevel::Kernel ==> r.1@ == "EL1"@,
        r.0 == PrivilegeLevel::User ==> r.1@ == "EL0"@,
        r.0 == PrivilegeLevel::Unknown ==> r.1@ == "Unknown"@,
{
    let el = (current_el >> 2) & 0b11;
    if el == 2 {
        (PrivilegeLevel::Hypervisor, "EL2")
    } else if el == 1 {
        (PrivilegeLevel::Kernel, "EL1")
    } else if el == 0 {
        (PrivilegeLevel::User, "EL0")
    } else {
        (PrivilegeLevel::Unknown, "Unknown")
    }
}

} // verus!
