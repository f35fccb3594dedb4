use cortex_a_rt::exception::{
    current_privilege_level, decode_esr, decode_spsr, default_exception_handler, slot_index,
    ExceptionClass, ExceptionContext, ExceptionHandlers, ExceptionKind, ExceptionSource, Handler,
    PrivilegeLevel,
};
use cortex_a_rt::masking::{Daif, DAIF_DEBUG, DAIF_FIQ, DAIF_IRQ, DAIF_SERROR};

fn sample_context() -> ExceptionContext {
    let mut gpr = [0u64; 30];
    for (i, r) in gpr.iter_mut().enumerate() {
        *r = 0x1000_0000_0000_0000 + i as u64 * 0x1111;
    }
    ExceptionContext { gpr, lr: 0xFFFF_0000_0008_0010, elr_el1: 0x8_1234, spsr_el1: 0x6000_03C5 }
}

#[test]
fn default_handler_dump_holds_context() {
    let handlers = ExceptionHandlers::new();
    assert_eq!(handlers.resolve(ExceptionSource::CurrentElx, ExceptionKind::Synchronous), Handler::Default);
    let ctx = sample_context();
    let esr = (0b10_0101u64 << 26) | (1 << 25) | 0x47;
    let dump = default_exception_handler(&ctx, 0xDEAD_BEEF, esr);
    assert_eq!(dump.elr_el1, 0x8_1234);
    assert_eq!(dump.gpr, ctx.gpr);
    assert_eq!(dump.gpr[29], 0x1000_0000_0000_0000 + 29 * 0x1111);
    assert_eq!(dump.lr, 0xFFFF_0000_0008_0010);
    assert_eq!(dump.far_el1, 0xDEAD_BEEF);
    assert_eq!(dump.esr.ec, 0b10_0101);
    assert_eq!(dump.esr.iss, (1 << 25 | 0x47) & 0x1FF_FFFF);
    assert_eq!(dump.esr.class, ExceptionClass::DataAbortCurrentEL);
    assert_eq!(dump.esr.class.as_str(), "Data Abort, current EL");
    assert_eq!(dump.spsr_el1, 0x6000_03C5);
}

#[test]
fn spsr_flags_decode() {
    let f = decode_spsr(0x6000_03C5);
    assert!(!f.negative && f.zero && f.carry && !f.overflow);
    assert!(f.debug_masked && f.serror_masked && f.irq_masked && f.fiq_masked);
    assert!(!f.illegal_execution_state);
    let g = decode_spsr(1 << 20 | 1 << 31);
    assert!(g.negative && g.illegal_execution_state && !g.irq_masked);
}

#[test]
fn esr_decode_other_class() {
    let e = decode_esr(0x15 << 26);
    assert_eq!(e.ec, 0x15);
    assert_eq!(e.class, ExceptionClass::Other);
    assert_eq!(e.class.as_str(), "N/A");
}

#[test]
fn vector_slots_are_distinct() {
    let sources = [
        ExceptionSource::CurrentEl0,
        ExceptionSource::CurrentElx,
        ExceptionSource::LowerAArch64,
        ExceptionSource::LowerAArch32,
    ];
    let kinds = [ExceptionKind::Synchronous, ExceptionKind::Irq, ExceptionKind::Fiq, ExceptionKind::SError];
    let mut seen = vec![false; 16];
    for s in sources {
        for k in kinds {
            let i = slot_index(s, k);
            assert!(!seen[i]);
            seen[i] = true;
        }
    }
    assert_eq!(slot_index(ExceptionSource::CurrentElx, ExceptionKind::Irq), 5);
}

#[test]
fn handler_override_touches_one_slot() {
    let mut handlers = ExceptionHandlers::new();
    handlers.set_handler(ExceptionSource::CurrentEl0, ExceptionKind::Synchronous, 7);
    assert_eq!(handlers.resolve(ExceptionSource::CurrentEl0, ExceptionKind::Synchronous), Handler::Custom(7));
    assert_eq!(handlers.resolve(ExceptionSource::CurrentEl0, ExceptionKind::Irq), Handler::Default);
    assert_eq!(handlers.resolve(ExceptionSource::LowerAArch32, ExceptionKind::Synchronous), Handler::Default);
    handlers.clear_handler(ExceptionSource::CurrentEl0, ExceptionKind::Synchronous);
    assert_eq!(handlers.resolve(ExceptionSource::CurrentEl0, ExceptionKind::Synchronous), Handler::Default);
}

#[test]
fn privilege_levels() {
    assert_eq!(current_privilege_level(0b0000), (PrivilegeLevel::User, "EL0"));
    assert_eq!(current_privilege_level(0b0100), (PrivilegeLevel::Kernel, "EL1"));
    assert_eq!(current_privilege_level(0b1000), (PrivilegeLevel::Hypervisor, "EL2"));
    assert_eq!(current_privilege_level(0b1100), (PrivilegeLevel::Unknown, "Unknown"));
}

#[test]
fn masking_toggles_single_bits() {
    let mut daif = Daif { value: 0 };
    daif.local_irq_mask();
    assert_eq!(daif.value, 0x80);
    daif.local_debug_mask();
    assert_eq!(daif.value, 0x280);
    daif.local_serror_mask();
    daif.local_fiq_mask();
    assert_eq!(daif.value, 0x3C0);
    daif.local_irq_unmask();
    assert_eq!(daif.value, 0x340);
    daif.local_debug_unmask();
    daif.local_serror_unmask();
    daif.local_fiq_unmask();
    assert_eq!(daif.value, 0);
    daif.set(DAIF_DEBUG | DAIF_SERROR | DAIF_IRQ | DAIF_FIQ);
    assert_eq!(daif.value, 0x3C0);
}

#[test]
fn mask_save_restore_round_trip() {
    let mut daif = Daif { value: 0x140 };
    let saved = daif.local_mask_save();
    daif.local_irq_mask();
    daif.local_debug_mask();
    assert_eq!(daif.value, 0x3C0);
    daif.local_mask_restore(saved);
    assert_eq!(daif.value, 0x140);
}
