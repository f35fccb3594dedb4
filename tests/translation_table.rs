use cortex_a_rt::attributes::{AccessPermissions, AttributeFields, MemAttributes};
use cortex_a_rt::layout::{default_layout, LayoutError, SimpleMemoryLayout};
use cortex_a_rt::translation_table::{
    arch_address_space_size_sanity_checks, page_descriptor_from_output_addr,
    table_descriptor_from_next_lvl_table_addr, FixedSizeTranslationTable,
};

const FOUR_GIB: u64 = 0x1_0000_0000;
const BASE: u64 = 0x10_0000;

#[test]
fn address_space_size_checks() {
    assert!(arch_address_space_size_sanity_checks(FOUR_GIB));
    assert!(arch_address_space_size_sanity_checks(0x2000_0000));
    assert!(arch_address_space_size_sanity_checks(1 << 48));
    assert!(!arch_address_space_size_sanity_checks(FOUR_GIB + 1));
    assert!(!arch_address_space_size_sanity_checks(0x1000_0000));
    assert!(!arch_address_space_size_sanity_checks(1 << 49));
}

#[test]
fn table_construction_rejects_bad_sizes() {
    assert!(FixedSizeTranslationTable::new(0x3000_0000, BASE).is_none());
    assert!(FixedSizeTranslationTable::new(1 << 49, BASE).is_none());
    assert!(FixedSizeTranslationTable::new(FOUR_GIB, BASE + 8).is_none());
    assert!(FixedSizeTranslationTable::new(FOUR_GIB, 1 << 48).is_none());
    let t = FixedSizeTranslationTable::new(FOUR_GIB, BASE).unwrap();
    assert_eq!(t.len(), 8);
    assert_eq!(t.lvl3_entry(0), 0);
    assert_eq!(t.lvl3_entry(8 * 8192 - 1), 0);
    assert_eq!(t.lvl2_entry(7), 0);
    assert_eq!(t.phys_base_address(), BASE + 8 * 0x1_0000);
}

#[test]
fn descriptor_encoding() {
    let ro_code = AttributeFields {
        mem_attributes: MemAttributes::CacheableDRAM,
        acc_perms: AccessPermissions::ReadOnly,
        execute_never: true,
    };
    assert_eq!(page_descriptor_from_output_addr(0x80000, &ro_code), 0x0060_0000_0008_0787);
    assert_eq!(page_descriptor_from_output_addr(0x0, &AttributeFields::default()), 0x0040_0000_0000_0707);
    assert_eq!(table_descriptor_from_next_lvl_table_addr(0x11_0000), 0x11_0003);
}

#[test]
fn populate_default_layout() {
    let layout = default_layout(0x80000, 0x90000);
    let mut t = FixedSizeTranslationTable::new(FOUR_GIB, BASE).unwrap();
    assert_eq!(t.populate_tt_entries(&layout), Ok(()));
    // Page 8 is 0x80000, in the read-only code region.
    assert_eq!(t.lvl3_entry(8), 0x0060_0000_0008_0787);
    // Page 0 is the identity default.
    assert_eq!(t.lvl3_entry(0), 0x0040_0000_0000_0707);
    // 0xFE00_0000 is device memory.
    assert_eq!(t.lvl3_entry(0xFE00), 0x0060_0000_FE00_0603);
    // The last page is the identity default.
    assert_eq!(t.lvl3_entry(0xFFFF), 0x0040_0000_FFFF_0707);
    assert_eq!(t.lvl2_entry(0), BASE | 3);
    assert_eq!(t.lvl2_entry(1), (BASE + 0x1_0000) | 3);
    assert_eq!(t.lvl2_entry(7), (BASE + 7 * 0x1_0000) | 3);
    for k in 0..8 * 8192 {
        assert_eq!(t.lvl3_entry(k) & 1, 1);
    }
}

#[test]
fn populate_twice_gives_identical_tables() {
    let layout = default_layout(0x80000, 0x90000);
    let mut t = FixedSizeTranslationTable::new(FOUR_GIB, BASE).unwrap();
    assert_eq!(t.populate_tt_entries(&layout), Ok(()));
    let first: Vec<u64> = (0..8 * 8192).map(|k| t.lvl3_entry(k)).collect();
    let first_l2: Vec<u64> = (0..8).map(|i| t.lvl2_entry(i)).collect();
    assert_eq!(t.populate_tt_entries(&layout), Ok(()));
    let second: Vec<u64> = (0..8 * 8192).map(|k| t.lvl3_entry(k)).collect();
    let second_l2: Vec<u64> = (0..8).map(|i| t.lvl2_entry(i)).collect();
    assert_eq!(first, second);
    assert_eq!(first_l2, second_l2);
}

#[test]
fn failed_population_leaves_table_untouched() {
    let small = SimpleMemoryLayout::new(0x7FFF_FFFF, vec![]);
    let mut t = FixedSizeTranslationTable::new(FOUR_GIB, BASE).unwrap();
    assert_eq!(t.populate_tt_entries(&small), Err(LayoutError::OutOfRange));
    for k in 0..8 * 8192 {
        assert_eq!(t.lvl3_entry(k), 0);
    }
    for i in 0..8 {
        assert_eq!(t.lvl2_entry(i), 0);
    }
}
