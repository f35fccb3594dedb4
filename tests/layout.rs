use cortex_a_rt::attributes::{
    AccessPermissions, AttributeFields, MemAttributes, Translation, TranslationDescriptor,
    VirtRange,
};
use cortex_a_rt::layout::{
    default_layout, mmio_range_inclusive, rx_range_inclusive, LayoutError, SimpleMemoryLayout,
    VirtualMemoryLayout, MEMORY_END_INCLUSIVE,
};

fn ro_code() -> AttributeFields {
    AttributeFields {
        mem_attributes: MemAttributes::CacheableDRAM,
        acc_perms: AccessPermissions::ReadOnly,
        execute_never: true,
    }
}

fn rw_device() -> AttributeFields {
    AttributeFields {
        mem_attributes: MemAttributes::Device,
        acc_perms: AccessPermissions::ReadWrite,
        execute_never: true,
    }
}

fn rw_default() -> AttributeFields {
    AttributeFields {
        mem_attributes: MemAttributes::CacheableDRAM,
        acc_perms: AccessPermissions::ReadWrite,
        execute_never: false,
    }
}

#[test]
fn default_layout_kernel_code_is_read_only() {
    let layout = default_layout(0x80000, 0x90000);
    assert_eq!(layout.virt_addr_properties(0x85000), Ok((0x85000, ro_code())));
}

#[test]
fn default_layout_mmio_is_device() {
    let layout = default_layout(0x80000, 0x90000);
    assert_eq!(layout.virt_addr_properties(0xFE20_1000), Ok((0xFE20_1000, rw_device())));
}

#[test]
fn default_layout_unlisted_address_is_identity_dram() {
    let layout = default_layout(0x80000, 0x90000);
    assert_eq!(layout.virt_addr_properties(0x1000), Ok((0x1000, rw_default())));
}

#[test]
fn default_layout_rejects_address_above_4gib() {
    let layout = default_layout(0x80000, 0x90000);
    assert_eq!(layout.virt_addr_properties(0x1_0000_0000), Err(LayoutError::OutOfRange));
    assert_eq!(layout.virt_addr_properties(u64::MAX), Err(LayoutError::OutOfRange));
    assert_eq!(layout.virt_addr_properties(MEMORY_END_INCLUSIVE), Ok((0xFFFF_FFFF, rw_default())));
}

#[test]
fn region_bounds_are_inclusive() {
    let layout = default_layout(0x80000, 0x90000);
    assert_eq!(layout.virt_addr_properties(0x80000), Ok((0x80000, ro_code())));
    assert_eq!(layout.virt_addr_properties(0x8FFFF), Ok((0x8FFFF, ro_code())));
    assert_eq!(layout.virt_addr_properties(0x90000), Ok((0x90000, rw_default())));
    assert_eq!(layout.virt_addr_properties(0x7FFFF), Ok((0x7FFFF, rw_default())));
    assert_eq!(layout.virt_addr_properties(0xFF84_FFFF), Ok((0xFF84_FFFF, rw_device())));
    assert_eq!(layout.virt_addr_properties(0xFF85_0000), Ok((0xFF85_0000, rw_default())));
}

#[test]
fn ranges_of_the_default_layout() {
    assert_eq!(rx_range_inclusive(0x80000, 0x90000), VirtRange { start: 0x80000, end_inclusive: 0x8FFFF });
    assert_eq!(mmio_range_inclusive(), VirtRange { start: 0xFE00_0000, end_inclusive: 0xFF84_FFFF });
}

#[test]
fn first_matching_region_wins() {
    let first = TranslationDescriptor {
        name: "first",
        virtual_range: VirtRange { start: 0x1000, end_inclusive: 0x2FFF },
        physical_range_translation: Translation::Identity,
        attribute_fields: ro_code(),
    };
    let second = TranslationDescriptor {
        name: "second",
        virtual_range: VirtRange { start: 0x2000, end_inclusive: 0x3FFF },
        physical_range_translation: Translation::Identity,
        attribute_fields: rw_device(),
    };
    let layout = SimpleMemoryLayout::new(0xFFFF, vec![first, second]);
    assert_eq!(layout.virt_addr_properties(0x2800), Ok((0x2800, ro_code())));
    assert_eq!(layout.virt_addr_properties(0x3800), Ok((0x3800, rw_device())));
    let swapped = SimpleMemoryLayout::new(0xFFFF, vec![second, first]);
    assert_eq!(swapped.virt_addr_properties(0x2800), Ok((0x2800, rw_device())));
}

#[test]
fn offset_translation_moves_the_region() {
    let moved = TranslationDescriptor {
        name: "moved",
        virtual_range: VirtRange { start: 0x10_0000, end_inclusive: 0x1F_FFFF },
        physical_range_translation: Translation::Offset(0x4000_0000),
        attribute_fields: rw_device(),
    };
    let layout = SimpleMemoryLayout::new(0xFFFF_FFFF, vec![moved]);
    assert_eq!(layout.virt_addr_properties(0x10_0000), Ok((0x4000_0000, rw_device())));
    assert_eq!(layout.virt_addr_properties(0x12_3456), Ok((0x4002_3456, rw_device())));
}

#[test]
fn default_attributes_are_identity_dram() {
    assert_eq!(AttributeFields::default(), rw_default());
}

#[test]
fn layout_error_has_a_message() {
    assert_eq!(LayoutError::OutOfRange.as_str(), "Address out of range");
}
