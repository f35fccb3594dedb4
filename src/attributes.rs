//! Memory attributes and named translation regions.
use vstd::prelude::*;

verus! {

/// Memory types that a page can be mapped with.
#[derive(Clone, Copy, Debug, PartialEq, Eq, Structural)]
pub enum MemAttributes {
    CacheableDRAM,
    Device,
}

/// Access rights of a mapped page.
#[derive(Clone, Copy, Debug, PartialEq, Eq, Structural)]
pub enum AccessPermissions {
    ReadOnly,
    ReadWrite,
}

/// The attributes of a mapped page.
#[derive(Clone, Copy, Debug, PartialEq, Eq, Structural)]
pub struct AttributeFields {
    pub mem_attributes: MemAttributes,
    pub acc_perms: AccessPermissions,
    pub execute_never: bool,
}

/// Identity mapped, cacheable, writable and executable.
pub open spec fn default_attributes() -> AttributeFields {
    AttributeFields {
        mem_attributes: MemAttributes::CacheableDRAM,
        acc_perms: AccessPermissions::ReadWrite,
        execute_never: false,
    }
}

impl Default for AttributeFields {
    fn default() -> (r: AttributeFields)
        ensures
            r == default_attributes(),
    {
        AttributeFields {
            mem_attributes: MemAttributes::CacheableDRAM,
            acc_perms: AccessPermissions::ReadWrite,
            execute_never: false,
        }
    }
}

/// How the physical addresses of a region follow from its virtual ones.
#[derive(Clone, Copy, Debug, PartialEq, Eq, Structural)]
pub enum Translation {
    Identity,
    Offset(u64),
}

/// An inclusive range of addresses.
#[derive(Clone, Copy, Debug, PartialEq, Eq, Structural)]
pub struct VirtRange {
    pub start: u64,
    pub end_inclusive: u64,
}

impl VirtRange {
    pub open spec fn spec_contains(self, addr: u64) -> bool {
        self.start <= addr && addr <= self.end_inclusive
    }

    /// Whether `addr` lies in the range.
    pub fn contains(&self, addr: u64) -> (r: bool)
        ensures
            r == self.spec_contains(addr),
    {
        self.start <= addr && addr <= self.end_inclusive
    }
}

/// A named region with its own translation and attributes.
#[derive(Clone, Copy, Debug)]
pub struct TranslationDescriptor {
    pub name: &'static str,
    pub virtual_range: VirtRange,
    pub physical_range_translation: Translation,
    pub attribute_fields: AttributeFields,
}

impl TranslationDescriptor {
    /// The output address fits in a machine word for every address of the region.
    pub open spec fn output_fits(self) -> bool {
        match self.physical_range_translation {
            Translation::Identity => true,
            Translation::Offset(a) => self.virtual_range.start > self.virtual_range.end_inclusive
                || a + (self.virtual_range.end_inclusive - self.virtual_range.start) <= u64::MAX,
        }
    }

    /// The physical address that `addr`, an address of the region, is mapped to.
    pub open spec fn spec_output_addr(self, addr: u64) -> int {
        match self.physical_range_translation {
            Translation::Identity => addr as int,
            Translation::Offset(a) => a + (addr - self.virtual_range.start),
        }
    }
}

} // verus!
