//! Memory layout policies: classify a virtual address into its physical address and attributes.
use vstd::prelude::*;
use crate::attributes::{
    default_attributes, AccessPermissions, AttributeFields, MemAttributes, Translation,
    TranslationDescriptor, VirtRange,
};

verus! {

/// The last address of the default address space (4 GiB).
pub const MEMORY_END_INCLUSIVE: u64 = 0xFFFF_FFFF;

/// First address of the device MMIO window.
pub const MMIO_START: u64 = 0xFE00_0000;

/// Last address of the device MMIO window.
pub const MMIO_END_INCLUSIVE: u64 = 0xFF84_FFFF;

/// Why a layout could not classify an address.
#[derive(Clone, Copy, Debug, PartialEq, Eq, Structural)]
pub enum LayoutError {
    OutOfRange,
}

impl LayoutError {
    /// A human readable description.
    pub fn as_str(&self) -> (r: &'static str)
        ensures
            *self == LayoutError::OutOfRange ==> r@ == "Address out of range"@,
    {
        match self {
            LayoutError::OutOfRange => "Address out of range",
        }
    }
}

/// The classification of one virtual address.
pub type Properties = Result<(u64, AttributeFields), LayoutError>;

/// A policy that maps each virtual address to a physical address and attributes.
pub trait VirtualMemoryLayout {
    /// What the layout answers for `virt_addr`.
    spec fn spec_virt_addr_properties(&self, virt_addr: u64) -> Properties;

    /// For a virtual address, find and return the physical output address and corresponding
    /// attributes.
    fn virt_addr_properties(&self, virt_addr: u64) -> (r: Properties)
        ensures
            r == self.spec_virt_addr_properties(virt_addr),
    ;
}

/// First-match classification over an ordered list of special regions, falling back to an
/// identity mapping with default attributes.
pub open spec fn classify(descs: Seq<TranslationDescriptor>, addr: u64) -> (u64, AttributeFields)
    decreases descs.len(),
{
    if descs.len() == 0 {
        (addr, default_attributes())
    } else if descs[0].virtual_range.spec_contains(addr) {
        (descs[0].spec_output_addr(addr) as u64, descs[0].attribute_fields)
    } else {
        classify(descs.drop_first(), addr)
    }
}

/// Memory layout which defaults to identity mapped normal cacheable DRAM, except for what is
/// defined in special regions.
pub struct SimpleMemoryLayout {
    /// The last (inclusive) address of the address space.
    max_virt_addr_inclusive: u64,
    /// Descriptors for non-standard memory regions, checked in order.
    inner: Vec<TranslationDescriptor>,
}

impl SimpleMemoryLayout {
    pub closed spec fn max_addr(&self) -> u64 {
        self.max_virt_addr_inclusive
    }

    pub closed spec fn regions(&self) -> Seq<TranslationDescriptor> {
        self.inner@
    }

    /// Every region's output addresses fit in a machine word.
    #[verifier::type_invariant]
    spec fn inv(&self) -> bool {
        forall|i: int| 0 <= i < self.inner@.len() ==> #[trigger] self.inner@[i].output_fits()
    }

    /// Create a new instance.
    pub fn new(max: u64, layout: Vec<TranslationDescriptor>) -> (r: Self)
        requires
            forall|i: int| 0 <= i < layout@.len() ==> #[trigger] layout@[i].output_fits(),
        ensures
            r.max_addr() == max,
            r.regions() == layout@,
    {
        SimpleMemoryLayout { max_virt_addr_inclusive: max, inner: layout }
    }
}

impl VirtualMemoryLayout for SimpleMemoryLayout {
    open spec fn spec_virt_addr_properties(&self, virt_addr: u64) -> Properties {
        if virt_addr > self.max_addr() {
            Err(LayoutError::OutOfRange)
        } else {
            Ok(classify(self.regions(), virt_addr))
        }
    }

    /// If the address is not found in the special regions, return an identity mapped default
    /// with normal cacheable DRAM attributes.
    fn virt_addr_properties(&self, virt_addr: u64) -> (r: Properties) {
        if virt_addr > self.max_virt_addr_inclusive {
            return Err(LayoutError::OutOfRange);
        }
        proof {
            use_type_invariant(self);
            assert(self.inner@.subrange(0, self.inner@.len() as int) =~= self.inner@);
        }
        let mut i: usize = 0;
        while i < self.inner.len()
            invariant
                0 <= i <= self.inner@.len(),
                virt_addr <= self.max_virt_addr_inclusive,
                forall|j: int| 0 <= j < self.inner@.len() ==> #[trigger] self.inner@[j].output_fits(),
                classify(self.inner@, virt_addr) == classify(
                    self.inner@.subrange(i as int, self.inner@.len() as int),
                    virt_addr,
                ),
            decreases self.inner@.len() - i,
        {
            let d = &self.inner[i];
            let ghost rest = self.inner@.subrange(i as int, self.inner@.len() as int);
            assert(rest[0] == self.inner@[i as int]);
            if d.virtual_range.contains(virt_addr) {
                assert(self.inner@[i as int].output_fits());
                let output_addr = match d.physical_range_translation {
                    Translation::Identity => virt_addr,
                    Translation::Offset(a) => a + (virt_addr - d.virtual_range.start),
                };
                assert(output_addr as int == rest[0].spec_output_addr(virt_addr));
                assert(classify(rest, virt_addr) == (output_addr, d.attribute_fields));
                return Ok((output_addr, d.attribute_fields));
            }
            assert(rest.drop_first() =~= self.inner@.subrange(i + 1, self.inner@.len() as int));
            i = i + 1;
        }
        Ok((virt_addr, AttributeFields::default()))
    }
}

/// The inclusive span of the kernel's code and read-only data, from the linker's exclusive end.
pub fn rx_range_inclusive(rx_start: u64, rx_end_exclusive: u64) -> (r: VirtRange)
    requires
        rx_end_exclusive >= 1,
    ensures
        r == rx_range_inclusive_spec(rx_start, rx_end_exclusive),
{
    VirtRange { start: rx_start, end_inclusive: rx_end_exclusive - 1 }
}

/// The inclusive span of the device MMIO window.
pub fn mmio_range_inclusive() -> (r: VirtRange)
    ensures
        r == (VirtRange { start: MMIO_START, end_inclusive: MMIO_END_INCLUSIVE }),
{
    VirtRange { start: MMIO_START, end_inclusive: MMIO_END_INCLUSIVE }
}

/// Attributes of the kernel's code region.
pub open spec fn kernel_code_attributes() -> AttributeFields {
    AttributeFields {
        mem_attributes: MemAttributes::CacheableDRAM,
        acc_perms: AccessPermissions::ReadOnly,
        execute_never: true,
    }
}

/// Attributes of the device MMIO region.
pub open spec fn device_mmio_attributes() -> AttributeFields {
    AttributeFields {
        mem_attributes: MemAttributes::Device,
        acc_perms: AccessPermissions::ReadWrite,
        execute_never: true,
    }
}

/// The default layout of the 4 GiB address space: the kernel's code region, read-only, then
/// the device MMIO window, both identity mapped and not executable.
pub fn default_layout(rx_start: u64, rx_end_exclusive: u64) -> (r: SimpleMemoryLayout)
    requires
        rx_end_exclusive >= 1,
    ensures
        r.max_addr() == MEMORY_END_INCLUSIVE,
        r.regions().len() == 2,
        r.regions()[0].virtual_range == rx_range_inclusive_spec(rx_start, rx_end_exclusive),
        r.regions()[0].physical_range_translation == Translation::Identity,
        r.regions()[0].attribute_fields == kernel_code_attributes(),
        r.regions()[1].virtual_range == (VirtRange {
            start: MMIO_START,
            end_inclusive: MMIO_END_INCLUSIVE,
        }),
        r.regions()[1].physical_range_translation == Translation::Identity,
        r.regions()[1].attribute_fields == device_mmio_attributes(),
{
    let code = TranslationDescriptor {
        name: "Kernel code and RO data",
        virtual_range: rx_range_inclusive(rx_start, rx_end_exclusive),
        physical_range_translation: Translation::Identity,
        attribute_fields: AttributeFields {
            mem_attributes: MemAttributes::CacheableDRAM,
            acc_perms: AccessPermissions::ReadOnly,
            execute_never: true,
        },
    };
    let mmio = TranslationDescriptor {
        name: "Device MMIO",
        virtual_range: mmio_range_inclusive(),
        physical_range_translation: Translation::Identity,
        attribute_fields: AttributeFields {
            mem_attributes: MemAttributes::Device,
            acc_perms: AccessPermissions::ReadWrite,
            execute_never: true,
        },
    };
    let regions = vec![code, mmio];
    SimpleMemoryLayout::new(MEMORY_END_INCLUSIVE, regions)
}

/// The kernel's code span as `rx_range_inclusive` returns it.
pub open spec fn rx_range_inclusive_spec(rx_start: u64, rx_end_exclusive: u64) -> VirtRange {
    VirtRange { start: rx_start, end_inclusive: (rx_end_exclusive - 1) as u64 }
}

/// The classification of `addr` is that of the first region containing it, or the identity
/// default when no region contains it.
pub proof fn lemma_first_match_wins(descs: Seq<TranslationDescriptor>, addr: u64, k: int)
    requires
        0 <= k <= descs.len(),
        forall|j: int| 0 <= j < k ==> !(#[trigger] descs[j]).virtual_range.spec_contains(addr),
        k < descs.len() ==> descs[k].virtual_range.spec_contains(addr),
    ensures
        k < descs.len() ==> classify(descs, addr) == (
            descs[k].spec_output_addr(addr) as u64,
            descs[k].attribute_fields,
        ),
        k == descs.len() ==> classify(descs, addr) == (addr, default_attributes()),
    decreases k,
{
    if k > 0 {
        assert(!descs[0].virtual_range.spec_contains(addr));
        let rest = descs.drop_first();
        assert forall|j: int| 0 <= j < k - 1 implies !(#[trigger] rest[j]).virtual_range.spec_contains(addr) by {
            assert(rest[j] == descs[j + 1]);
        }
        lemma_first_match_wins(rest, addr, k - 1);
        if k < descs.len() {
            assert(rest[k - 1] == descs[k]);
        }
    }
}

/// Within the address space, a layout answers with the first region containing the address,
/// or with the identity-mapped default when none does.
pub proof fn lemma_virt_addr_properties_first_match(
    layout: &SimpleMemoryLayout,
    addr: u64,
    k: int,
)
    requires
        addr <= layout.max_addr(),
        0 <= k <= layout.regions().len(),
        forall|j: int|
            0 <= j < k ==> !(#[trigger] layout.regions()[j]).virtual_range.spec_contains(addr),
        k < layout.regions().len() ==> layout.regions()[k].virtual_range.spec_contains(addr),
    ensures
        k < layout.regions().len() ==> layout.spec_virt_addr_properties(addr) == Ok::<
            (u64, AttributeFields),
            LayoutError,
        >((layout.regions()[k].spec_output_addr(addr) as u64, layout.regions()[k].attribute_fields)),
        k == layout.regions().len() ==> layout.spec_virt_addr_properties(addr) == Ok::<
            (u64, AttributeFields),
            LayoutError,
        >((addr, default_attributes())),
{
    lemma_first_match_wins(layout.regions(), addr, k);
}

/// Every address above the maximum is out of range.
pub proof fn lemma_out_of_range(layout: &SimpleMemoryLayout, addr: u64)
    requires
        addr > layout.max_addr(),
    ensures
        layout.spec_virt_addr_properties(addr) == Err::<(u64, AttributeFields), LayoutError>(
            LayoutError::OutOfRange,
        ),
{
}

} // verus!
