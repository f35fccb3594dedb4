//! The fixed-size, two-level translation table for the 64 KiB granule, and its page and table
//! descriptor encoding.
use vstd::prelude::*;
use crate::attributes::{AccessPermissions, AttributeFields, MemAttributes};
use crate::layout::{LayoutError, VirtualMemoryLayout};

verus! {

/// Size of the 64 KiB translation granule.
pub const GRANULE_64KIB_SIZE: u64 = 0x1_0000;
/// Size of a level-2 block (512 MiB).
pub const GRANULE_512MIB_SIZE: u64 = 0x2000_0000;
/// Page descriptors in one level-3 table (512 MiB / 64 KiB).
pub const LVL3_ENTRIES: usize = 8192;
/// The largest supported address space (48 bits).
pub const MAX_ADDR_SPACE_SIZE: u64 = 0x1_0000_0000_0000;

/// Descriptor is valid.
pub const DESC_VALID: u64 = 0b1;
/// Descriptor points to a page (level 3) or to a next-level table (level 2).
pub const DESC_TYPE_PAGE_OR_TABLE: u64 = 0b10;
/// Memory attribute index of device memory in MAIR_EL1.
pub const MAIR_DEVICE_INDEX: u64 = 0;
/// Memory attribute index of cacheable normal DRAM in MAIR_EL1.
pub const MAIR_NORMAL_INDEX: u64 = 1;
/// AttrIndx field offset.
pub const ATTR_INDX_SHIFT: u64 = 2;
/// Access permissions: read-only at EL1.
pub const AP_RO_EL1: u64 = 0b10 << 6;
/// Access permissions: read-write at EL1.
pub const AP_RW_EL1: u64 = 0b00 << 6;
/// Shareability: outer shareable.
pub const SH_OUTER_SHAREABLE: u64 = 0b10 << 8;
/// Shareability: inner shareable.
pub const SH_INNER_SHAREABLE: u64 = 0b11 << 8;
/// Access flag.
pub const DESC_AF: u64 = 1 << 10;
/// Privileged execute-never.
pub const DESC_PXN: u64 = 1 << 53;
/// Unprivileged execute-never.
pub const DESC_UXN: u64 = 1 << 54;
/// Output address bits [47:16] of a descriptor.
pub const OUTPUT_ADDR_MASK: u64 = 0x0000_FFFF_FFFF_0000;

/// The address space size is a whole number of 512 MiB blocks and at most 2^48 bytes.
pub open spec fn valid_address_space_size(size: u64) -> bool {
    size % GRANULE_512MIB_SIZE == 0 && size <= MAX_ADDR_SPACE_SIZE
}

/// Checks an address space size for the architectural restrictions.
pub fn arch_address_space_size_sanity_checks(size: u64) -> (r: bool)
    ensures
        r == valid_address_space_size(size),
{
    size % GRANULE_512MIB_SIZE == 0 && size <= MAX_ADDR_SPACE_SIZE
}

/// The attribute bits of a page descriptor.
pub open spec fn attribute_bits(a: AttributeFields) -> u64 {
    (match a.mem_attributes {
        MemAttributes::CacheableDRAM => SH_INNER_SHAREABLE | (MAIR_NORMAL_INDEX << ATTR_INDX_SHIFT),
        MemAttributes::Device => SH_OUTER_SHAREABLE | (MAIR_DEVICE_INDEX << ATTR_INDX_SHIFT),
    }) | (match a.acc_perms {
        AccessPermissions::ReadOnly => AP_RO_EL1,
        AccessPermissions::ReadWrite => AP_RW_EL1,
    }) | (if a.execute_never {
        DESC_PXN
    } else {
        0
    }) | DESC_UXN
}

/// A valid level-3 page descriptor for `output_addr` with attributes `a`.
pub open spec fn page_descriptor(output_addr: u64, a: AttributeFields) -> u64 {
    (output_addr & OUTPUT_ADDR_MASK) | DESC_AF | DESC_TYPE_PAGE_OR_TABLE | DESC_VALID
        | attribute_bits(a)
}

/// A valid level-2 table descriptor pointing at the level-3 table at `next_table_addr`.
pub open spec fn table_descriptor(next_table_addr: u64) -> u64 {
    (next_table_addr & OUTPUT_ADDR_MASK) | DESC_TYPE_PAGE_OR_TABLE | DESC_VALID
}

/// Encodes the attribute bits of a page descriptor.
pub fn attribute_fields_to_bits(a: &AttributeFields) -> (r: u64)
    ensures
        r == attribute_bits(*a),
{
    (match a.mem_attributes {
        MemAttributes::CacheableDRAM => SH_INNER_SHAREABLE | (MAIR_NORMAL_INDEX << ATTR_INDX_SHIFT),
        MemAttributes::Device => SH_OUTER_SHAREABLE | (MAIR_DEVICE_INDEX << ATTR_INDX_SHIFT),
    }) | (match a.acc_perms {
        AccessPermissions::ReadOnly => AP_RO_EL1,
        AccessPermissions::ReadWrite => AP_RW_EL1,
    }) | (if a.execute_never {
        DESC_PXN
    } else {
        0
    }) | DESC_UXN
}

/// Encodes a level-3 page descriptor.
pub fn page_descriptor_from_output_addr(output_addr: u64, a: &AttributeFields) -> (r: u64)
    ensures
        r == page_descriptor(output_addr, *a),
{
    (output_addr & OUTPUT_ADDR_MASK) | DESC_AF | DESC_TYPE_PAGE_OR_TABLE | DESC_VALID
        | attribute_fields_to_bits(a)
}

/// Encodes a level-2 table descriptor.
pub fn table_descriptor_from_next_lvl_table_addr(next_table_addr: u64) -> (r: u64)
    ensures
        r == table_descriptor(next_table_addr),
{
    (next_table_addr & OUTPUT_ADDR_MASK) | DESC_TYPE_PAGE_OR_TABLE | DESC_VALID
}

/// The virtual address that page `k` of the table (level-2 block `k / 8192`, page `k % 8192`
/// within it) translates.
pub open spec fn page_virt_addr(k: int) -> u64 {
    (k * GRANULE_64KIB_SIZE) as u64
}

/// Page `j` of level-2 block `i` translates the virtual address `i * 512 MiB + j * 64 KiB`.
pub proof fn lemma_page_virt_addr_of_block(i: int, j: int)
    requires
        0 <= i < 0x8_0000,
        0 <= j < LVL3_ENTRIES,
    ensures
        page_virt_addr(i * LVL3_ENTRIES + j) == i * GRANULE_512MIB_SIZE + j * GRANULE_64KIB_SIZE,
{
    assert((i * 8192 + j) * 0x1_0000 == i * 0x2000_0000 + j * 0x1_0000) by (nonlinear_arith);
    assert(i * 0x2000_0000 + j * 0x1_0000 < 0x1_0000_0000_0000) by (nonlinear_arith)
        requires
            0 <= i < 0x8_0000,
            0 <= j < 8192,
    ;
}

/// A translation table covering `num_tables` blocks of 512 MiB. The level-3 tables lie one
/// after the other from the physical address `phys_base`, 64 KiB each, followed by the level-2
/// table.
pub struct FixedSizeTranslationTable {
    /// Page descriptors, covering 64 KiB windows per entry; table `i` is entries
    /// `i * 8192 .. (i + 1) * 8192`.
    lvl3: Vec<u64>,
    /// Table descriptors, covering 512 MiB windows.
    lvl2: Vec<u64>,
    /// Physical address of the first level-3 table.
    phys_base: u64,
}

impl FixedSizeTranslationTable {
    pub closed spec fn lvl3_entries(&self) -> Seq<u64> {
        self.lvl3@
    }

    pub closed spec fn lvl2_entries(&self) -> Seq<u64> {
        self.lvl2@
    }

    pub closed spec fn base(&self) -> u64 {
        self.phys_base
    }

    pub open spec fn num_tables(&self) -> nat {
        self.lvl2_entries().len()
    }

    /// Physical address of the level-3 table of block `i`.
    pub open spec fn lvl3_table_addr(&self, i: int) -> int {
        self.base() + i * GRANULE_64KIB_SIZE
    }

    /// The shape of the table and where it lies in physical memory.
    pub open spec fn wf(&self) -> bool {
        &&& self.lvl3_entries().len() == self.num_tables() * LVL3_ENTRIES
        &&& Self::valid_placement(self.num_tables(), self.base())
    }

    /// The physical placement is acceptable for a table of `num_tables` blocks.
    pub open spec fn valid_placement(num_tables: nat, phys_base: u64) -> bool {
        &&& phys_base % GRANULE_64KIB_SIZE == 0
        &&& phys_base + (num_tables + 1) * GRANULE_64KIB_SIZE <= MAX_ADDR_SPACE_SIZE
        &&& num_tables * LVL3_ENTRIES <= usize::MAX
    }

    /// Every entry is the zero (invalid) descriptor.
    pub open spec fn is_zeroed(&self) -> bool {
        &&& forall|k: int| 0 <= k < self.lvl3_entries().len() ==> #[trigger] self.lvl3_entries()[k] == 0
        &&& forall|i: int| 0 <= i < self.lvl2_entries().len() ==> #[trigger] self.lvl2_entries()[i] == 0
    }

    /// Every address of the table's range classifies successfully under `layout`.
    pub open spec fn layout_covers<L: VirtualMemoryLayout>(&self, layout: &L) -> bool {
        forall|k: int|
            0 <= k < self.num_tables() * LVL3_ENTRIES ==> (#[trigger] layout.spec_virt_addr_properties(
                page_virt_addr(k),
            )).is_ok()
    }

    /// Every page descriptor encodes `layout`'s classification of its virtual address, and
    /// every table descriptor points at its level-3 table.
    pub open spec fn populated_with<L: VirtualMemoryLayout>(&self, layout: &L) -> bool {
        &&& self.wf()
        &&& forall|k: int|
            0 <= k < self.lvl3_entries().len() ==> {
                let p = #[trigger] layout.spec_virt_addr_properties(page_virt_addr(k));
                p.is_ok() && self.lvl3_entries()[k] == page_descriptor(
                    p.unwrap().0 as u64,
                    p.unwrap().1,
                )
            }
        &&& forall|i: int|
            0 <= i < self.num_tables() ==> #[trigger] self.lvl2_entries()[i] == table_descriptor(
                self.lvl3_table_addr(i) as u64,
            )
    }

    /// A zero-initialized table for an address space of `address_space_size` bytes whose first
    /// level-3 table lies at `phys_base`. Rejects a size that is not a whole number of 512 MiB
    /// blocks or exceeds 2^48, and a placement that is not 64 KiB aligned or does not fit in
    /// 48 bits.
    pub fn new(address_space_size: u64, phys_base: u64) -> (r: Option<Self>)
        ensures
            r.is_some() <==> valid_address_space_size(address_space_size)
                && Self::valid_placement(
                (address_space_size / GRANULE_512MIB_SIZE) as nat,
                phys_base,
            ),
            r.is_some() ==> {
                let t = r.unwrap();
                &&& t.wf()
                &&& t.num_tables() == address_space_size / GRANULE_512MIB_SIZE
                &&& t.base() == phys_base
                &&& t.is_zeroed()
            },
    {
        if !arch_address_space_size_sanity_checks(address_space_size) {
            return None;
        }
        let n64: u64 = address_space_size / GRANULE_512MIB_SIZE;
        if phys_base % GRANULE_64KIB_SIZE != 0 {
            return None;
        }
        assert(n64 <= 0x8_0000);
        assert(n64 * 8192 <= 0x1_0000_0000) by (nonlinear_arith)
            requires
                n64 <= 0x8_0000,
        ;
        if phys_base > MAX_ADDR_SPACE_SIZE - (n64 + 1) * GRANULE_64KIB_SIZE {
            return None;
        }
        if n64 * (LVL3_ENTRIES as u64) > usize::MAX as u64 {
            return None;
        }
        let n: usize = n64 as usize;
        let total: usize = n * LVL3_ENTRIES;
        let mut lvl3: Vec<u64> = Vec::with_capacity(total);
        let mut k: usize = 0;
        while k < total
            invariant
                k <= total,
                lvl3@.len() == k,
                forall|m: int| 0 <= m < k ==> #[trigger] lvl3@[m] == 0,
            decreases total - k,
        {
            lvl3.push(0);
            k = k + 1;
        }
        let mut lvl2: Vec<u64> = Vec::with_capacity(n);
        let mut i: usize = 0;
        while i < n
            invariant
                i <= n,
                lvl2@.len() == i,
                forall|m: int| 0 <= m < i ==> #[trigger] lvl2@[m] == 0,
            decreases n - i,
        {
            lvl2.push(0);
            i = i + 1;
        }
        Some(FixedSizeTranslationTable { lvl3, lvl2, phys_base })
    }

    /// The physical address of the level-2 table, which the translation table base register
    /// points at.
    pub fn phys_base_address(&self) -> (r: u64)
        requires
            self.wf(),
        ensures
            r == self.base() + self.num_tables() * GRANULE_64KIB_SIZE,
    {
        self.phys_base + (self.lvl2.len() as u64) * GRANULE_64KIB_SIZE
    }

    /// The number of level-2 blocks.
    pub fn len(&self) -> (r: usize)
        ensures
            r == self.num_tables(),
    {
        self.lvl2.len()
    }

    /// Page descriptor `k` (block `k / 8192`, page `k % 8192`).
    pub fn lvl3_entry(&self, k: usize) -> (r: u64)
        requires
            k < self.lvl3_entries().len(),
        ensures
            r == self.lvl3_entries()[k as int],
    {
        self.lvl3[k]
    }

    /// Table descriptor of block `i`.
    pub fn lvl2_entry(&self, i: usize) -> (r: u64)
        requires
            i < self.num_tables(),
        ensures
            r == self.lvl2_entries()[i as int],
    {
        self.lvl2[i]
    }

    /// Fills in every page descriptor from `layout` and points each table descriptor at its
    /// level-3 table. All or nothing: when `layout` fails on any address of the range, its
    /// error is returned and the table is left as it was.
    pub fn populate_tt_entries<L: VirtualMemoryLayout>(&mut self, layout: &L) -> (r: Result<
        (),
        LayoutError,
    >)
        requires
            old(self).wf(),
        ensures
            final(self).base() == old(self).base(),
            final(self).num_tables() == old(self).num_tables(),
            final(self).wf(),
            r.is_ok() <==> old(self).layout_covers(layout),
            r.is_ok() ==> final(self).populated_with(layout),
            r.is_err() ==> *final(self) == *old(self),
            r.is_err() ==> exists|k: int|
                0 <= k < old(self).num_tables() * LVL3_ENTRIES
                    && #[trigger] layout.spec_virt_addr_properties(page_virt_addr(k))
                    == Err::<(u64, AttributeFields), LayoutError>(r->Err_0),
    {
        let n: usize = self.lvl2.len();
        let total: usize = self.lvl3.len();
        assert(n <= 0x1_0000_0000) by (nonlinear_arith)
            requires
                self.phys_base + (n + 1) * 0x1_0000 <= 0x1_0000_0000_0000,
        ;
        assert(total == n * LVL3_ENTRIES);
        let mut lvl3: Vec<u64> = Vec::with_capacity(total);
        let mut k: usize = 0;
        while k < total
            invariant
                k <= total,
                total == n * LVL3_ENTRIES,
                n <= 0x1_0000_0000,
                n == self.lvl2@.len(),
                total == self.lvl3@.len(),
                self.wf(),
                lvl3@.len() == k,
                forall|m: int|
                    0 <= m < k ==> {
                        let p = #[trigger] layout.spec_virt_addr_properties(
                            page_virt_addr(m),
                        );
                        p.is_ok() && lvl3@[m] == page_descriptor(p.unwrap().0 as u64, p.unwrap().1)
                    },
            decreases total - k,
        {
            assert(k * 0x1_0000 < 0x1_0000_0000_0000_0000) by (nonlinear_arith)
                requires
                    k < n * 8192,
                    n <= 0x1_0000_0000,
            ;
            let virt_addr: u64 = (k as u64) * GRANULE_64KIB_SIZE;
            match layout.virt_addr_properties(virt_addr) {
                Ok((phys_output_addr, attribute_fields)) => {
                    lvl3.push(page_descriptor_from_output_addr(phys_output_addr as u64, &attribute_fields));
                },
                Err(e) => {
                    assert(layout.spec_virt_addr_properties(page_virt_addr(k as int)) == Err::<
                        (u64, AttributeFields),
                        LayoutError,
                    >(e));
                    return Err(e);
                },
            }
            k = k + 1;
        }
        let mut lvl2: Vec<u64> = Vec::with_capacity(n);
        let mut i: usize = 0;
        while i < n
            invariant
                i <= n,
                n == self.lvl2@.len(),
                self.wf(),
                lvl2@.len() == i,
                forall|m: int|
                    0 <= m < i ==> #[trigger] lvl2@[m] == table_descriptor(
                        self.lvl3_table_addr(m) as u64,
                    ),
            decreases n - i,
        {
            assert(self.phys_base + i * 0x1_0000 <= 0x1_0000_0000_0000) by (nonlinear_arith)
                requires
                    i < n,
                    self.phys_base + (n + 1) * 0x1_0000 <= 0x1_0000_0000_0000,
            ;
            let addr: u64 = self.phys_base + (i as u64) * GRANULE_64KIB_SIZE;
            lvl2.push(table_descriptor_from_next_lvl_table_addr(addr));
            i = i + 1;
        }
        self.lvl3 = lvl3;
        self.lvl2 = lvl2;
        Ok(())
    }
}

/// Population is deterministic: two tables of the same shape and placement populated from the
/// same layout hold identical descriptors. In particular, populating a table a second time
/// leaves exactly what the first population wrote.
pub proof fn lemma_population_deterministic<L: VirtualMemoryLayout>(
    t1: &FixedSizeTranslationTable,
    t2: &FixedSizeTranslationTable,
    layout: &L,
)
    requires
        t1.base() == t2.base(),
        t1.num_tables() == t2.num_tables(),
        t1.populated_with(layout),
        t2.populated_with(layout),
    ensures
        t1.lvl3_entries() == t2.lvl3_entries(),
        t1.lvl2_entries() == t2.lvl2_entries(),
{
    assert forall|k: int| 0 <= k < t1.lvl3_entries().len() implies t1.lvl3_entries()[k]
        == t2.lvl3_entries()[k] by {
        let p = layout.spec_virt_addr_properties(page_virt_addr(k));
        assert(p.is_ok());
    }
    assert(t1.lvl3_entries() =~= t2.lvl3_entries());
    assert(t1.lvl2_entries() =~= t2.lvl2_entries());
}

} // verus!
