//! Zeroing of the uninitialized-data region, over a word-addressed view of memory.
use vstd::prelude::*;
use crate::attributes::VirtRange;

verus! {

/// Size of a memory word in bytes.
pub const WORD_SIZE: u64 = 8;

/// Words of memory starting at byte address `base`: word `k` is at `base + 8 * k`.
pub struct WordMemory {
    pub base: u64,
    pub words: Vec<u64>,
}

impl WordMemory {
    /// The memory fits in the address space.
    pub open spec fn wf(&self) -> bool {
        self.base + WORD_SIZE * self.words@.len() <= u64::MAX + 1
    }

    /// Byte address of word `k`.
    pub open spec fn addr_of(&self, k: int) -> int {
        self.base + WORD_SIZE * k
    }

    /// `range` starts on a word of this memory, and both of its ends lie inside it.
    pub open spec fn holds(&self, range: VirtRange) -> bool {
        &&& range.start >= self.base
        &&& (range.start - self.base) % (WORD_SIZE as int) == 0
        &&& range.start < self.base + WORD_SIZE * self.words@.len()
        &&& range.end_inclusive < self.base + WORD_SIZE * self.words@.len()
    }
}

/// Whether word `k` of `mem` is one that zeroing `range` writes: the words from `range.start`
/// on, one after the other, while they start at or before `range.end_inclusive`.
pub open spec fn zeroed_by(mem: &WordMemory, range: VirtRange, k: int) -> bool {
    range.start <= mem.addr_of(k) <= range.end_inclusive
}

/// The inclusive range of the uninitialized-data region, from the linker's bounds.
pub fn bss_range_inclusive(bss_start: u64, bss_end_inclusive: u64) -> (r: VirtRange)
    requires
        bss_start <= bss_end_inclusive,
    ensures
        r == (VirtRange { start: bss_start, end_inclusive: bss_end_inclusive }),
{
    VirtRange { start: bss_start, end_inclusive: bss_end_inclusive }
}

/// Zeroes every word of `mem` from `range.start` up to `range.end_inclusive`, and leaves the
/// others untouched.
pub fn zero_volatile(mem: &mut WordMemory, range: &VirtRange)
    requires
        old(mem).wf(),
        old(mem).holds(*range),
    ensures
        final(mem).base == old(mem).base,
        final(mem).words@.len() == old(mem).words@.len(),
        forall|k: int|
            0 <= k < final(mem).words@.len() ==> #[trigger] final(mem).words@[k] == if zeroed_by(
                old(mem),
                *range,
                k,
            ) {
                0
            } else {
                old(mem).words@[k]
            },
{
    let len: usize = mem.words.len();
    let first: u64 = (range.start - mem.base) / WORD_SIZE;
    assert(first < len && first * 8 == range.start - mem.base) by (nonlinear_arith)
        requires
            first == (range.start - mem.base) / 8,
            (range.start - mem.base) % 8 == 0,
            range.start >= mem.base,
            range.start < mem.base + 8 * len,
    ;
    let mut k: usize = first as usize;
    let mut addr: u64 = range.start;
    while k < len && addr <= range.end_inclusive
        invariant
            mem.base == old(mem).base,
            mem.words@.len() == len,
            len == old(mem).words@.len(),
            old(mem).wf(),
            old(mem).holds(*range),
            first <= k <= len,
            first * WORD_SIZE == range.start - mem.base,
            k < len ==> addr == mem.base + WORD_SIZE * k,
            forall|m: int|
                0 <= m < len ==> #[trigger] mem.words@[m] == if first <= m < k {
                    0
                } else {
                    old(mem).words@[m]
                },
            forall|m: int| first <= m < k ==> #[trigger] zeroed_by(old(mem), *range, m),
        decreases len - k,
    {
        mem.words.set(k, 0);
        k = k + 1;
        if k < len {
            addr = addr + WORD_SIZE;
        }
    }
    assert forall|m: int| 0 <= m < len implies #[trigger] zeroed_by(old(mem), *range, m) == (
    first <= m < k) by {
        if m < first {
            let b = old(mem).base;
            assert(b + 8 * m < range.start) by (nonlinear_arith)
                requires
                    m < first,
                    first * 8 == range.start - b,
            ;
        }
    }
}

/// Zeroes the uninitialized-data region `[bss_start, bss_end_inclusive]` of `mem`.
pub fn zero_bss(mem: &mut WordMemory, bss_start: u64, bss_end_inclusive: u64)
    requires
        bss_start <= bss_end_inclusive,
        old(mem).wf(),
        old(mem).holds(VirtRange { start: bss_start, end_inclusive: bss_end_inclusive }),
    ensures
        final(mem).base == old(mem).base,
        final(mem).words@.len() == old(mem).words@.len(),
        forall|k: int|
            0 <= k < final(mem).words@.len() ==> #[trigger] final(mem).words@[k] == if zeroed_by(
                old(mem),
                VirtRange { start: bss_start, end_inclusive: bss_end_inclusive },
                k,
            ) {
                0
            } else {
                old(mem).words@[k]
            },
{
    let range = bss_range_inclusive(bss_start, bss_end_inclusive);
    zero_volatile(mem, &range);
}

/// Writing past the end of the region was refused.
#[derive(Clone, Copy, Debug, PartialEq, Eq, Structural)]
pub enum MemWriteError {
    NotEnoughSpace,
}

/// A cursor that hands out consecutive parts of the memory region `[addr, addr_end)`.
pub struct MemWriter {
    pub addr: u64,
    pub addr_end: u64,
}

impl MemWriter {
    pub open spec fn wf(&self) -> bool {
        self.addr <= self.addr_end
    }

    /// A writer over the `size` bytes from `start_addr`.
    pub fn new(start_addr: u64, size: u64) -> (r: Self)
        requires
            start_addr + size <= u64::MAX,
        ensures
            r.wf(),
            r.addr == start_addr,
            r.addr_end == start_addr + size,
    {
        MemWriter { addr: start_addr, addr_end: start_addr + size }
    }

    /// Claims the next `len` bytes and returns where they start, or refuses, claiming nothing,
    /// when fewer than `len` bytes are left.
    pub fn write_all(&mut self, len: u64) -> (r: Result<u64, MemWriteError>)
        requires
            old(self).wf(),
        ensures
            final(self).wf(),
            final(self).addr_end == old(self).addr_end,
            len > old(self).addr_end - old(self).addr ==> r == Err::<u64, MemWriteError>(
                MemWriteError::NotEnoughSpace,
            ) && final(self).addr == old(self).addr,
            len <= old(self).addr_end - old(self).addr ==> r == Ok::<u64, MemWriteError>(
                old(self).addr,
            ) && final(self).addr == old(self).addr + len,
    {
        if len > self.addr_end - self.addr {
            return Err(MemWriteError::NotEnoughSpace);
        }
        let dst = self.addr;
        self.addr = self.addr + len;
        Ok(dst)
    }
}

} // verus!
